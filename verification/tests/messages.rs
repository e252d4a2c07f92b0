use zenbookd::adapter::{AdapterError, AdapterReadError};
use zenbookd::battery::{BatteryError, BatteryReadError, ThresholdSetError};
use zenbookd::ipc::{IpcError, ServiceStatus};
use zenbookd::status::times_fit_at;
use zenbookd::text::ParseIntError;
use zenbookd::wifi::{WifiError, WifiReadError, WifiSetError};

#[test]
fn device_errors_read_as_the_daemon_logs_them() {
    assert_eq!(AdapterError::NotFound.message(), "AC adapter not found");
    assert_eq!(AdapterError::IoError("gone".to_string()).message(), "IO error: gone");
    assert_eq!(
        AdapterReadError::ParseError(ParseIntError::InvalidDigit).message(),
        "Number parse error: invalid digit found in string"
    );
    assert_eq!(BatteryError::NotFound.message(), "Battery not found");
    assert_eq!(BatteryError::NameParseError.message(), "Failed to parse name of file/folder");
    assert_eq!(WifiError::NotFound.message(), "Wireless interface not found");
    assert_eq!(WifiReadError::CommandFailed("no device".to_string()).message(), "Command failed: no device");
    assert_eq!(WifiReadError::UnexpectedOutput("maybe".to_string()).message(), "Unexpected output: maybe");
    assert_eq!(WifiSetError::IoError("denied".to_string()).message(), "IO error: denied");
}

#[test]
fn battery_errors_read_as_reported_to_the_user() {
    assert_eq!(
        BatteryReadError::ParseError(ParseIntError::Empty).message(),
        "Number parse error: cannot parse integer from empty string"
    );
    assert_eq!(BatteryReadError::ZeroDesignCapacity.message(), "Battery reports a design capacity of zero");
    assert_eq!(
        ThresholdSetError::InvalidValue(101).message(),
        "Invalid threshold '101' value must be between 0-100'"
    );
}

#[test]
fn ipc_errors_name_their_kind() {
    assert_eq!(IpcError::Io("failed to fill whole buffer".to_string()).message(), "IO error: failed to fill whole buffer");
    assert_eq!(IpcError::Json("expected value".to_string()).message(), "JSON error: expected value");
    assert_eq!(
        IpcError::MessageTooLarge(70000).message(),
        "Message too large: 70000 bytes (maximum 65536)"
    );
}

#[test]
fn times_that_cannot_be_compared_are_caught() {
    let mut status = ServiceStatus {
        charge_limit: 80,
        enable_periodic_full_charge: true,
        full_charge_period: 30,
        battery_health: None,
        battery_charge: None,
        applied_threshold: None,
        boost_until: None,
        last_full_charge: Some(1_768_000_000),
        calibration_active: false,
        threshold_error: None,
        config_error: None,
    };

    assert!(times_fit_at(&status, 1_768_100_000));

    status.last_full_charge = Some(i64::MIN);
    assert!(!times_fit_at(&status, 1));

    status.last_full_charge = None;
    status.boost_until = Some(i64::MAX);
    assert!(!times_fit_at(&status, -1));
    assert!(times_fit_at(&status, 0));
}
