use zenbookd::cli::{
    conclude, confirmation, examples, report_connect_failure, request_for, CliError, Commands, ConnectFailure, Toggle,
};
use zenbookd::ipc::{Request, Response};
use zenbookd::ui::ascii_glyphs;

#[test]
fn each_command_sends_its_request() {
    assert_eq!(request_for(&Commands::Status), Request::GetStatus);
    assert_eq!(request_for(&Commands::SetLimit { limit: 80 }), Request::SetChargeLimit(80));
    assert_eq!(request_for(&Commands::Boost { stop: false }), Request::SetBoost(true));
    assert_eq!(request_for(&Commands::Boost { stop: true }), Request::SetBoost(false));
    assert_eq!(
        request_for(&Commands::SetPeriodicCharge { state: Toggle::Off }),
        Request::SetPeriodicFullCharge(false)
    );
    assert_eq!(request_for(&Commands::SetChargePeriod { days: 30 }), Request::SetFullChargePeriod(30));
    assert_eq!(request_for(&Commands::SetWifiPowerSave { state: Toggle::On }), Request::SetWifiPowerSave(true));
    assert_eq!(request_for(&Commands::Reload), Request::ReloadConfig);
}

#[test]
fn confirmations_name_what_changed() {
    assert_eq!(confirmation(&Commands::SetLimit { limit: 80 }), "Charge limit set to 80%");
    assert_eq!(
        confirmation(&Commands::Boost { stop: false }),
        "Boost enabled, charging to 100% until full or for 24h"
    );
    assert_eq!(confirmation(&Commands::Boost { stop: true }), "Boost cancelled, charge limit restored");
    assert_eq!(confirmation(&Commands::SetPeriodicCharge { state: Toggle::On }), "Periodic full charge enabled");
    assert_eq!(confirmation(&Commands::SetChargePeriod { days: 365 }), "Charge period set to 365 days");
    assert_eq!(
        confirmation(&Commands::SetWifiPowerSave { state: Toggle::Off }),
        "Wi-Fi power saving left untouched on AC"
    );
    assert_eq!(confirmation(&Commands::Reload), "Configuration reloaded");
}

#[test]
fn examples_are_aligned_in_a_column() {
    let text = examples("<h>", "</h>", "<l>", "</l>");

    assert_eq!(
        text,
        "<h>Examples:</h>\
         \n  <l>zenbookd status</l>                  show charge, health and configuration\
         \n  <l>zenbookd set-limit 80</l>            hold the battery at 80%\
         \n  <l>zenbookd boost</l>                   charge to 100% now, restore the limit after\
         \n  <l>zenbookd set-charge-period 30</l>    days between periodic full charges\
         \n  <l>zenbookd reload</l>                  re-read config.toml without restarting"
    );
}

#[test]
fn connect_failures_come_with_a_hint_for_their_kind() {
    colored::control::set_override(false);

    assert_eq!(
        report_connect_failure("/run/zenbookd.sock", ConnectFailure::PermissionDenied, "Permission denied"),
        "\u{2718} Cannot reach the zenbookd service\n  Permission denied\n  The socket at /run/zenbookd.sock is group-owned by zenbookd. Try: sudo usermod -aG zenbookd $USER, then log back in\n"
    );
    assert!(report_connect_failure("/s", ConnectFailure::ConnectionRefused, "refused")
        .contains("Try: systemctl restart zenbookd.service"));
}

#[test]
fn a_carried_out_request_is_confirmed() {
    colored::control::set_override(false);
    let o = conclude(&Commands::SetLimit { limit: 75 }, Ok(Response::Done), 0, 80, &ascii_glyphs());

    assert!(o.success);
    assert_eq!(o.stdout, "\u{2714} Charge limit set to 75%\n");
    assert_eq!(o.stderr, "");
}

#[test]
fn a_refusal_fails_the_command() {
    colored::control::set_override(false);
    let o = conclude(
        &Commands::SetLimit { limit: 75 },
        Ok(Response::Error("Charge limit must be between 1 and 100, got 0".to_string())),
        0,
        80,
        &ascii_glyphs(),
    );

    assert!(!o.success);
    assert_eq!(o.stdout, "");
    assert_eq!(
        o.stderr,
        "\u{2718} Service rejected the request\n  Charge limit must be between 1 and 100, got 0\n"
    );
}

#[test]
fn a_missing_socket_means_the_service_is_down() {
    colored::control::set_override(false);
    let answer = Err(CliError::Connect {
        path: "/run/zenbookd.sock".to_string(),
        kind: ConnectFailure::NotFound,
        cause: "No such file or directory (os error 2)".to_string(),
    });
    let o = conclude(&Commands::Status, answer, 0, 80, &ascii_glyphs());

    assert!(!o.success);
    assert_eq!(
        o.stderr,
        "\u{2718} Cannot reach the zenbookd service\n  No such file or directory (os error 2)\n  The service does not appear to be running. Try: systemctl status zenbookd.service\n"
    );
}

#[test]
fn a_lost_connection_is_reported() {
    colored::control::set_override(false);
    let o = conclude(&Commands::Reload, Err(CliError::Ipc("timed out".to_string())), 0, 80, &ascii_glyphs());

    assert!(!o.success);
    assert_eq!(
        o.stderr,
        "\u{2718} Lost contact with the zenbookd service\n  timed out\n  Try: systemctl status zenbookd.service\n"
    );
}
