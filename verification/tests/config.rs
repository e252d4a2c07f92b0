use zenbookd::config::{
    default_true, load_config, load_initial_config, validate_charge_limit, validate_full_charge_period, Config,
    ConfigLoadError, ConfigSaveError, MAX_CHARGE_LIMIT, MIN_CHARGE_LIMIT,
};

#[test]
fn defaults_are_conservative() {
    let cfg = Config::default();

    assert_eq!(cfg.charge_limit, 100);
    assert!(cfg.enable_periodic_full_charge);
    assert_eq!(cfg.full_charge_period, 90);
    assert!(cfg.disable_wifi_power_save_on_ac);
}

#[test]
fn charge_limit_above_the_maximum_is_clamped_down() {
    let mut cfg = Config {
        charge_limit: 5000,
        ..Config::default()
    };

    cfg.clamp_charge_limit();

    assert_eq!(cfg.charge_limit, 100);
}

#[test]
fn zero_charge_limit_is_clamped_up_to_the_minimum() {
    let mut cfg = Config {
        charge_limit: 0,
        ..Config::default()
    };

    cfg.clamp_charge_limit();

    assert_eq!(cfg.charge_limit, 1);
}

#[test]
fn in_range_charge_limit_is_left_alone() {
    let mut cfg = Config {
        charge_limit: 80,
        ..Config::default()
    };

    cfg.clamp_charge_limit();

    assert_eq!(cfg.charge_limit, 80);
}

#[test]
fn validation_accepts_the_whole_valid_range() {
    assert!(validate_charge_limit(MIN_CHARGE_LIMIT).is_ok());
    assert!(validate_charge_limit(80).is_ok());
    assert!(validate_charge_limit(MAX_CHARGE_LIMIT).is_ok());
}

#[test]
fn validation_rejects_values_the_hardware_would_refuse() {
    assert!(validate_charge_limit(0).is_err());
    assert!(validate_charge_limit(101).is_err());
    assert!(validate_charge_limit(u32::MAX).is_err());
}

#[test]
fn refusal_names_the_valid_range_and_the_value() {
    assert_eq!(
        validate_charge_limit(101).unwrap_err(),
        "Charge limit must be between 1 and 100, got 101"
    );
    assert_eq!(
        validate_charge_limit(0).unwrap_err(),
        "Charge limit must be between 1 and 100, got 0"
    );
    assert_eq!(
        validate_full_charge_period(400).unwrap_err(),
        "Full charge period must be between 1 and 365 days, got 400"
    );
    assert!(validate_full_charge_period(1).is_ok());
    assert!(validate_full_charge_period(365).is_ok());
    assert!(validate_full_charge_period(0).is_err());
}

#[test]
fn a_missing_wifi_key_defaults_to_on() {
    assert!(default_true());
}

#[test]
fn loading_clamps_the_charge_limit() {
    let parsed = Ok(Config { charge_limit: 0, ..Config::default() });
    assert_eq!(load_config(parsed).unwrap().charge_limit, 1);

    let failed: Result<Config, ConfigLoadError> = Err(ConfigLoadError::NotFound);
    assert_eq!(load_config(failed), Err(ConfigLoadError::NotFound));
}

#[test]
fn a_missing_config_falls_back_to_defaults_silently() {
    let (cfg, reported) = load_initial_config(Err(ConfigLoadError::NotFound));
    assert_eq!(cfg, Config::default());
    assert_eq!(reported, None);
}

#[test]
fn a_malformed_config_falls_back_to_defaults_and_is_reported() {
    let (cfg, reported) = load_initial_config(Err(ConfigLoadError::Invalid("expected `=`".to_string())));
    assert_eq!(cfg, Config::default());
    assert_eq!(reported.as_deref(), Some("expected `=`"));

    let (_, reported) = load_initial_config(Err(ConfigLoadError::IoError("permission denied".to_string())));
    assert_eq!(reported.as_deref(), Some("permission denied"));
}

#[test]
fn a_readable_config_is_used_as_is() {
    let wanted = Config { charge_limit: 75, enable_periodic_full_charge: false, full_charge_period: 45, disable_wifi_power_save_on_ac: false };
    let (cfg, reported) = load_initial_config(Ok(wanted));
    assert_eq!(cfg, wanted);
    assert_eq!(reported, None);
}

#[test]
fn errors_are_reported_with_their_cause() {
    assert_eq!(ConfigLoadError::NotFound.message(), "Config file not found");
    assert_eq!(
        ConfigLoadError::Invalid("bad".to_string()).message(),
        "Invalid or malformed config file: bad"
    );
    assert_eq!(ConfigLoadError::IoError("gone".to_string()).message(), "IO error: gone");
    assert_eq!(
        ConfigSaveError::TomlError("bad".to_string()).message(),
        "Failed to serialize config: bad"
    );
    assert_eq!(ConfigSaveError::IoError("full".to_string()).message(), "IO error: full");
}

#[test]
fn loading_twice_changes_nothing_more() {
    let cfg = Config {
        charge_limit: 5000,
        enable_periodic_full_charge: false,
        full_charge_period: 7,
        disable_wifi_power_save_on_ac: false,
    };

    let once = load_config(Ok(cfg)).unwrap();
    let twice = load_config(Ok(once)).unwrap();

    assert_eq!(once.charge_limit, 100);
    assert_eq!(twice, once);
    assert!(validate_charge_limit(twice.charge_limit).is_ok());
}
