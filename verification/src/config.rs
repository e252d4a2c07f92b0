//! The daemon's configuration and the rules that keep it within range.

use vstd::prelude::*;

use crate::text::{decimal, decimal_string};

verus! {

/// The lowest charge limit the kernel accepts as an end threshold.
pub const MIN_CHARGE_LIMIT: u32 = 1;

/// The highest charge limit, a full battery.
pub const MAX_CHARGE_LIMIT: u32 = 100;

/// The lowest number of days between periodic full charges.
pub const MIN_FULL_CHARGE_PERIOD: u32 = 1;

/// The highest number of days between periodic full charges.
pub const MAX_FULL_CHARGE_PERIOD: u32 = 365;

/// What `/etc/zenbookd/config.toml` holds.
#[derive(Debug, Clone, Copy, PartialEq, Eq, Structural)]
pub struct Config {
    /// The percentage the battery is held at. Values outside
    /// `MIN_CHARGE_LIMIT..=MAX_CHARGE_LIMIT` are clamped on load; 0 is invalid
    /// because the kernel rejects a zero end threshold.
    pub charge_limit: u32,
    /// Toggles the periodic full charge without forgetting its period. When
    /// off, `full_charge_period` is ignored.
    pub enable_periodic_full_charge: bool,
    /// Days after the last full charge at which the charge limit is lifted
    /// until the battery is full again, so the BMS can recalibrate.
    pub full_charge_period: u32,
    /// When on, Wi-Fi power saving is switched off while on AC power and put
    /// back as it was once unplugged.
    pub disable_wifi_power_save_on_ac: bool,
}

/// The value a missing `disable_wifi_power_save_on_ac` key takes.
pub fn default_true() -> (b: bool)
    ensures
        b,
{
    true
}

/// The configuration used when none is on disk.
pub open spec fn default_config() -> Config {
    Config {
        charge_limit: 100,
        enable_periodic_full_charge: true,
        full_charge_period: 90,
        disable_wifi_power_save_on_ac: true,
    }
}

impl Default for Config {
    /// Lets the battery charge fully, with a periodic full charge every 90 days
    /// and Wi-Fi power saving off on AC.
    fn default() -> (cfg: Self)
        ensures
            cfg == default_config(),
    {
        Config {
            charge_limit: 100,
            enable_periodic_full_charge: true,
            full_charge_period: 90,
            disable_wifi_power_save_on_ac: default_true(),
        }
    }
}

/// `value` brought into `low..=high`.
pub open spec fn clamp_spec(value: u32, low: u32, high: u32) -> u32 {
    if value < low {
        low
    } else if value > high {
        high
    } else {
        value
    }
}

/// Whether `limit` is a charge limit the hardware accepts.
pub open spec fn charge_limit_in_range(limit: u32) -> bool {
    MIN_CHARGE_LIMIT <= limit <= MAX_CHARGE_LIMIT
}

/// Whether `days` is a full-charge period the daemon accepts.
pub open spec fn full_charge_period_in_range(days: u32) -> bool {
    MIN_FULL_CHARGE_PERIOD <= days <= MAX_FULL_CHARGE_PERIOD
}

impl Config {
    /// Brings the charge limit into `MIN_CHARGE_LIMIT..=MAX_CHARGE_LIMIT`,
    /// leaving every other setting as it was.
    pub fn clamp_charge_limit(&mut self)
        ensures
            final(self).charge_limit == clamp_spec(old(self).charge_limit, MIN_CHARGE_LIMIT, MAX_CHARGE_LIMIT),
            final(self).enable_periodic_full_charge == old(self).enable_periodic_full_charge,
            final(self).full_charge_period == old(self).full_charge_period,
            final(self).disable_wifi_power_save_on_ac == old(self).disable_wifi_power_save_on_ac,
    {
        let clamped = if self.charge_limit < MIN_CHARGE_LIMIT {
            MIN_CHARGE_LIMIT
        } else if self.charge_limit > MAX_CHARGE_LIMIT {
            MAX_CHARGE_LIMIT
        } else {
            self.charge_limit
        };
        if clamped != self.charge_limit {
            self.charge_limit = clamped;
        }
    }
}

/// The message that refuses charge limit `limit`.
pub open spec fn charge_limit_error(limit: u32) -> Seq<char> {
    "Charge limit must be between 1 and 100, got "@ + decimal(limit as nat)
}

/// The message that refuses full-charge period `days`.
pub open spec fn full_charge_period_error(days: u32) -> Seq<char> {
    "Full charge period must be between 1 and 365 days, got "@ + decimal(days as nat)
}

/// Accepts a charge limit the hardware would take, and refuses any other with
/// a message that names the valid range.
pub fn validate_charge_limit(limit: u32) -> (r: Result<(), String>)
    ensures
        r is Ok <==> charge_limit_in_range(limit),
        r matches Err(message) ==> message@ == charge_limit_error(limit),
{
    if MIN_CHARGE_LIMIT <= limit && limit <= MAX_CHARGE_LIMIT {
        Ok(())
    } else {
        let mut message = String::from_str("Charge limit must be between 1 and 100, got ");
        let number = decimal_string(limit as u64);
        message.append(number.as_str());
        Err(message)
    }
}

/// Accepts a full-charge period of one day to a year, and refuses any other
/// with a message that names the valid range.
pub fn validate_full_charge_period(days: u32) -> (r: Result<(), String>)
    ensures
        r is Ok <==> full_charge_period_in_range(days),
        r matches Err(message) ==> message@ == full_charge_period_error(days),
{
    if MIN_FULL_CHARGE_PERIOD <= days && days <= MAX_FULL_CHARGE_PERIOD {
        Ok(())
    } else {
        let mut message = String::from_str("Full charge period must be between 1 and 365 days, got ");
        let number = decimal_string(days as u64);
        message.append(number.as_str());
        Err(message)
    }
}

/// Why the configuration (or the daemon's state file) could not be read.
#[derive(Debug, Clone, PartialEq, Eq)]
pub enum ConfigLoadError {
    /// There is no file at the expected path.
    NotFound,
    /// The file is not a valid document; the parser's explanation.
    Invalid(String),
    /// The file could not be read; the system's explanation.
    IoError(String),
}

/// Why the configuration (or the daemon's state file) could not be written.
#[derive(Debug, Clone, PartialEq, Eq)]
pub enum ConfigSaveError {
    /// The value could not be serialized; the serializer's explanation.
    TomlError(String),
    /// The file could not be written; the system's explanation.
    IoError(String),
}

/// The text a load error is reported with.
pub open spec fn load_error_message(err: ConfigLoadError) -> Seq<char> {
    match err {
        ConfigLoadError::NotFound => "Config file not found"@,
        ConfigLoadError::Invalid(cause) => "Invalid or malformed config file: "@ + cause@,
        ConfigLoadError::IoError(cause) => "IO error: "@ + cause@,
    }
}

/// The text a save error is reported with.
pub open spec fn save_error_message(err: ConfigSaveError) -> Seq<char> {
    match err {
        ConfigSaveError::TomlError(cause) => "Failed to serialize config: "@ + cause@,
        ConfigSaveError::IoError(cause) => "IO error: "@ + cause@,
    }
}

/// `prefix` followed by `rest`.
pub fn prefixed(prefix: &str, rest: &str) -> (out: String)
    ensures
        out@ == prefix@ + rest@,
{
    let mut out = String::from_str(prefix);
    out.append(rest);
    out
}

impl ConfigLoadError {
    /// The text this error is reported with.
    pub fn message(&self) -> (m: String)
        ensures
            m@ == load_error_message(*self),
    {
        match self {
            ConfigLoadError::NotFound => String::from_str("Config file not found"),
            ConfigLoadError::Invalid(cause) => prefixed("Invalid or malformed config file: ", cause.as_str()),
            ConfigLoadError::IoError(cause) => prefixed("IO error: ", cause.as_str()),
        }
    }
}

impl ConfigSaveError {
    /// The text this error is reported with.
    pub fn message(&self) -> (m: String)
        ensures
            m@ == save_error_message(*self),
    {
        match self {
            ConfigSaveError::TomlError(cause) => prefixed("Failed to serialize config: ", cause.as_str()),
            ConfigSaveError::IoError(cause) => prefixed("IO error: ", cause.as_str()),
        }
    }
}

/// `cfg` with its charge limit clamped into range.
pub open spec fn clamped(cfg: Config) -> Config {
    Config { charge_limit: clamp_spec(cfg.charge_limit, MIN_CHARGE_LIMIT, MAX_CHARGE_LIMIT), ..cfg }
}

/// A loaded configuration always holds a charge limit the hardware accepts; a
/// limit that was in range already is kept as written, and loading twice
/// changes nothing more.
pub proof fn loaded_limit_is_in_range(cfg: Config)
    ensures
        charge_limit_in_range(clamped(cfg).charge_limit),
        charge_limit_in_range(cfg.charge_limit) ==> clamped(cfg) == cfg,
        clamped(clamped(cfg)) == clamped(cfg),
{
}

/// Finishes loading a configuration: `parsed` is what reading and parsing the
/// file gave. A parsed configuration has its charge limit clamped into range;
/// an error is passed on unchanged.
pub fn load_config(parsed: Result<Config, ConfigLoadError>) -> (r: Result<Config, ConfigLoadError>)
    ensures
        r == (match parsed {
            Ok(cfg) => Ok(clamped(cfg)),
            Err(err) => Err(err),
        }),
{
    match parsed {
        Ok(cfg) => {
            let mut cfg = cfg;
            cfg.clamp_charge_limit();
            Ok(cfg)
        },
        Err(err) => Err(err),
    }
}

/// The configuration the daemon starts with, and the error it reports until
/// the configuration is next read or written. A missing file is no error: the
/// defaults are used and nothing is reported. An unreadable or malformed file
/// also falls back to the defaults, and its cause is reported.
pub fn load_initial_config(loaded: Result<Config, ConfigLoadError>) -> (r: (Config, Option<String>))
    ensures
        r.0 == (match loaded {
            Ok(cfg) => cfg,
            Err(_) => default_config(),
        }),
        match loaded {
            Ok(_) => r.1 is None,
            Err(ConfigLoadError::NotFound) => r.1 is None,
            Err(ConfigLoadError::Invalid(cause)) => r.1 matches Some(m) && m@ == cause@,
            Err(ConfigLoadError::IoError(cause)) => r.1 matches Some(m) && m@ == cause@,
        },
{
    match loaded {
        Ok(cfg) => (cfg, None),
        Err(err) => {
            let reported = match err {
                ConfigLoadError::NotFound => None,
                ConfigLoadError::Invalid(cause) => Some(cause),
                ConfigLoadError::IoError(cause) => Some(cause),
            };
            (Config::default(), reported)
        },
    }
}

} // verus!
