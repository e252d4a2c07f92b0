use std::collections::BTreeMap;

use zenbookd::adapter::{Adapter, AdapterError, AdapterReadError};
use zenbookd::battery::{Battery, BatteryError, BatteryReadError, ThresholdSetError};
use zenbookd::supply::PowerSupplyEntry;
use zenbookd::text::ParseIntError;

/// A power-supply directory as the daemon would find it on disk.
#[derive(Default)]
struct Sysfs {
    entries: Vec<PowerSupplyEntry>,
    files: BTreeMap<String, String>,
}

const ROOT: &str = "/tmp/power_supply";

impl Sysfs {
    fn supply(&mut self, name: &str, attrs: &[(&str, &str)]) {
        for (key, value) in attrs {
            self.files.insert(format!("{ROOT}/{name}/{key}"), value.to_string());
        }
        let ty = self.files.get(&format!("{ROOT}/{name}/type")).cloned();
        let threshold = self.files.contains_key(&format!("{ROOT}/{name}/charge_control_end_threshold"));
        self.entries.push(PowerSupplyEntry {
            raw_name: name.as_bytes().to_vec(),
            name: Some(name.to_string()),
            is_dir: true,
            supply_type: ty,
            has_threshold: threshold,
        });
    }

    fn read(&self, path: &str) -> Result<String, String> {
        self.files.get(path).cloned().ok_or_else(|| "No such file or directory (os error 2)".to_string())
    }

    fn read_bytes(&self, path: &[u8]) -> Result<String, String> {
        self.read(&String::from_utf8_lossy(path))
    }

    fn listing(&self) -> Result<Vec<PowerSupplyEntry>, String> {
        Ok(self.entries.clone())
    }
}

#[test]
fn finds_the_mains_supply() {
    let mut fs = Sysfs::default();

    fs.supply("BAT0", &[("type", "Battery\n")]);
    fs.supply("ADP1", &[("type", "Mains\n"), ("online", "1\n")]);

    let adapter = Adapter::find(ROOT, fs.listing()).unwrap();

    assert!(adapter.online(fs.read_bytes(adapter.online_path())).unwrap());
}

#[test]
fn skips_entries_without_a_type_attribute() {
    let mut fs = Sysfs::default();

    fs.supply("aaa_no_type", &[]);
    fs.supply("zzz_mains", &[("type", "Mains\n"), ("online", "0\n")]);

    let adapter = Adapter::find(ROOT, fs.listing()).unwrap();

    assert!(!adapter.online(fs.read_bytes(adapter.online_path())).unwrap());
}

#[test]
fn reports_not_found_without_a_mains_supply() {
    let mut fs = Sysfs::default();

    fs.supply("BAT0", &[("type", "Battery\n")]);

    assert!(matches!(Adapter::find(ROOT, fs.listing()), Err(AdapterError::NotFound)));
}

#[test]
fn a_mains_supply_whose_name_is_not_utf8_is_found() {
    let entry = PowerSupplyEntry {
        raw_name: vec![b'A', 0xff, b'C'],
        name: None,
        is_dir: true,
        supply_type: Some("Mains\n".to_string()),
        has_threshold: false,
    };

    let adapter = Adapter::find(ROOT, Ok(vec![entry])).unwrap();

    assert_eq!(adapter.online_path(), b"/tmp/power_supply/A\xffC/online");
}

#[test]
fn names_are_ordered_by_their_bytes() {
    let mains = |raw: Vec<u8>| PowerSupplyEntry {
        raw_name: raw,
        name: None,
        is_dir: true,
        supply_type: Some("Mains".to_string()),
        has_threshold: false,
    };

    let adapter = Adapter::find(ROOT, Ok(vec![mains(vec![0xff]), mains(vec![b'z'])])).unwrap();

    assert_eq!(adapter.online_path(), b"/tmp/power_supply/z/online");
}

#[test]
fn an_unreadable_listing_is_an_io_error() {
    assert_eq!(
        Adapter::find(ROOT, Err("denied".to_string())).unwrap_err(),
        AdapterError::IoError("denied".to_string())
    );
    assert!(matches!(Battery::find(ROOT, Err("denied".to_string())), Err(BatteryError::IoError(_))));
}

#[test]
fn the_first_mains_supply_in_name_order_is_chosen() {
    let mut fs = Sysfs::default();
    fs.supply("ADP2", &[("type", "Mains\n"), ("online", "0\n")]);
    fs.supply("ADP1", &[("type", " Mains \n"), ("online", "1\n")]);
    let adapter = Adapter::find(ROOT, fs.listing()).unwrap();
    assert_eq!(adapter.online_path(), b"/tmp/power_supply/ADP1/online");
}

#[test]
fn online_is_exactly_the_number_one() {
    let mut fs = Sysfs::default();
    fs.supply("ADP1", &[("type", "Mains\n")]);
    let adapter = Adapter::find(ROOT, fs.listing()).unwrap();
    assert_eq!(adapter.online(Ok("2\n".to_string())), Ok(false));
    assert_eq!(adapter.online(Ok("+1".to_string())), Ok(true));
    assert_eq!(
        adapter.online(Ok("yes".to_string())),
        Err(AdapterReadError::ParseError(ParseIntError::InvalidDigit))
    );
    assert_eq!(adapter.online(Err("gone".to_string())), Err(AdapterReadError::IoError("gone".to_string())));
}

#[test]
fn finds_a_battery_among_other_supplies() {
    let mut fs = Sysfs::default();

    fs.supply("ADP1", &[("type", "Mains\n")]);
    fs.supply("BAT0", &[("capacity", "72\n")]);

    let battery = Battery::find(ROOT, fs.listing()).unwrap();

    assert_eq!(battery.capacity(fs.read(battery.capacity_path())).unwrap(), 72);
}

#[test]
fn picks_the_lowest_numbered_battery() {
    let mut fs = Sysfs::default();

    fs.supply("BAT1", &[("capacity", "10\n")]);
    fs.supply("BAT0", &[("capacity", "72\n")]);

    let battery = Battery::find(ROOT, fs.listing()).unwrap();

    assert_eq!(battery.capacity(fs.read(battery.capacity_path())).unwrap(), 72);
}

#[test]
fn prefers_the_battery_exposing_the_threshold() {
    let mut fs = Sysfs::default();

    fs.supply("BAT0", &[("capacity", "10\n")]);
    fs.supply("BAT1", &[("capacity", "72\n"), ("charge_control_end_threshold", "80\n")]);

    let battery = Battery::find(ROOT, fs.listing()).unwrap();

    assert_eq!(battery.capacity(fs.read(battery.capacity_path())).unwrap(), 72);
}

#[test]
fn falls_back_to_a_battery_without_the_threshold() {
    let mut fs = Sysfs::default();

    fs.supply("BAT0", &[("capacity", "72\n")]);

    let battery = Battery::find(ROOT, fs.listing()).unwrap();

    assert_eq!(battery.capacity(fs.read(battery.capacity_path())).unwrap(), 72);
}

#[test]
fn a_zero_design_capacity_is_an_error_rather_than_full_health() {
    let mut fs = Sysfs::default();

    fs.supply("BAT0", &[("energy_full", "45000000\n"), ("energy_full_design", "0\n")]);

    let battery = Battery::find(ROOT, fs.listing()).unwrap();

    assert!(matches!(
        battery.health(fs.read(battery.capacity_design_path()), fs.read(battery.capacity_physical_path())),
        Err(BatteryReadError::ZeroDesignCapacity)
    ));
}

#[test]
fn reports_not_found_without_a_battery() {
    let mut fs = Sysfs::default();

    fs.supply("ADP1", &[("type", "Mains\n")]);

    assert!(matches!(Battery::find(ROOT, fs.listing()), Err(BatteryError::NotFound)));
}

#[test]
fn computes_health_as_a_percentage_of_design_capacity() {
    let mut fs = Sysfs::default();

    fs.supply("BAT0", &[("energy_full", "45000000\n"), ("energy_full_design", "50000000\n")]);

    let battery = Battery::find(ROOT, fs.listing()).unwrap();

    let reading = battery
        .health(fs.read(battery.capacity_design_path()), fs.read(battery.capacity_physical_path()))
        .unwrap();
    assert_eq!(reading.full, 45_000_000);
    assert_eq!(reading.design, 50_000_000);

    // Exactly 90 per cent of the design capacity.
    assert_eq!(u64::from(reading.full) * 100, 90 * u64::from(reading.design));
}

#[test]
fn writes_a_valid_threshold() {
    let mut fs = Sysfs::default();

    fs.supply("BAT0", &[("charge_control_end_threshold", "80\n")]);

    let battery = Battery::find(ROOT, fs.listing()).unwrap();

    let write = battery.set_threshold(75).unwrap();
    fs.files.insert(write.path.clone(), write.contents.clone());

    assert_eq!(battery.threshold(fs.read(battery.threshold_path())).unwrap(), 75);
}

#[test]
fn refuses_a_threshold_the_kernel_would_reject() {
    let mut fs = Sysfs::default();

    fs.supply("BAT0", &[("charge_control_end_threshold", "80\n")]);

    let battery = Battery::find(ROOT, fs.listing()).unwrap();

    assert!(matches!(battery.set_threshold(0), Err(ThresholdSetError::InvalidValue(0))));
    assert!(matches!(battery.set_threshold(101), Err(ThresholdSetError::InvalidValue(101))));

    assert_eq!(battery.threshold(fs.read(battery.threshold_path())).unwrap(), 80);
}

#[test]
fn entries_that_are_not_battery_directories_are_skipped() {
    let mut fs = Sysfs::default();
    fs.supply("BAT0", &[("capacity", "72\n")]);
    fs.entries[0].is_dir = false;
    fs.supply("BAT9", &[("capacity", "5\n")]);
    fs.entries.push(PowerSupplyEntry { raw_name: vec![0xff], name: None, is_dir: true, supply_type: None, has_threshold: true });
    let battery = Battery::find(ROOT, fs.listing()).unwrap();
    assert_eq!(battery.capacity_path(), "/tmp/power_supply/BAT9/capacity");
    assert_eq!(battery.threshold_path(), "/tmp/power_supply/BAT9/charge_control_end_threshold");
    assert_eq!(battery.capacity_design_path(), "/tmp/power_supply/BAT9/energy_full_design");
    assert_eq!(battery.capacity_physical_path(), "/tmp/power_supply/BAT9/energy_full");
}

#[test]
fn unreadable_attributes_are_errors() {
    let mut fs = Sysfs::default();
    fs.supply("BAT0", &[("capacity", "lots\n")]);
    let battery = Battery::find(ROOT, fs.listing()).unwrap();
    assert_eq!(
        battery.capacity(fs.read(battery.capacity_path())),
        Err(BatteryReadError::ParseError(ParseIntError::InvalidDigit))
    );
    assert_eq!(
        battery.capacity(Ok("99999999999".to_string())),
        Err(BatteryReadError::ParseError(ParseIntError::PosOverflow))
    );
    assert_eq!(battery.capacity(Ok("  \n".to_string())), Err(BatteryReadError::ParseError(ParseIntError::Empty)));
    assert!(matches!(battery.threshold(fs.read(battery.threshold_path())), Err(BatteryReadError::IoError(_))));
}

#[test]
fn errors_read_as_the_daemon_reports_them() {
    assert_eq!(
        BatteryReadError::ParseError(ParseIntError::InvalidDigit).message(),
        "Number parse error: invalid digit found in string"
    );
    assert_eq!(BatteryReadError::IoError("gone".to_string()).message(), "IO error: gone");
    assert_eq!(
        ThresholdSetError::InvalidValue(101).message(),
        "Invalid threshold '101' value must be between 0-100'"
    );
}

#[test]
fn a_written_threshold_reads_back_with_the_kernel_newline() {
    let mut fs = Sysfs::default();
    fs.supply("BAT0", &[("charge_control_end_threshold", "80\n")]);
    let battery = Battery::find(ROOT, fs.listing()).unwrap();

    for threshold in [1, 60, 100] {
        let write = battery.set_threshold(threshold).unwrap();
        fs.files.insert(write.path.clone(), format!("{}\n", write.contents));

        assert_eq!(battery.threshold(fs.read(battery.threshold_path())), Ok(threshold));
    }
}
