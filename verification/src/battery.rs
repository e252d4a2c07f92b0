//! The battery: finding it, reading it and setting its charge threshold.

use vstd::prelude::*;

use crate::path::{first_in_order, first_in_sorted_order, join, joined};
use crate::supply::{entry_name, entry_names, entry_text, PowerSupplyEntry};
use crate::text::{
    decimal, decimal_string, has_prefix, parse_attribute, parse_error_message, parse_u32_spec,
    starts_with, trimmed, ParseIntError,
};

verus! {

/// Why no battery could be used.
#[derive(Debug, Clone, PartialEq, Eq)]
pub enum BatteryError {
    /// No power supply named `BAT…` is listed.
    NotFound,
    /// An entry's name could not be read.
    NameParseError,
    /// The listing could not be read; the system's explanation.
    IoError(String),
}

impl BatteryError {
    /// The text this error is reported with.
    pub fn message(&self) -> (m: String)
        ensures
            m@ == match *self {
                BatteryError::NotFound => "Battery not found"@,
                BatteryError::NameParseError => "Failed to parse name of file/folder"@,
                BatteryError::IoError(cause) => "IO error: "@ + cause@,
            },
    {
        match self {
            BatteryError::NotFound => String::from_str("Battery not found"),
            BatteryError::NameParseError => String::from_str("Failed to parse name of file/folder"),
            BatteryError::IoError(cause) => crate::config::prefixed("IO error: ", cause.as_str()),
        }
    }
}

/// Why a battery attribute could not be read.
#[derive(Debug, Clone, PartialEq, Eq)]
pub enum BatteryReadError {
    /// The attribute does not hold a number.
    ParseError(ParseIntError),
    /// The attribute could not be read; the system's explanation.
    IoError(String),
    /// The battery reports a design capacity of zero, so no health follows.
    ZeroDesignCapacity,
}

/// Why the charge threshold was not set.
#[derive(Debug, Clone, PartialEq, Eq)]
pub enum ThresholdSetError {
    /// The kernel would refuse this threshold.
    InvalidValue(u32),
    /// The attribute could not be written; the system's explanation.
    IoError(String),
}

/// The text a read error is reported with.
pub open spec fn read_error_message(err: BatteryReadError) -> Seq<char> {
    match err {
        BatteryReadError::ParseError(e) => "Number parse error: "@ + parse_error_message(e),
        BatteryReadError::IoError(cause) => "IO error: "@ + cause@,
        BatteryReadError::ZeroDesignCapacity => "Battery reports a design capacity of zero"@,
    }
}

/// The text a threshold error is reported with.
pub open spec fn threshold_error_message(err: ThresholdSetError) -> Seq<char> {
    match err {
        ThresholdSetError::InvalidValue(v) => "Invalid threshold '"@ + decimal(v as nat)
            + "' value must be between 0-100'"@,
        ThresholdSetError::IoError(cause) => "IO error: "@ + cause@,
    }
}

impl BatteryReadError {
    /// The text this error is reported with.
    pub fn message(&self) -> (m: String)
        ensures
            m@ == read_error_message(*self),
    {
        match self {
            BatteryReadError::ParseError(e) => {
                let mut m = String::from_str("Number parse error: ");
                let cause = e.message();
                m.append(cause.as_str());
                m
            },
            BatteryReadError::IoError(cause) => {
                let mut m = String::from_str("IO error: ");
                m.append(cause.as_str());
                m
            },
            BatteryReadError::ZeroDesignCapacity => String::from_str("Battery reports a design capacity of zero"),
        }
    }
}

impl ThresholdSetError {
    /// The text this error is reported with.
    pub fn message(&self) -> (m: String)
        ensures
            m@ == threshold_error_message(*self),
    {
        match self {
            ThresholdSetError::InvalidValue(v) => {
                let mut m = String::from_str("Invalid threshold '");
                let number = decimal_string(*v as u64);
                m.append(number.as_str());
                m.append("' value must be between 0-100'");
                m
            },
            ThresholdSetError::IoError(cause) => {
                let mut m = String::from_str("IO error: ");
                m.append(cause.as_str());
                m
            },
        }
    }
}

/// A write the caller is to make to a sysfs attribute.
#[derive(Debug, Clone, PartialEq, Eq)]
pub struct SysfsWrite {
    /// The attribute's path.
    pub path: String,
    /// What to write into it.
    pub contents: String,
}

/// The battery's full energy against its design energy, both as read.
#[derive(Debug, Clone, Copy, PartialEq, Eq, Structural)]
pub struct EnergyReading {
    /// `energy_full`: what the battery holds when full today.
    pub full: u32,
    /// `energy_full_design`: what it held when new; never zero.
    pub design: u32,
}

/// The battery, known by the paths of the attributes the daemon uses.
#[derive(Debug, Clone)]
pub struct Battery {
    capacity_physical: String,
    capacity_design: String,
    capacity: String,
    threshold: String,
}

/// Whether a listing entry is a battery: a directory named `BAT…`.
pub open spec fn is_battery(e: PowerSupplyEntry) -> bool {
    e.is_dir && (e.name matches Some(n) && has_prefix(n@, "BAT"@))
}

/// Whether no entry of a listing is a battery.
pub open spec fn no_battery(entries: Seq<PowerSupplyEntry>) -> bool {
    forall|i: int| 0 <= i < entries.len() ==> !is_battery(#[trigger] entries[i])
}

/// Whether a listing entry is a battery that exposes a charge threshold.
pub open spec fn is_battery_with_threshold(e: PowerSupplyEntry) -> bool {
    is_battery(e) && e.has_threshold
}

/// A number read from an attribute, given what reading it gave.
pub open spec fn attribute_reading(read: Result<String, String>) -> Result<u32, BatteryReadError> {
    match read {
        Err(cause) => Err(BatteryReadError::IoError(cause)),
        Ok(contents) => match parse_u32_spec(trimmed(contents@)) {
            Ok(v) => Ok(v),
            Err(e) => Err(BatteryReadError::ParseError(e)),
        },
    }
}

/// Whether the kernel takes `threshold` as an end threshold.
pub open spec fn threshold_accepted(threshold: u32) -> bool {
    1 <= threshold <= 100
}

fn read_attribute(read: Result<String, String>) -> (r: Result<u32, BatteryReadError>)
    ensures
        r == attribute_reading(read),
{
    match read {
        Err(cause) => Err(BatteryReadError::IoError(cause)),
        Ok(contents) => match parse_attribute(contents.as_str()) {
            Ok(v) => Ok(v),
            Err(e) => Err(BatteryReadError::ParseError(e)),
        },
    }
}

impl Battery {
    /// The path of `energy_full`.
    pub closed spec fn spec_capacity_physical(&self) -> Seq<char> {
        self.capacity_physical@
    }

    /// The path of `energy_full_design`.
    pub closed spec fn spec_capacity_design(&self) -> Seq<char> {
        self.capacity_design@
    }

    /// The path of `capacity`.
    pub closed spec fn spec_capacity(&self) -> Seq<char> {
        self.capacity@
    }

    /// The path of `charge_control_end_threshold`.
    pub closed spec fn spec_threshold(&self) -> Seq<char> {
        self.threshold@
    }

    /// Whether the battery's attributes lie in directory `dir`.
    pub open spec fn located_in(&self, dir: Seq<char>) -> bool {
        &&& self.spec_capacity_physical() == joined(dir, "energy_full"@)
        &&& self.spec_capacity_design() == joined(dir, "energy_full_design"@)
        &&& self.spec_capacity() == joined(dir, "capacity"@)
        &&& self.spec_threshold() == joined(dir, "charge_control_end_threshold"@)
    }

    fn in_directory(dir: &str) -> (b: Battery)
        ensures
            b.located_in(dir@),
    {
        Battery {
            capacity_physical: join(dir, "energy_full"),
            capacity_design: join(dir, "energy_full_design"),
            capacity: join(dir, "capacity"),
            threshold: join(dir, "charge_control_end_threshold"),
        }
    }

    /// Finds the battery in the listing of directory `root`: the first battery
    /// in name order that exposes a charge threshold, or else the first battery
    /// in name order. `listing` is what reading the directory gave.
    pub fn find(root: &str, listing: Result<Vec<PowerSupplyEntry>, String>) -> (r: Result<Battery, BatteryError>)
        ensures
            match listing {
                Err(cause) => r == Err::<Battery, BatteryError>(BatteryError::IoError(cause)),
                Ok(entries) => {
                    let names = entries@.map_values(|e: PowerSupplyEntry| entry_name(e));
                    let with_threshold = entries@.map_values(|e: PowerSupplyEntry| is_battery_with_threshold(e));
                    let any = entries@.map_values(|e: PowerSupplyEntry| is_battery(e));
                    match r {
                        Ok(battery) => exists|i: int| {
                            &&& (first_in_order(names, with_threshold, i) || (first_in_order(names, any, i)
                                && forall|j: int| 0 <= j < entries.len() ==> !with_threshold[j]))
                            &&& battery.located_in(joined(root@, entry_text(entries@[i])))
                        },
                        Err(err) => err == BatteryError::NotFound && no_battery(entries@),
                    }
                },
            },
    {
        let entries = match listing {
            Err(cause) => return Err(BatteryError::IoError(cause)),
            Ok(entries) => entries,
        };
        let names = entry_names(&entries);
        let mut any: Vec<bool> = Vec::new();
        let mut with_threshold: Vec<bool> = Vec::new();
        let mut i: usize = 0;
        while i < entries.len()
            invariant
                i <= entries.len(),
                any.len() == i,
                with_threshold.len() == i,
                forall|k: int| 0 <= k < i ==> (#[trigger] any@[k]) == is_battery(entries@[k]),
                forall|k: int| 0 <= k < i ==> (#[trigger] with_threshold@[k]) == is_battery_with_threshold(entries@[k]),
            decreases entries.len() - i,
        {
            let e = &entries[i];
            let battery = e.is_dir && match &e.name {
                Some(n) => starts_with(n.as_str(), "BAT"),
                None => false,
            };
            any.push(battery);
            with_threshold.push(battery && e.has_threshold);
            i = i + 1;
        }
        let ghost name_views = names@.map_values(|n: Vec<char>| n@);
        assert(name_views == entries@.map_values(|e: PowerSupplyEntry| entry_name(e)));
        assert(any@ == entries@.map_values(|e: PowerSupplyEntry| is_battery(e)));
        assert(with_threshold@ == entries@.map_values(|e: PowerSupplyEntry| is_battery_with_threshold(e)));
        let chosen = match first_in_sorted_order(&names, &with_threshold) {
            Some(i) => Some(i),
            None => first_in_sorted_order(&names, &any),
        };
        match chosen {
            Some(i) => {
                assert(any@[i as int] || with_threshold@[i as int]);
                assert(is_battery(entries@[i as int]));
                let name = match &entries[i].name {
                    Some(n) => n,
                    None => { return Err(BatteryError::NameParseError); },
                };
                let dir = join(root, name.as_str());
                Ok(Battery::in_directory(dir.as_str()))
            },
            None => {
                assert forall|k: int| 0 <= k < entries.len() implies !is_battery(#[trigger] entries@[k]) by {
                    assert(!any@[k]);
                }
                Err(BatteryError::NotFound)
            },
        }
    }

    /// The path of `energy_full`, to read.
    pub fn capacity_physical_path(&self) -> (p: &str)
        ensures
            p@ == self.spec_capacity_physical(),
    {
        self.capacity_physical.as_str()
    }

    /// The path of `energy_full_design`, to read.
    pub fn capacity_design_path(&self) -> (p: &str)
        ensures
            p@ == self.spec_capacity_design(),
    {
        self.capacity_design.as_str()
    }

    /// The path of `capacity`, to read.
    pub fn capacity_path(&self) -> (p: &str)
        ensures
            p@ == self.spec_capacity(),
    {
        self.capacity.as_str()
    }

    /// The path of `charge_control_end_threshold`, to read.
    pub fn threshold_path(&self) -> (p: &str)
        ensures
            p@ == self.spec_threshold(),
    {
        self.threshold.as_str()
    }

    /// The energies that the battery's health is the ratio of, given what
    /// reading `energy_full_design` and `energy_full` gave. The design energy
    /// is checked first; a design energy of zero is an error, not full health.
    pub fn health(&self, design: Result<String, String>, physical: Result<String, String>) -> (r: Result<EnergyReading, BatteryReadError>)
        ensures
            match attribute_reading(design) {
                Err(e) => r == Err::<EnergyReading, BatteryReadError>(e),
                Ok(d) => match attribute_reading(physical) {
                    Err(e) => r == Err::<EnergyReading, BatteryReadError>(e),
                    Ok(p) => if d == 0 {
                        r == Err::<EnergyReading, BatteryReadError>(BatteryReadError::ZeroDesignCapacity)
                    } else {
                        r == Ok::<EnergyReading, BatteryReadError>(EnergyReading { full: p, design: d })
                    },
                },
            },
    {
        let capacity_design = match read_attribute(design) {
            Ok(v) => v,
            Err(e) => return Err(e),
        };
        let capacity_physical = match read_attribute(physical) {
            Ok(v) => v,
            Err(e) => return Err(e),
        };
        if capacity_design == 0 {
            return Err(BatteryReadError::ZeroDesignCapacity);
        }
        Ok(EnergyReading { full: capacity_physical, design: capacity_design })
    }

    /// The charge in percent, given what reading `capacity` gave.
    pub fn capacity(&self, read: Result<String, String>) -> (r: Result<u32, BatteryReadError>)
        ensures
            r == attribute_reading(read),
    {
        read_attribute(read)
    }

    /// The end threshold in force, given what reading
    /// `charge_control_end_threshold` gave.
    pub fn threshold(&self, read: Result<String, String>) -> (r: Result<u32, BatteryReadError>)
        ensures
            r == attribute_reading(read),
    {
        read_attribute(read)
    }

    /// The write that sets the end threshold to `threshold`, or the refusal of
    /// a threshold the kernel would reject (zero, or above 100).
    pub fn set_threshold(&self, threshold: u32) -> (r: Result<SysfsWrite, ThresholdSetError>)
        ensures
            threshold_accepted(threshold) ==> (r matches Ok(w) && w.path@ == self.spec_threshold()
                && w.contents@ == decimal(threshold as nat)),
            !threshold_accepted(threshold) ==> r == Err::<SysfsWrite, ThresholdSetError>(
                ThresholdSetError::InvalidValue(threshold),
            ),
    {
        if threshold == 0 || threshold > 100 {
            return Err(ThresholdSetError::InvalidValue(threshold));
        }
        Ok(SysfsWrite { path: self.threshold.clone(), contents: decimal_string(threshold as u64) })
    }
}

/// A threshold the kernel accepts, once written, reads back as itself: the
/// attribute then holds the written digits, with or without the newline the
/// kernel adds, and reading it gives the threshold. A threshold the kernel
/// would refuse is not written at all (see [`Battery::set_threshold`]).
pub proof fn written_threshold_reads_back(threshold: u32, read_back: String)
    requires
        threshold_accepted(threshold),
        read_back@ == decimal(threshold as nat) || read_back@ == decimal(threshold as nat).push('\n'),
    ensures
        attribute_reading(Ok(read_back)) == Ok::<u32, BatteryReadError>(threshold),
{
    crate::text::decimal_reads_back(threshold);
}

} // verus!
