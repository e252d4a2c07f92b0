//! The AC adapter: finding it and reading whether it is plugged in.

use vstd::prelude::*;
use vstd::string::StringSliceAdditionalSpecFns;

use crate::path::{first_in_order, first_in_sorted_order, join_bytes, joined_bytes};
use crate::supply::{entry_name, entry_names, PowerSupplyEntry};
use crate::config::prefixed;
use crate::text::{parse_attribute, parse_error_message, parse_u32_spec, trim, trimmed, ParseIntError};

verus! {

/// Why no AC adapter could be used.
#[derive(Debug, Clone, PartialEq, Eq)]
pub enum AdapterError {
    /// No power supply of type `Mains` is listed.
    NotFound,
    /// An entry's name could not be read.
    NameParseError,
    /// The listing could not be read; the system's explanation.
    IoError(String),
}

/// Why the adapter's state could not be read.
#[derive(Debug, Clone, PartialEq, Eq)]
pub enum AdapterReadError {
    /// The attribute does not hold a number.
    ParseError(ParseIntError),
    /// The attribute could not be read; the system's explanation.
    IoError(String),
}

impl AdapterError {
    /// The text this error is reported with.
    pub fn message(&self) -> (m: String)
        ensures
            m@ == match *self {
                AdapterError::NotFound => "AC adapter not found"@,
                AdapterError::NameParseError => "Failed to parse name of file/folder"@,
                AdapterError::IoError(cause) => "IO error: "@ + cause@,
            },
    {
        match self {
            AdapterError::NotFound => String::from_str("AC adapter not found"),
            AdapterError::NameParseError => String::from_str("Failed to parse name of file/folder"),
            AdapterError::IoError(cause) => prefixed("IO error: ", cause.as_str()),
        }
    }
}

impl AdapterReadError {
    /// The text this error is reported with.
    pub fn message(&self) -> (m: String)
        ensures
            m@ == match *self {
                AdapterReadError::ParseError(e) => "Number parse error: "@ + parse_error_message(e),
                AdapterReadError::IoError(cause) => "IO error: "@ + cause@,
            },
    {
        match self {
            AdapterReadError::ParseError(e) => {
                let cause = e.message();
                prefixed("Number parse error: ", cause.as_str())
            },
            AdapterReadError::IoError(cause) => prefixed("IO error: ", cause.as_str()),
        }
    }
}

/// The AC adapter, known by the path of its `online` attribute, as bytes.
#[derive(Debug, Clone)]
pub struct Adapter {
    online: Vec<u8>,
}

/// Whether a listing entry is a mains supply: a directory whose `type`
/// attribute reads `Mains`, surrounding white space aside.
pub open spec fn is_mains(e: PowerSupplyEntry) -> bool {
    e.is_dir && (e.supply_type matches Some(t) && trimmed(t@) == "Mains"@)
}

/// Whether no entry of a listing is a mains supply.
pub open spec fn no_mains(entries: Seq<PowerSupplyEntry>) -> bool {
    forall|i: int| 0 <= i < entries.len() ==> !is_mains(#[trigger] entries[i])
}

/// Whether a listed `0` or `1` in the `online` attribute means plugged in.
pub open spec fn online_reading(read: Result<String, String>) -> Result<bool, AdapterReadError> {
    match read {
        Err(cause) => Err(AdapterReadError::IoError(cause)),
        Ok(contents) => match parse_u32_spec(trimmed(contents@)) {
            Ok(v) => Ok(v == 1),
            Err(e) => Err(AdapterReadError::ParseError(e)),
        },
    }
}

impl Adapter {
    /// The path of the `online` attribute, as bytes.
    pub closed spec fn spec_online_path(&self) -> Seq<u8> {
        self.online@
    }

    /// Finds the AC adapter in the listing of directory `root`: the first
    /// mains supply in name order, whatever its name. `listing` is what reading
    /// the directory gave.
    pub fn find(root: &str, listing: Result<Vec<PowerSupplyEntry>, String>) -> (r: Result<Adapter, AdapterError>)
        ensures
            match listing {
                Err(cause) => r == Err::<Adapter, AdapterError>(AdapterError::IoError(cause)),
                Ok(entries) => match r {
                    Ok(adapter) => exists|i: int|
                        first_in_order(
                            entries@.map_values(|e: PowerSupplyEntry| entry_name(e)),
                            entries@.map_values(|e: PowerSupplyEntry| is_mains(e)),
                            i,
                        ) && adapter.spec_online_path() == joined_bytes(
                            joined_bytes(root.spec_bytes(), entries@[i].raw_name@),
                            "online".spec_bytes(),
                        ),
                    Err(err) => err == AdapterError::NotFound && no_mains(entries@),
                },
            },
    {
        let entries = match listing {
            Err(cause) => return Err(AdapterError::IoError(cause)),
            Ok(entries) => entries,
        };
        let names = entry_names(&entries);
        let mains = String::from_str("Mains");
        let mut ok: Vec<bool> = Vec::new();
        let mut i: usize = 0;
        while i < entries.len()
            invariant
                i <= entries.len(),
                ok.len() == i,
                mains@ == "Mains"@,
                forall|k: int| 0 <= k < i ==> (#[trigger] ok@[k]) == is_mains(entries@[k]),
            decreases entries.len() - i,
        {
            let e = &entries[i];
            let qualifies = e.is_dir && match &e.supply_type {
                Some(t) => trim(t.as_str()) == mains,
                None => false,
            };
            ok.push(qualifies);
            i = i + 1;
        }
        let ghost name_views = names@.map_values(|n: Vec<char>| n@);
        assert(name_views == entries@.map_values(|e: PowerSupplyEntry| entry_name(e)));
        assert(ok@ == entries@.map_values(|e: PowerSupplyEntry| is_mains(e)));
        match first_in_sorted_order(&names, &ok) {
            Some(i) => {
                assert(ok@[i as int]);
                assert(is_mains(entries@[i as int]));
                let dir = join_bytes(root.as_bytes(), entries[i].raw_name.as_slice());
                Ok(Adapter { online: join_bytes(dir.as_slice(), "online".as_bytes()) })
            },
            None => {
                assert forall|k: int| 0 <= k < entries.len() implies !is_mains(#[trigger] entries@[k]) by {
                    assert(!ok@[k]);
                }
                Err(AdapterError::NotFound)
            },
        }
    }

    /// The path of the `online` attribute, as bytes, to read.
    pub fn online_path(&self) -> (p: &[u8])
        ensures
            p@ == self.spec_online_path(),
    {
        self.online.as_slice()
    }

    /// Whether the adapter is plugged in, given what reading the `online`
    /// attribute gave: plugged in exactly when it holds the number 1.
    pub fn online(&self, read: Result<String, String>) -> (r: Result<bool, AdapterReadError>)
        ensures
            r == online_reading(read),
    {
        match read {
            Err(cause) => Err(AdapterReadError::IoError(cause)),
            Ok(contents) => match parse_attribute(contents.as_str()) {
                Ok(v) => Ok(v == 1),
                Err(e) => Err(AdapterReadError::ParseError(e)),
            },
        }
    }
}

} // verus!
