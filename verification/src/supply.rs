//! What a listing of `/sys/class/power_supply` shows the daemon.

use vstd::prelude::*;

verus! {

/// One entry of a power-supply listing.
#[derive(Debug, Clone)]
pub struct PowerSupplyEntry {
    /// The entry's file name, byte for byte.
    pub raw_name: Vec<u8>,
    /// The same name as text, when it is valid UTF-8.
    pub name: Option<String>,
    /// Whether the entry is a directory.
    pub is_dir: bool,
    /// What the entry's `type` attribute holds, when it could be read.
    pub supply_type: Option<String>,
    /// Whether the entry has a `charge_control_end_threshold` attribute.
    pub has_threshold: bool,
}

/// The entry's name with one character standing for each byte, so that
/// ordering names compares their bytes.
pub open spec fn entry_name(e: PowerSupplyEntry) -> Seq<char> {
    e.raw_name@.map_values(|b: u8| b as char)
}

/// The entry's name as text, empty when it is not valid UTF-8.
pub open spec fn entry_text(e: PowerSupplyEntry) -> Seq<char> {
    match e.name {
        Some(n) => n@,
        None => Seq::empty(),
    }
}

/// The names of the entries, one character for each byte, in listing order.
pub fn entry_names(entries: &Vec<PowerSupplyEntry>) -> (names: Vec<Vec<char>>)
    ensures
        names.len() == entries.len(),
        forall|i: int| 0 <= i < entries.len() ==> (#[trigger] names@[i])@ == entry_name(entries@[i]),
{
    let mut names: Vec<Vec<char>> = Vec::new();
    let mut i: usize = 0;
    while i < entries.len()
        invariant
            i <= entries.len(),
            names.len() == i,
            forall|k: int| 0 <= k < i ==> (#[trigger] names@[k])@ == entry_name(entries@[k]),
        decreases entries.len() - i,
    {
        let raw = &entries[i].raw_name;
        let mut name: Vec<char> = Vec::new();
        let mut j: usize = 0;
        while j < raw.len()
            invariant
                j <= raw.len(),
                name@ == raw@.take(j as int).map_values(|b: u8| b as char),
            decreases raw.len() - j,
        {
            name.push(raw[j] as char);
            assert(raw@.take(j + 1) == raw@.take(j as int).push(raw@[j as int]));
            j = j + 1;
        }
        assert(raw@.take(raw.len() as int) == raw@);
        names.push(name);
        i = i + 1;
    }
    names
}

} // verus!
