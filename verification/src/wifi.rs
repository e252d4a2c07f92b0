//! The wireless interface: finding it and driving its power saving through `iw`.

use vstd::prelude::*;

use crate::config::prefixed;
use crate::path::{first_in_order, first_in_sorted_order};
use crate::text::{chars_of, has_prefix, starts_with, string_of, trim, trim_chars, trimmed};

verus! {

/// Why no wireless interface could be used.
#[derive(Debug, Clone, PartialEq, Eq)]
pub enum WifiError {
    /// No wireless interface other than a P2P one is listed.
    NotFound,
    /// The listing could not be read; the system's explanation.
    IoError(String),
}

/// Why the power-save setting could not be read.
#[derive(Debug, Clone, PartialEq, Eq)]
pub enum WifiReadError {
    /// `iw` failed; what it wrote to standard error, trimmed.
    CommandFailed(String),
    /// `iw` succeeded but said something unrecognised; its output, trimmed.
    UnexpectedOutput(String),
    /// `iw` could not be run; the system's explanation.
    IoError(String),
}

/// Why the power-save setting could not be changed.
#[derive(Debug, Clone, PartialEq, Eq)]
pub enum WifiSetError {
    /// `iw` failed; what it wrote to standard error, trimmed.
    CommandFailed(String),
    /// `iw` could not be run; the system's explanation.
    IoError(String),
}

impl WifiError {
    /// The text this error is reported with.
    pub fn message(&self) -> (m: String)
        ensures
            m@ == match *self {
                WifiError::NotFound => "Wireless interface not found"@,
                WifiError::IoError(cause) => "IO error: "@ + cause@,
            },
    {
        match self {
            WifiError::NotFound => String::from_str("Wireless interface not found"),
            WifiError::IoError(cause) => prefixed("IO error: ", cause.as_str()),
        }
    }
}

impl WifiReadError {
    /// The text this error is reported with.
    pub fn message(&self) -> (m: String)
        ensures
            m@ == match *self {
                WifiReadError::CommandFailed(cause) => "Command failed: "@ + cause@,
                WifiReadError::UnexpectedOutput(output) => "Unexpected output: "@ + output@,
                WifiReadError::IoError(cause) => "IO error: "@ + cause@,
            },
    {
        match self {
            WifiReadError::CommandFailed(cause) => prefixed("Command failed: ", cause.as_str()),
            WifiReadError::UnexpectedOutput(output) => prefixed("Unexpected output: ", output.as_str()),
            WifiReadError::IoError(cause) => prefixed("IO error: ", cause.as_str()),
        }
    }
}

impl WifiSetError {
    /// The text this error is reported with.
    pub fn message(&self) -> (m: String)
        ensures
            m@ == match *self {
                WifiSetError::CommandFailed(cause) => "Command failed: "@ + cause@,
                WifiSetError::IoError(cause) => "IO error: "@ + cause@,
            },
    {
        match self {
            WifiSetError::CommandFailed(cause) => prefixed("Command failed: ", cause.as_str()),
            WifiSetError::IoError(cause) => prefixed("IO error: ", cause.as_str()),
        }
    }
}

/// What a finished run of `iw` left behind.
#[derive(Debug, Clone)]
pub struct IwOutput {
    /// Whether it exited successfully.
    pub success: bool,
    /// Its standard output, decoded as UTF-8 (invalid sequences replaced).
    pub stdout: String,
    /// Its standard error, decoded the same way.
    pub stderr: String,
}

/// One entry of a listing of `/sys/class/net`.
#[derive(Debug, Clone)]
pub struct NetEntry {
    /// The interface's name, when it is valid UTF-8.
    pub name: Option<String>,
    /// Whether the interface has a `phy80211` link, that is, is wireless.
    pub wireless: bool,
}

/// The wireless interface, known by name.
#[derive(Debug, Clone)]
pub struct Wifi {
    interface: String,
}

/// Whether `name` is a Wi-Fi Direct (P2P) interface, which cannot be put into
/// power saving itself.
pub open spec fn p2p_interface(name: Seq<char>) -> bool {
    has_prefix(name, "p2p-"@)
}

/// Decides [`p2p_interface`].
pub fn is_p2p_interface(name: &str) -> (b: bool)
    ensures
        b == p2p_interface(name@),
{
    starts_with(name, "p2p-")
}

/// The entry's name as characters, empty when it has none.
pub open spec fn net_name(e: NetEntry) -> Seq<char> {
    match e.name {
        Some(n) => n@,
        None => Seq::empty(),
    }
}

/// Whether a listing entry is a usable wireless interface.
pub open spec fn is_usable_wireless(e: NetEntry) -> bool {
    e.wireless && (e.name matches Some(n) && !p2p_interface(n@))
}

/// Whether no entry of a listing is a usable wireless interface.
pub open spec fn no_usable_wireless(entries: Seq<NetEntry>) -> bool {
    forall|i: int| 0 <= i < entries.len() ==> !is_usable_wireless(#[trigger] entries[i])
}

/// Whether `i` is the first position of `c` in `s`.
pub open spec fn first_position(s: Seq<char>, c: char, i: int) -> bool {
    &&& 0 <= i < s.len()
    &&& s[i] == c
    &&& forall|k: int| 0 <= k < i ==> s[k] != c
}

/// The text up to the first `:` in `s`, or all of `s` when it has none.
pub open spec fn up_to_colon(s: Seq<char>) -> Seq<char> {
    if exists|i: int| first_position(s, ':', i) {
        s.subrange(0, choose|i: int| first_position(s, ':', i))
    } else {
        s
    }
}

/// The second `:`-separated field of `s`, if it has one.
pub open spec fn second_field(s: Seq<char>) -> Option<Seq<char>> {
    if exists|i: int| first_position(s, ':', i) {
        let i = choose|i: int| first_position(s, ':', i);
        Some(up_to_colon(s.subrange(i + 1, s.len() as int)))
    } else {
        None
    }
}

/// What `iw dev <interface> get power_save` reports: `on` or `off` as the
/// value after the colon, surrounding white space aside.
pub open spec fn power_save_value(stdout: Seq<char>) -> Option<bool> {
    match second_field(stdout) {
        None => None,
        Some(field) => if trimmed(field) == "on"@ {
            Some(true)
        } else if trimmed(field) == "off"@ {
            Some(false)
        } else {
            None
        },
    }
}

fn find_char(s: &Vec<char>, from: usize, c: char) -> (r: Option<usize>)
    requires
        from <= s.len(),
    ensures
        match r {
            Some(i) => from <= i && first_position(s@.subrange(from as int, s.len() as int), c, i - from),
            None => forall|k: int| from <= k < s.len() ==> s@[k] != c,
        },
{
    let mut i = from;
    while i < s.len()
        invariant
            from <= i <= s.len(),
            forall|k: int| from <= k < i ==> s@[k] != c,
        decreases s.len() - i,
    {
        if s[i] == c {
            return Some(i);
        }
        i = i + 1;
    }
    None
}

fn sub_chars(s: &Vec<char>, from: usize, to: usize) -> (t: Vec<char>)
    requires
        from <= to <= s.len(),
    ensures
        t@ == s@.subrange(from as int, to as int),
{
    let mut t: Vec<char> = Vec::new();
    let mut k = from;
    while k < to
        invariant
            from <= k <= to <= s.len(),
            t@ == s@.subrange(from as int, k as int),
        decreases to - k,
    {
        t.push(s[k]);
        k = k + 1;
    }
    t
}

/// Reads the power-save setting out of what `iw` printed.
pub fn parse_power_save(stdout: &str) -> (r: Option<bool>)
    ensures
        r == power_save_value(stdout@),
{
    let s = chars_of(stdout);
    let first = match find_char(&s, 0, ':') {
        None => {
            assert(!exists|i: int| #[trigger] first_position(s@, ':', i));
            return None;
        },
        Some(i) => i,
    };
    assert(s@.subrange(0, s.len() as int) == s@);
    assert(second_field(s@) == Some(up_to_colon(s@.subrange(first + 1, s.len() as int))));
    let field_end = match find_char(&s, first + 1, ':') {
        None => {
            assert(!exists|i: int| #[trigger] first_position(s@.subrange(first + 1, s.len() as int), ':', i));
            s.len()
        },
        Some(j) => j,
    };
    let field = sub_chars(&s, first + 1, field_end);
    assert(field@ == up_to_colon(s@.subrange(first + 1, s.len() as int)));
    let value = trim_chars(&field);
    let value = string_of(&value);
    if value == String::from_str("on") {
        Some(true)
    } else if value == String::from_str("off") {
        Some(false)
    } else {
        None
    }
}

impl Wifi {
    /// The interface's name.
    pub closed spec fn spec_interface(&self) -> Seq<char> {
        self.interface@
    }

    /// Finds the wireless interface in a listing of `/sys/class/net`: the first
    /// in name order that is wireless and not a P2P interface. `listing` is
    /// what reading the directory gave.
    pub fn find(listing: Result<Vec<NetEntry>, String>) -> (r: Result<Wifi, WifiError>)
        ensures
            match listing {
                Err(cause) => r == Err::<Wifi, WifiError>(WifiError::IoError(cause)),
                Ok(entries) => match r {
                    Ok(wifi) => exists|i: int|
                        first_in_order(
                            entries@.map_values(|e: NetEntry| net_name(e)),
                            entries@.map_values(|e: NetEntry| is_usable_wireless(e)),
                            i,
                        ) && wifi.spec_interface() == net_name(entries@[i]),
                    Err(err) => err == WifiError::NotFound && no_usable_wireless(entries@),
                },
            },
    {
        let entries = match listing {
            Err(cause) => return Err(WifiError::IoError(cause)),
            Ok(entries) => entries,
        };
        let mut names: Vec<Vec<char>> = Vec::new();
        let mut ok: Vec<bool> = Vec::new();
        let mut i: usize = 0;
        while i < entries.len()
            invariant
                i <= entries.len(),
                ok.len() == i,
                names.len() == i,
                forall|k: int| 0 <= k < i ==> (#[trigger] ok@[k]) == is_usable_wireless(entries@[k]),
                forall|k: int| 0 <= k < i ==> (#[trigger] names@[k])@ == net_name(entries@[k]),
            decreases entries.len() - i,
        {
            let e = &entries[i];
            let (name, usable) = match &e.name {
                Some(n) => (chars_of(n.as_str()), e.wireless && !is_p2p_interface(n.as_str())),
                None => (Vec::new(), false),
            };
            names.push(name);
            ok.push(usable);
            i = i + 1;
        }
        assert(names@.map_values(|n: Vec<char>| n@) == entries@.map_values(|e: NetEntry| net_name(e)));
        assert(ok@ == entries@.map_values(|e: NetEntry| is_usable_wireless(e)));
        match first_in_sorted_order(&names, &ok) {
            Some(i) => {
                assert(ok@[i as int]);
                let name = match &entries[i].name {
                    Some(n) => n.clone(),
                    None => { return Err(WifiError::NotFound); },
                };
                Ok(Wifi { interface: name })
            },
            None => {
                assert forall|k: int| 0 <= k < entries.len() implies !is_usable_wireless(#[trigger] entries@[k]) by {
                    assert(!ok@[k]);
                }
                Err(WifiError::NotFound)
            },
        }
    }

    /// The interface's name.
    pub fn interface(&self) -> (name: &str)
        ensures
            name@ == self.spec_interface(),
    {
        self.interface.as_str()
    }

    /// The arguments to `iw` that read the power-save setting:
    /// `dev <interface> get power_save`.
    pub fn power_save_command(&self) -> (args: Vec<String>)
        ensures
            args@.len() == 4,
            args@[0]@ == "dev"@,
            args@[1]@ == self.spec_interface(),
            args@[2]@ == "get"@,
            args@[3]@ == "power_save"@,
    {
        let mut args: Vec<String> = Vec::new();
        args.push(String::from_str("dev"));
        args.push(self.interface.clone());
        args.push(String::from_str("get"));
        args.push(String::from_str("power_save"));
        args
    }

    /// The power-save setting, given how running the read command went.
    pub fn power_save(&self, run: Result<IwOutput, String>) -> (r: Result<bool, WifiReadError>)
        ensures
            match run {
                Err(cause) => r == Err::<bool, WifiReadError>(WifiReadError::IoError(cause)),
                Ok(out) => if !out.success {
                    r matches Err(WifiReadError::CommandFailed(m)) && m@ == trimmed(out.stderr@)
                } else {
                    match power_save_value(out.stdout@) {
                        Some(v) => r == Ok::<bool, WifiReadError>(v),
                        None => r matches Err(WifiReadError::UnexpectedOutput(m)) && m@ == trimmed(out.stdout@),
                    }
                },
            },
    {
        let output = match run {
            Err(cause) => return Err(WifiReadError::IoError(cause)),
            Ok(output) => output,
        };
        if !output.success {
            return Err(WifiReadError::CommandFailed(trim(output.stderr.as_str())));
        }
        match parse_power_save(output.stdout.as_str()) {
            Some(v) => Ok(v),
            None => Err(WifiReadError::UnexpectedOutput(trim(output.stdout.as_str()))),
        }
    }

    /// The arguments to `iw` that set the power-save setting:
    /// `dev <interface> set power_save on|off`.
    pub fn set_power_save_command(&self, on: bool) -> (args: Vec<String>)
        ensures
            args@.len() == 5,
            args@[0]@ == "dev"@,
            args@[1]@ == self.spec_interface(),
            args@[2]@ == "set"@,
            args@[3]@ == "power_save"@,
            args@[4]@ == (if on { "on"@ } else { "off"@ }),
    {
        let value = if on { "on" } else { "off" };
        let mut args: Vec<String> = Vec::new();
        args.push(String::from_str("dev"));
        args.push(self.interface.clone());
        args.push(String::from_str("set"));
        args.push(String::from_str("power_save"));
        args.push(String::from_str(value));
        args
    }

    /// Whether the setting was changed, given how running the set command went.
    pub fn set_power_save(&self, run: Result<IwOutput, String>) -> (r: Result<(), WifiSetError>)
        ensures
            match run {
                Err(cause) => r == Err::<(), WifiSetError>(WifiSetError::IoError(cause)),
                Ok(out) => if out.success {
                    r is Ok
                } else {
                    r matches Err(WifiSetError::CommandFailed(m)) && m@ == trimmed(out.stderr@)
                },
            },
    {
        let output = match run {
            Err(cause) => return Err(WifiSetError::IoError(cause)),
            Ok(output) => output,
        };
        if !output.success {
            return Err(WifiSetError::CommandFailed(trim(output.stderr.as_str())));
        }
        Ok(())
    }
}

} // verus!
