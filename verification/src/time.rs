//! Points in time, as the daemon compares and shifts them.
//!
//! A [`Timestamp`] is an instant in UTC, counted from the Unix epoch in whole
//! seconds plus a sub-second part in nanoseconds. The exact difference between
//! two instants is truncated toward zero to whole seconds, and whole seconds
//! are truncated toward zero to whole minutes or days.

use vstd::prelude::*;

verus! {

/// The largest magnitude, in seconds from the epoch, that a timestamp may have.
/// It is far beyond any date a calendar library hands out.
pub const TIMESTAMP_SECONDS_LIMIT: i64 = 1_000_000_000_000_000;

/// Nanoseconds in one second.
pub const NANOS_PER_SECOND: u32 = 1_000_000_000;

/// An instant in UTC.
#[derive(Debug, Clone, Copy, PartialEq, Eq, Structural)]
pub struct Timestamp {
    /// Whole seconds since 1970-01-01T00:00:00Z (negative before it).
    pub seconds: i64,
    /// Nanoseconds past `seconds`, below one second.
    pub nanos: u32,
}

/// Integer division of `a` by a positive `b`, rounded toward zero.
pub open spec fn div_toward_zero(a: int, b: int) -> int
    recommends
        b > 0,
{
    if a >= 0 {
        a / b
    } else {
        -((-a) / b)
    }
}

impl Timestamp {
    /// Whether the fields describe an instant: the sub-second part is below one
    /// second and the seconds lie within [`TIMESTAMP_SECONDS_LIMIT`].
    pub open spec fn valid(self) -> bool {
        &&& self.nanos < NANOS_PER_SECOND
        &&& -TIMESTAMP_SECONDS_LIMIT <= self.seconds <= TIMESTAMP_SECONDS_LIMIT
    }

    /// The instant as nanoseconds since the epoch.
    pub open spec fn instant(self) -> int {
        self.seconds * 1_000_000_000 + self.nanos
    }

    /// Whole seconds from `earlier` to `self`, truncated toward zero.
    pub open spec fn spec_seconds_since(self, earlier: Timestamp) -> int {
        div_toward_zero(self.instant() - earlier.instant(), 1_000_000_000)
    }

    /// Whole minutes from `earlier` to `self`, truncated toward zero.
    pub open spec fn spec_minutes_since(self, earlier: Timestamp) -> int {
        div_toward_zero(self.spec_seconds_since(earlier), 60)
    }

    /// Whole days from `earlier` to `self`, truncated toward zero.
    pub open spec fn spec_days_since(self, earlier: Timestamp) -> int {
        div_toward_zero(self.spec_seconds_since(earlier), 86_400)
    }

    /// The instant at whole second `seconds` past the epoch.
    pub fn from_unix_seconds(seconds: i64) -> (t: Timestamp)
        requires
            -TIMESTAMP_SECONDS_LIMIT <= seconds <= TIMESTAMP_SECONDS_LIMIT,
        ensures
            t.valid(),
            t.seconds == seconds,
            t.nanos == 0,
    {
        Timestamp { seconds, nanos: 0 }
    }

    /// Whether `self` comes strictly before `other`.
    pub fn is_before(&self, other: &Timestamp) -> (before: bool)
        requires
            self.valid(),
            other.valid(),
        ensures
            before == (self.instant() < other.instant()),
    {
        proof {
            instant_order(self.seconds as int, self.nanos as int, other.seconds as int, other.nanos as int);
        }
        self.seconds < other.seconds || (self.seconds == other.seconds && self.nanos < other.nanos)
    }

    /// Whole seconds from `earlier` to `self`, truncated toward zero.
    pub fn seconds_since(&self, earlier: &Timestamp) -> (s: i64)
        requires
            self.valid(),
            earlier.valid(),
        ensures
            s == self.spec_seconds_since(*earlier),
    {
        let whole = self.seconds - earlier.seconds;
        let frac = self.nanos as i64 - earlier.nanos as i64;
        let ghost exact = self.instant() - earlier.instant();
        assert(exact == whole * 1_000_000_000 + frac);
        if whole > 0 && frac < 0 {
            assert(div_toward_zero(exact, 1_000_000_000) == whole - 1) by (nonlinear_arith)
                requires
                    exact == whole * 1_000_000_000 + frac,
                    whole > 0,
                    -1_000_000_000 < frac < 0,
            ;
            whole - 1
        } else if whole < 0 && frac > 0 {
            assert(div_toward_zero(exact, 1_000_000_000) == whole + 1) by (nonlinear_arith)
                requires
                    exact == whole * 1_000_000_000 + frac,
                    whole < 0,
                    0 < frac < 1_000_000_000,
            ;
            whole + 1
        } else {
            assert(div_toward_zero(exact, 1_000_000_000) == whole) by (nonlinear_arith)
                requires
                    exact == whole * 1_000_000_000 + frac,
                    -1_000_000_000 < frac < 1_000_000_000,
                    whole > 0 ==> frac >= 0,
                    whole < 0 ==> frac <= 0,
            ;
            whole
        }
    }

    /// Whole minutes from `earlier` to `self`, truncated toward zero.
    pub fn minutes_since(&self, earlier: &Timestamp) -> (m: i64)
        requires
            self.valid(),
            earlier.valid(),
        ensures
            m == self.spec_minutes_since(*earlier),
    {
        let s = self.seconds_since(earlier);
        div_toward_zero_exec(s, 60)
    }

    /// Whole days from `earlier` to `self`, truncated toward zero.
    pub fn days_since(&self, earlier: &Timestamp) -> (d: i64)
        requires
            self.valid(),
            earlier.valid(),
        ensures
            d == self.spec_days_since(*earlier),
    {
        let s = self.seconds_since(earlier);
        div_toward_zero_exec(s, 86_400)
    }

    /// The instant `hours` hours after `self`.
    pub fn plus_hours(&self, hours: i64) -> (t: Timestamp)
        requires
            self.valid(),
            0 <= hours <= 1_000_000,
            self.seconds + hours * 3600 <= TIMESTAMP_SECONDS_LIMIT,
        ensures
            t.valid(),
            t.instant() == self.instant() + hours * 3_600_000_000_000,
    {
        Timestamp { seconds: self.seconds + hours * 3600, nanos: self.nanos }
    }
}

proof fn instant_order(a: int, b: int, c: int, d: int)
    by (nonlinear_arith)
    requires
        0 <= b < 1_000_000_000,
        0 <= d < 1_000_000_000,
    ensures
        (a * 1_000_000_000 + b < c * 1_000_000_000 + d) == (a < c || (a == c && b < d)),
{
}

fn div_toward_zero_exec(a: i64, b: i64) -> (q: i64)
    requires
        0 < b,
        a > i64::MIN,
    ensures
        q == div_toward_zero(a as int, b as int),
{
    if a >= 0 {
        a / b
    } else {
        let m = -a;
        -(m / b)
    }
}

} // verus!
