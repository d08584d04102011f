//! Instants on the UTC time line, and the one piece of arithmetic on them
//! that the dashboard needs: adding a whole number of hours.

use vstd::prelude::*;

verus! {

/// The earliest second that a timestamp can name.
pub const MIN_SECOND: i64 = -377_705_023_201;

/// The latest second that a timestamp can name.
pub const MAX_SECOND: i64 = 253_402_207_200;

/// The most hours, in either direction, that can be added at once.
pub const MAX_HOURS: i64 = 2_562_047_788_015_215;

pub open spec fn nanos_per_second() -> int {
    1_000_000_000
}

pub open spec fn nanos_per_hour() -> int {
    3_600_000_000_000
}

/// Whether `second` and `nanosecond` name an instant: both are in range, and
/// the earliest second has nothing before it.
pub open spec fn valid_parts(second: int, nanosecond: int) -> bool {
    &&& MIN_SECOND <= second <= MAX_SECOND
    &&& -999_999_999 <= nanosecond <= 999_999_999
    &&& !(second == MIN_SECOND && nanosecond < 0)
}

/// Whether an instant, given in nanoseconds since the Unix epoch, can be named
/// by a timestamp.
pub open spec fn in_range(nanos: int) -> bool {
    MIN_SECOND * nanos_per_second() <= nanos <= MAX_SECOND * nanos_per_second() + 999_999_999
}

/// The whole seconds of `nanos`, rounded toward the epoch.
pub open spec fn whole_seconds(nanos: int) -> int {
    if nanos >= 0 {
        nanos / nanos_per_second()
    } else {
        -((-nanos) / nanos_per_second())
    }
}

/// What `nanos` holds beyond its whole seconds; it has the sign of `nanos`.
pub open spec fn sub_seconds(nanos: int) -> int {
    if nanos >= 0 {
        nanos % nanos_per_second()
    } else {
        -((-nanos) % nanos_per_second())
    }
}

/// The instant `hours` hours after the one that `second` and `nanosecond`
/// name, as whole seconds and the nanoseconds beyond them, if both instants
/// can be named.
pub open spec fn plus_hours(second: int, nanosecond: int, hours: int) -> Option<(i64, i32)> {
    let end = second * nanos_per_second() + nanosecond + hours * nanos_per_hour();
    if valid_parts(second, nanosecond) && in_range(end) {
        Some((whole_seconds(end) as i64, sub_seconds(end) as i32))
    } else {
        None
    }
}

/// Adds hours to an instant with jiff: `Timestamp::new` on the two parts,
/// `Timestamp::checked_add` of `SignedDuration::from_hours(hours)`, then
/// `as_second` and `subsec_nanosecond` of the sum.
///
/// Trusted: `Timestamp::new` refuses exactly the parts that `valid_parts`
/// refuses, the addition fails exactly when the sum leaves the range of
/// timestamps, and the two parts handed back are the sum's whole seconds and
/// what is left, both with the sum's sign. `from_hours` panics beyond
/// `MAX_HOURS`, which the precondition leaves out.
#[verifier::external_body]
fn add_hours(second: i64, nanosecond: i32, hours: i64) -> (r: Option<(i64, i32)>)
    requires
        -MAX_HOURS <= hours <= MAX_HOURS,
    ensures
        r == plus_hours(second as int, nanosecond as int, hours as int),
{
    let start = jiff::Timestamp::new(second, nanosecond).ok()?;
    let end = start.checked_add(jiff::SignedDuration::from_hours(hours)).ok()?;
    Some((end.as_second(), end.subsec_nanosecond()))
}

/// An instant in time: whole seconds since the Unix epoch, and the nanoseconds
/// beyond them.
#[derive(Clone, Copy, Debug, PartialEq, Eq, Structural, Hash)]
pub struct Timestamp {
    pub second: i64,
    pub nanosecond: i32,
}

impl Timestamp {
    /// Whether the two parts name an instant.
    pub open spec fn valid(self) -> bool {
        valid_parts(self.second as int, self.nanosecond as int)
    }

    /// Whether the two parts name an instant and agree in sign, which makes
    /// them the only two parts that name it.
    pub open spec fn wf(self) -> bool {
        &&& self.valid()
        &&& self.second > 0 ==> self.nanosecond >= 0
        &&& self.second < 0 ==> self.nanosecond <= 0
    }

    /// The instant in nanoseconds since the Unix epoch.
    pub open spec fn as_nanosecond(self) -> int {
        self.second * nanos_per_second() + self.nanosecond
    }

    /// Whether `self` comes no later than `other` when the seconds are
    /// compared first and the nanoseconds second.
    pub open spec fn key_le(self, other: Timestamp) -> bool {
        self.second < other.second || (self.second == other.second && self.nanosecond
            <= other.nanosecond)
    }

    /// The timestamp of the whole second `second`, if there is one.
    pub fn from_second(second: i64) -> (r: Option<Timestamp>)
        ensures
            r == if MIN_SECOND <= second <= MAX_SECOND {
                Some(Timestamp { second, nanosecond: 0 })
            } else {
                None
            },
            r matches Some(t) ==> t.wf(),
    {
        if MIN_SECOND <= second && second <= MAX_SECOND {
            Some(Timestamp { second, nanosecond: 0 })
        } else {
            None
        }
    }

    /// Whether `self` is ordered before or with `other`.
    pub fn le(&self, other: &Timestamp) -> (b: bool)
        ensures
            b == self.key_le(*other),
    {
        self.second < other.second || (self.second == other.second && self.nanosecond
            <= other.nanosecond)
    }

    /// The instant `hours` hours later, if both instants can be named.
    pub fn checked_add_hours(&self, hours: i64) -> (r: Option<Timestamp>)
        ensures
            r is Some <==> self.valid() && in_range(self.as_nanosecond() + hours * nanos_per_hour()),
            r matches Some(t) ==> t.wf() && t.as_nanosecond() == self.as_nanosecond() + hours
                * nanos_per_hour(),
    {
        if hours < -MAX_HOURS || hours > MAX_HOURS {
            return None;
        }
        match add_hours(self.second, self.nanosecond, hours) {
            Some((second, nanosecond)) => {
                proof {
                    lemma_parts_of(self.as_nanosecond() + hours * nanos_per_hour());
                }
                Some(Timestamp { second, nanosecond })
            },
            None => None,
        }
    }
}

/// The whole seconds of an instant in range and what is left of it are the two
/// parts of a well-formed timestamp that names the instant.
pub proof fn lemma_parts_of(nanos: int)
    requires
        in_range(nanos),
    ensures
        valid_parts(whole_seconds(nanos), sub_seconds(nanos)),
        whole_seconds(nanos) * nanos_per_second() + sub_seconds(nanos) == nanos,
        whole_seconds(nanos) > 0 ==> sub_seconds(nanos) >= 0,
        whole_seconds(nanos) < 0 ==> sub_seconds(nanos) <= 0,
{
}

/// For well-formed timestamps, the order by seconds and then nanoseconds is
/// the order of the instants.
pub proof fn lemma_key_order_is_time_order(a: Timestamp, b: Timestamp)
    requires
        a.wf(),
        b.wf(),
    ensures
        a.key_le(b) <==> a.as_nanosecond() <= b.as_nanosecond(),
{
}

} // verus!
