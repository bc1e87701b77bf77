//! Points in time, to the second, as `chrono` can hold them.

use vstd::prelude::*;

verus! {

/// The first second that `chrono` can hold: the start of the year -262143.
pub const MIN_SECONDS: i64 = -8_334_601_228_800;

/// The last second that `chrono` can hold: the end of the year 262142.
pub const MAX_SECONDS: i64 = 8_210_266_876_799;

/// Whether a number of seconds since the start of 1970 is a point in time
/// that `chrono` can hold.
pub open spec fn is_timestamp(seconds: int) -> bool {
    MIN_SECONDS <= seconds <= MAX_SECONDS
}

/// `chrono::DateTime::<Utc>::from_timestamp` with no nanoseconds: whether it
/// gives a point in time. It does so from the first day of the year -262143
/// to the last day of the year 262142, and the constants above are those two
/// days' first and last second.
#[verifier::external_body]
fn chrono_holds(seconds: i64) -> (held: bool)
    ensures
        held == is_timestamp(seconds as int),
{
    chrono::DateTime::<chrono::Utc>::from_timestamp(seconds, 0).is_some()
}

/// A point in time, to the second: the seconds since the start of 1970, at
/// a point that `chrono` can hold.
#[derive(Clone, Copy, Debug, PartialEq, Eq)]
pub struct Timestamp {
    seconds: i64,
}

impl View for Timestamp {
    type V = int;

    closed spec fn view(&self) -> int {
        self.seconds as int
    }
}

impl Default for Timestamp {
    /// The start of 1970.
    fn default() -> (start: Self)
        ensures
            start@ == 0,
    {
        Timestamp { seconds: 0 }
    }
}

impl Timestamp {
    #[verifier::type_invariant]
    spec fn in_range(self) -> bool {
        is_timestamp(self.seconds as int)
    }

    /// The point in time that lies `seconds` after the start of 1970, or
    /// before it for a negative number; none where `chrono` can hold no such
    /// point.
    pub fn from_seconds(seconds: i64) -> (r: Option<Timestamp>)
        ensures
            r is Some == is_timestamp(seconds as int),
            r matches Some(t) ==> t@ == seconds,
    {
        if chrono_holds(seconds) {
            Some(Timestamp { seconds })
        } else {
            None
        }
    }

    /// The seconds since the start of 1970.
    pub fn seconds(&self) -> (seconds: i64)
        ensures
            seconds == self@,
            is_timestamp(self@),
    {
        proof {
            use_type_invariant(self);
        }
        self.seconds
    }
}

} // verus!
