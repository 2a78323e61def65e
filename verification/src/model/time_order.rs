//! Times are ordered by their nanosecond counts.
use vstd::prelude::*;

use core::cmp::Ordering;
use vstd::std_specs::cmp::PartialOrdSpecImpl;

use super::Time;

verus! {

/// The order of two times: the order of their nanosecond counts.
pub open spec fn time_order(a: Time, b: Time) -> Ordering {
    if a.nanos() < b.nanos() {
        Ordering::Less
    } else if a.nanos() == b.nanos() {
        Ordering::Equal
    } else {
        Ordering::Greater
    }
}

impl PartialOrd for Time {
    fn partial_cmp(&self, other: &Self) -> (r: Option<Ordering>) {
        let a = self.timestamp_nanos();
        let b = other.timestamp_nanos();
        if a < b {
            Some(Ordering::Less)
        } else if a == b {
            Some(Ordering::Equal)
        } else {
            Some(Ordering::Greater)
        }
    }
}

impl PartialOrdSpecImpl for Time {
    open spec fn obeys_partial_cmp_spec() -> bool {
        true
    }

    open spec fn partial_cmp_spec(&self, other: &Self) -> Option<Ordering> {
        Some(time_order(*self, *other))
    }
}

/// Compares two times (see [`time_order`]).
pub fn compare_times(a: Time, b: Time) -> (r: Ordering)
    ensures
        r == time_order(a, b),
{
    match a.partial_cmp(&b) {
        Some(o) => o,
        None => Ordering::Equal,
    }
}

/// Times built from nanosecond counts are ordered as the counts are, and reading a
/// time back gives its count.
pub proof fn law_time_order(a: i64, b: i64)
    ensures
        Time::from_nanos_spec(a).nanos() == a,
        time_order(Time::from_nanos_spec(a), Time::from_nanos_spec(b)) == (if a < b {
            Ordering::Less
        } else if a == b {
            Ordering::Equal
        } else {
            Ordering::Greater
        }),
{
    Time::lemma_from_nanos(a);
    Time::lemma_from_nanos(b);
}

} // verus!
