//! A series of durations with the separator to print its statistics with.
use vstd::prelude::*;

use super::statistics::{mean, mean_of};

verus! {

/// A series of durations, in nanoseconds, and the separator between its printed
/// statistics.
pub struct DisplayDurationStats<'a> {
    values: &'a [i64],
    separator: &'a str,
}

impl<'a> View for DisplayDurationStats<'a> {
    /// The durations and the separator.
    type V = (Seq<i64>, Seq<char>);

    closed spec fn view(&self) -> (Seq<i64>, Seq<char>) {
        (self.values@, self.separator@)
    }
}

impl<'a> DisplayDurationStats<'a> {
    /// The series, with the statistics printed one per line.
    pub fn with_newline(slice: &'a [i64]) -> (r: Self)
        ensures
            r@ == (slice@, "\n"@),
    {
        Self { values: slice, separator: "\n" }
    }

    /// The series, with the statistics separated by commas.
    pub fn with_comma(slice: &'a [i64]) -> (r: Self)
        ensures
            r@ == (slice@, ", "@),
    {
        Self { values: slice, separator: ", " }
    }

    pub fn new(slice: &'a [i64], separator: &'a str) -> (r: Self)
        ensures
            r@ == (slice@, separator@),
    {
        Self { values: slice, separator }
    }

    /// The durations.
    pub fn values(&self) -> (r: &'a [i64])
        ensures
            r@ == self@.0,
    {
        self.values
    }

    /// The separator between the printed statistics.
    pub fn separator(&self) -> (r: &'a str)
        ensures
            r@ == self@.1,
    {
        self.separator
    }

    /// The mean duration, rounded toward zero, of a non-empty series.
    pub fn mean(&self) -> (r: i64)
        requires
            self@.0.len() > 0,
        ensures
            r == mean_of(self@.0),
    {
        mean(self.values)
    }
}

} // verus!
