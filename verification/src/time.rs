//! Durations given in milliseconds.

use std::time::Duration;
use vstd::prelude::*;

verus! {

/// The duration of `millis` milliseconds: the value that
/// `std::time::Duration::from_millis` returns for `millis`.
pub uninterp spec fn duration_of_millis(millis: u64) -> Duration;

/// `std::time::Duration::from_millis`, which creates a duration from a number
/// of milliseconds. The result depends on the argument alone; it is named
/// `duration_of_millis(millis)` and nothing more is claimed of it.
pub assume_specification[ Duration::from_millis ](millis: u64) -> (duration: Duration)
    ensures
        duration == duration_of_millis(millis),
;

} // verus!
