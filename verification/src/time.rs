//! What the library needs to know of `std::time::Duration`.

use std::time::Duration;
use vstd::prelude::*;

verus! {

/// A copy of a duration is the same duration.
pub assume_specification[ <Duration as Clone>::clone ](d: &Duration) -> (copy: Duration)
    ensures
        copy == *d,
;

/// The whole milliseconds that a duration holds.
pub uninterp spec fn duration_millis(d: Duration) -> u128;

/// `Duration::as_millis` gives the whole milliseconds of the duration.
pub assume_specification[ Duration::as_millis ](d: &Duration) -> (millis: u128)
    ensures
        millis == duration_millis(*d),
;

/// The whole microseconds that a duration holds.
pub uninterp spec fn duration_micros(d: Duration) -> u128;

/// `Duration::as_micros` gives the whole microseconds of the duration.
pub assume_specification[ Duration::as_micros ](d: &Duration) -> (micros: u128)
    ensures
        micros == duration_micros(*d),
;

} // verus!
