//! What the library knows of `core::time::Duration`: the whole milliseconds
//! that a duration spans.

use core::time::Duration;
use vstd::prelude::*;

verus! {

/// The number of whole milliseconds that `d` spans.
pub uninterp spec fn whole_millis(d: Duration) -> nat;

/// `Duration::from_millis` makes the duration that spans the given number of
/// whole milliseconds.
pub assume_specification[ Duration::from_millis ](millis: u64) -> (d: Duration)
    ensures
        whole_millis(d) == millis,
;

/// `Duration::as_millis` gives the number of whole milliseconds that the
/// duration spans.
pub assume_specification[ Duration::as_millis ](d: &Duration) -> (millis: u128)
    ensures
        millis == whole_millis(*d),
;

/// `<Duration as Clone>::clone` gives the duration itself: the type is
/// `Copy`. The derived `Clone` of the three builders calls it for their
/// retry interval, and Verus reads those derived impls.
pub assume_specification[ <Duration as Clone>::clone ](d: &Duration) -> (copy: Duration)
    ensures
        copy == *d,
;

} // verus!
