//! What the library knows of `std::time::Duration`: a count of nanoseconds.
use std::time::Duration;
use vstd::prelude::*;

verus! {

/// The largest count of nanoseconds a `Duration` holds: `u64::MAX` seconds
/// and 999 999 999 nanoseconds.
pub open spec fn max_nanos() -> nat {
    18446744073709551615999999999
}

/// The length of a duration in nanoseconds, as `Duration::as_nanos` gives it.
pub uninterp spec fn nanos_of(d: Duration) -> nat;

/// Relies on `Duration::as_nanos`: the whole length in nanoseconds, which never
/// exceeds the largest representable duration.
pub assume_specification[ Duration::as_nanos ](d: &Duration) -> (r: u128)
    ensures
        r as nat == nanos_of(*d),
        r as nat <= max_nanos(),
;

/// Relies on `Duration::checked_add`: the sum, or `None` where it exceeds the
/// largest representable duration.
pub assume_specification[ Duration::checked_add ](a: Duration, b: Duration) -> (r: Option<
    Duration,
>)
    ensures
        r is Some <==> nanos_of(a) + nanos_of(b) <= max_nanos(),
        r matches Some(c) ==> nanos_of(c) == nanos_of(a) + nanos_of(b),
;

} // verus!
