//! The standard library's `Duration`, as far as the expiry of a key needs
//! it: its two parts are taken from the standard library on trust, and what
//! is made of them is computed here.
use std::time::Duration;
use vstd::prelude::*;

verus! {

/// The number of whole seconds in `duration`: what `Duration::as_secs`
/// returns.
pub uninterp spec fn duration_secs(duration: Duration) -> u64;

/// The part of `duration` beyond its whole seconds, in nanoseconds: what
/// `Duration::subsec_nanos` returns.
pub uninterp spec fn duration_subsec_nanos(duration: Duration) -> u32;

/// `Duration::as_secs`: the number of whole seconds in `duration`.
#[verifier::external_body]
pub(crate) fn as_secs(duration: &Duration) -> (secs: u64)
    ensures
        secs == duration_secs(*duration),
{
    duration.as_secs()
}

/// `Duration::subsec_nanos`: the part of `duration` beyond its whole seconds,
/// in nanoseconds.
#[verifier::external_body]
pub(crate) fn subsec_nanos(duration: &Duration) -> (nanos: u32)
    ensures
        nanos == duration_subsec_nanos(*duration),
{
    duration.subsec_nanos()
}

/// The number of whole milliseconds in `duration`.
pub open spec fn duration_millis(duration: Duration) -> nat {
    (duration_secs(duration) * 1000 + duration_subsec_nanos(duration) / 1000000) as nat
}

/// True when `duration` is no time at all.
pub open spec fn duration_is_zero(duration: Duration) -> bool {
    duration_secs(duration) == 0 && duration_subsec_nanos(duration) == 0
}

/// The number of whole milliseconds in `duration`.
pub fn as_millis(duration: &Duration) -> (millis: u128)
    ensures
        millis == duration_millis(*duration),
{
    let secs = as_secs(duration);
    let nanos = subsec_nanos(duration);
    secs as u128 * 1000 + (nanos / 1000000) as u128
}

/// Tells whether `duration` is no time at all.
pub fn is_zero(duration: &Duration) -> (zero: bool)
    ensures
        zero == duration_is_zero(*duration),
{
    as_secs(duration) == 0 && subsec_nanos(duration) == 0
}

} // verus!
