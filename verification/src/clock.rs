use std::time::{Duration, Instant};
use vstd::prelude::*;

verus! {

/// `std::time::Instant` is carried through the library as an opaque value.
#[verifier::external_type_specification]
#[verifier::external_body]
pub struct ExInstant(Instant);

/// `Instant::clone`: `Instant` is `Copy`, so its clone is the same value.
pub assume_specification[ <Instant as Clone>::clone ](t: &Instant) -> (r: Instant)
    ensures
        r == *t,
;

/// The span of `secs` whole seconds (what `Duration::from_secs` returns).
pub uninterp spec fn secs_duration(secs: u64) -> Duration;

/// The instant `d` after `t` (the value `Instant::checked_add` returns when
/// the platform can represent it).
pub uninterp spec fn instant_after(t: Instant, d: Duration) -> Instant;

/// Whether `now` is at or after `t` (what `now >= t` gives for two
/// instants).
pub uninterp spec fn instant_reached(now: Instant, t: Instant) -> bool;

/// `Instant >= Instant`: whether `now` is at or after `t`.
#[verifier::external_body]
pub(crate) fn instant_at_or_after(now: Instant, t: Instant) -> (r: bool)
    ensures
        r == instant_reached(now, t),
{
    now >= t
}

/// `Duration::from_secs`: the span of `secs` whole seconds.
#[verifier::external_body]
pub(crate) fn duration_from_secs(secs: u64) -> (d: Duration)
    ensures
        d == secs_duration(secs),
{
    Duration::from_secs(secs)
}

/// `Instant::checked_add`: the instant `d` after `t`, or `None` when the
/// platform cannot represent it. Which instants can be represented depends
/// on the platform, so when `None` comes back is not stated.
#[verifier::external_body]
pub(crate) fn instant_checked_add(t: Instant, d: Duration) -> (r: Option<Instant>)
    ensures
        r matches Some(x) ==> x == instant_after(t, d),
{
    t.checked_add(d)
}

} // verus!
