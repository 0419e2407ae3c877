use std::time::Duration;
use std::time::Instant;
use vstd::prelude::*;

verus! {

/// A reading of the monotonic clock. Nothing can be seen inside one: two
/// readings are only ever compared through [`time_between`].
#[verifier::external_type_specification]
#[verifier::external_body]
pub struct ExInstant(std::time::Instant);

/// The time from the reading `earlier` to the reading `later`, as
/// `Instant::saturating_duration_since` gives it: what [`time_between`]
/// returns. It depends on the two readings alone.
pub uninterp spec fn span_between(earlier: Instant, later: Instant) -> Duration;

/// The whole nanoseconds in `length`, as `Duration::as_nanos` gives them: what
/// [`whole_nanos`] returns.
pub uninterp spec fn nanos_in(length: Duration) -> nat;

/// The nanoseconds from the reading `earlier` to the reading `later`.
pub open spec fn nanos_between(earlier: Instant, later: Instant) -> nat {
    nanos_in(span_between(earlier, later))
}

/// Reads the monotonic clock with `Instant::now`. The reading depends on when
/// the call is made, so nothing is claimed of it.
#[verifier::external_body]
pub(crate) fn now() -> Instant {
    Instant::now()
}

/// The time that passed from `earlier` to `later`, by
/// `Instant::saturating_duration_since`, which gives a zero duration instead
/// of panicking when `earlier` is in fact the later one. Claimed is only that
/// the two readings decide the result, under the name [`span_between`]; how
/// long it is stays open.
#[verifier::external_body]
pub(crate) fn time_between(earlier: &Instant, later: &Instant) -> (length: Duration)
    ensures
        length == span_between(*earlier, *later),
{
    later.saturating_duration_since(*earlier)
}

/// The whole nanoseconds in `length`, by `Duration::as_nanos`. Claimed is only
/// that the duration decides the count, under the name [`nanos_in`].
#[verifier::external_body]
pub(crate) fn whole_nanos(length: &Duration) -> (nanos: u128)
    ensures
        nanos == nanos_in(*length),
{
    length.as_nanos()
}

} // verus!
