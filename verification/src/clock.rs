use std::time::Instant;
use vstd::prelude::*;

verus! {

/// The monotonic clock's reading, `std::time::Instant`, carried through as an opaque value.
#[verifier::external_type_specification]
#[verifier::external_body]
pub struct ExInstant(Instant);

/// Calls `Instant::now`. The reading depends on when the call is made, so nothing is
/// promised of it.
#[verifier::external_body]
pub(crate) fn instant_now() -> Instant {
    Instant::now()
}

/// The span from the reading `earlier` to the reading `later` that
/// `Instant::duration_since` gives, as whole seconds and the nanoseconds of the
/// partial second. It is a function of the two readings alone.
pub uninterp spec fn instant_span(later: Instant, earlier: Instant) -> (u64, u32);

/// The span that `instant_span` gives, in nanoseconds.
pub open spec fn span_nanos(span: (u64, u32)) -> nat {
    span.0 as nat * 1_000_000_000 + span.1 as nat
}

/// Calls `Instant::duration_since(later, earlier)`, which saturates at zero when
/// `earlier` is the later reading, and hands the span back as its whole seconds and
/// the nanoseconds of the partial second (`Duration::as_secs`, `Duration::subsec_nanos`).
/// The span is named by `instant_span`; the one more promise is the one std documents
/// for `subsec_nanos`: fewer than one billion nanoseconds.
#[verifier::external_body]
pub(crate) fn time_between(later: &Instant, earlier: &Instant) -> (span: (u64, u32))
    ensures
        span == instant_span(*later, *earlier),
        span.1 < 1_000_000_000,
{
    let span = later.duration_since(*earlier);
    (span.as_secs(), span.subsec_nanos())
}

} // verus!
