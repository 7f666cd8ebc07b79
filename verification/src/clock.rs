//! The monotonic clock of the standard library, as the reporting stage reads
//! it.
//!
//! What the clock shows depends on the moment of the call, so none of the
//! contracts here says which instant or span comes back.

use vstd::prelude::*;

verus! {

/// `std::time::Instant`, a reading of the monotonic clock. Nothing of its
/// inside is known here; it is only carried from one reading to the next.
#[verifier::external_type_specification]
#[verifier::external_body]
pub struct ExInstant(std::time::Instant);

/// `Instant::now` reads the monotonic clock. Nothing is claimed of the
/// instant that comes back.
pub assume_specification[ std::time::Instant::now ]() -> (now: std::time::Instant);

/// `Instant::saturating_duration_since` gives the time from `earlier` to
/// `later`, or a span of zero where `earlier` is the later of the two; it
/// does not fail. Nothing is claimed of the span that comes back.
pub assume_specification[ std::time::Instant::saturating_duration_since ](
    later: &std::time::Instant,
    earlier: std::time::Instant,
) -> (span: std::time::Duration);

/// `Duration::as_nanos` gives the whole span in nanoseconds. Nothing is
/// claimed of the number that comes back.
pub assume_specification[ std::time::Duration::as_nanos ](span: &std::time::Duration) -> (nanos:
    u128);

/// `Duration::as_secs` gives the whole seconds of the span. Nothing is
/// claimed of the number that comes back.
pub assume_specification[ std::time::Duration::as_secs ](span: &std::time::Duration) -> (secs:
    u64);

} // verus!
