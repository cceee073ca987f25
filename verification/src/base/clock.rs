//! The current instant.
use vstd::prelude::*;

verus! {

/// A bound on any instant the time crate can hold, in nanoseconds from the
/// Unix epoch: its dates lie within the years -999999..=999999 in every
/// build, which is less than 10^26 nanoseconds either way.
pub open spec fn instant_bound() -> int {
    100_000_000_000_000_000_000_000_000
}

/// Calls `time::OffsetDateTime::now_utc()` and reads it as nanoseconds since
/// the Unix epoch. Trusted: the instant itself rests on the clock of the
/// machine and is not stated; only that it lies within the range of dates
/// that the time crate can represent.
#[verifier::external_body]
pub(crate) fn now_nanos() -> (r: i128)
    ensures
        -instant_bound() <= r <= instant_bound(),
{
    time::OffsetDateTime::now_utc().unix_timestamp_nanos()
}

/// The earliest instant of the time crate in its usual build,
/// -9999-01-01 00:00 UTC, in nanoseconds from the Unix epoch.
pub open spec fn earliest_instant_default() -> int {
    -377_705_203_200_000_000_000
}

/// The earliest instant of the time crate when it is built with its
/// `large-dates` feature, -999999-01-01 00:00 UTC, in nanoseconds from the
/// Unix epoch.
pub open spec fn earliest_instant_large() -> int {
    -31_619_087_683_200_000_000_000
}

/// `e` is the earliest instant the time crate can hold, in one of its two
/// builds.
pub open spec fn is_earliest_instant(e: int) -> bool {
    e == earliest_instant_default() || e == earliest_instant_large()
}

/// Reads `time::PrimitiveDateTime::MIN.assume_utc().unix_timestamp_nanos()`.
/// Trusted: the documentation of `PrimitiveDateTime::MIN` gives it as
/// -9999-01-01 00:00, or -999999-01-01 00:00 when the crate is built with
/// `large-dates`; which of the two is left open, as it rests on how the
/// crate was built.
#[verifier::external_body]
pub(crate) fn earliest_instant() -> (r: i128)
    ensures
        is_earliest_instant(r as int),
{
    time::PrimitiveDateTime::MIN.assume_utc().unix_timestamp_nanos()
}

} // verus!
