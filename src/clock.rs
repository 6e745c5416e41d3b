use std::time::{Duration, SystemTime, UNIX_EPOCH};
use vstd::prelude::*;

use crate::timestamp::NTP_EPOCH_DELTA_SECS;

verus! {

/// std's wall-clock instant, held opaque.
#[verifier::external_type_specification]
#[verifier::external_body]
pub struct ExSystemTime(SystemTime);

/// Relies on `SystemTime::elapsed` of `UNIX_EPOCH`: the current time as a
/// duration since the Unix epoch. The host clock must not read earlier than
/// the Unix epoch; when it does, this panics, as no timestamp can be given.
#[verifier::external_body]
pub(crate) fn unix_clock_reading() -> (r: Duration) {
    UNIX_EPOCH.elapsed().expect("system time is earlier than the Unix epoch")
}

/// Relies on `Duration::as_secs`: the whole seconds of a duration.
#[verifier::external_body]
pub(crate) fn duration_whole_secs(d: &Duration) -> (r: u64) {
    d.as_secs()
}

/// Relies on `Duration::subsec_nanos`: the nanoseconds of the partial second,
/// which std documents as always less than one billion.
#[verifier::external_body]
pub(crate) fn duration_subsec_nanos(d: &Duration) -> (r: u32)
    ensures
        r < 1_000_000_000,
{
    d.subsec_nanos()
}

/// Relies on `SystemTime + Duration` from `UNIX_EPOCH`: the instant `secs`
/// seconds after the Unix epoch. Bounded by the epoch delta, so that the
/// instant is representable on every platform and the addition cannot panic.
#[verifier::external_body]
pub(crate) fn system_time_after_unix_epoch(secs: u64) -> (r: SystemTime)
    requires
        secs <= NTP_EPOCH_DELTA_SECS,
{
    UNIX_EPOCH + Duration::from_secs(secs)
}

} // verus!
