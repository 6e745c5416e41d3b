//! Fixed-point NTP timestamps: 32 bits of whole seconds since 1 January 1900
//! and 32 bits of binary fraction of a second, with bit-exact conversions to
//! and from raw integers, durations and sub-second units.
mod clock;
mod span;
mod timestamp;

pub use span::TimeSpan;
pub use timestamp::{
    fraction_ticks_to_unit, is_ntp_span_timestamp, is_unix_span_timestamp, lemma_order_is_packed_order, lemma_packed_round_trip,
    lemma_unix_reading_after_epoch_delta, micros_to_fraction, DurationExt, ntp_seconds_to_unix, packed, timestamp_cmp,
    unix_seconds_to_ntp, NTPTimestamp, FRACTION_SCALE, NTP_EPOCH_DELTA_SECS,
};
