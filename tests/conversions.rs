use ntp_timestamp::{DurationExt, NTPTimestamp, TimeSpan, NTP_EPOCH_DELTA_SECS};
use std::time::Duration;

#[test]
fn raw_round_trip_on_edge_values() {
    let values: [(u32, u32); 5] = [
        (0, 0),
        (u32::MAX, u32::MAX),
        (1_000_000, 0x4000_0000),
        (0, u32::MAX),
        (u32::MAX, 0),
    ];
    for (s, f) in values {
        let t = NTPTimestamp::new(s, f);
        assert_eq!(NTPTimestamp::from_ntp_timestamp(t.timestamp()), t);
    }
    assert_eq!(NTPTimestamp::new(u32::MAX, u32::MAX).timestamp(), u64::MAX);
    assert_eq!(NTPTimestamp::from_ntp_timestamp(u64::MAX).timestamp(), u64::MAX);
}

#[test]
fn unpacking_splits_halves() {
    let t = NTPTimestamp::from_ntp_timestamp(0x0000_0001_8000_0000);
    assert_eq!(t.seconds(), 1);
    assert_eq!(t.fraction(), 0x8000_0000);
}

#[test]
fn epoch_conversion_adds_delta() {
    let t = NTPTimestamp::from_unix_timestamp(1_640_995_200);
    assert_eq!(t.seconds(), 3_849_984_000);
    assert_eq!(t.fraction(), 0);
    assert_eq!(NTPTimestamp::from_unix_timestamp(0).seconds() as u64, NTP_EPOCH_DELTA_SECS);
}

#[test]
fn epoch_conversion_wraps_past_32_bits() {
    // 2_085_978_496 + 2_208_988_800 == 2^32
    assert_eq!(NTPTimestamp::from_unix_timestamp(2_085_978_496).seconds(), 0);
    assert_eq!(NTPTimestamp::from_unix_timestamp(2_085_978_497).seconds(), 1);
    let t = NTPTimestamp::from_unix_timestamp(u64::MAX);
    assert_eq!(t.seconds() as u64, (u64::MAX % (1u64 << 32) + NTP_EPOCH_DELTA_SECS) % (1u64 << 32));
}

#[test]
fn inverse_epoch_conversion() {
    assert_eq!(NTPTimestamp::new(3_849_984_000, 0).to_unix_timestamp(), 1_640_995_200);
    assert_eq!(NTPTimestamp::new(2_208_988_800, 0).to_unix_timestamp(), 0);
}

#[test]
fn inverse_epoch_conversion_saturates_before_unix_epoch() {
    assert_eq!(NTPTimestamp::new(0, 0).to_unix_timestamp(), 0);
    assert_eq!(NTPTimestamp::new(2_208_988_799, 0x8000_0000).to_unix_timestamp(), 0);
}

#[test]
fn inverse_epoch_conversion_full_fraction_adds_one() {
    assert_eq!(NTPTimestamp::new(3_849_984_000, u32::MAX).to_unix_timestamp(), 1_640_995_201);
    assert_eq!(NTPTimestamp::new(3_849_984_000, u32::MAX - 1).to_unix_timestamp(), 1_640_995_200);
}

#[test]
fn duration_round_trip_is_lossy() {
    let t = NTPTimestamp::new(1_000_000, 0x4000_0000);
    let d = t.to_duration();
    assert_eq!(d.as_secs(), 1_000_000);
    assert_eq!(d.subsec_nanos(), 250_000_000);
    assert_eq!(NTPTimestamp::from_duration(&d), t);
    let odd = NTPTimestamp::new(5, 1);
    let back = NTPTimestamp::from_duration(&odd.to_duration());
    assert_eq!(back, NTPTimestamp::new(5, 0));
}

#[test]
fn from_duration_rescales_micros_and_truncates_seconds() {
    let t = NTPTimestamp::from_duration(&TimeSpan::new(1_000_000, 250_000));
    assert_eq!(t.seconds(), 1_000_000);
    assert_eq!(t.fraction(), 1_073_741);
    let big = NTPTimestamp::from_duration(&TimeSpan::new((1u64 << 32) + 7, 500_000_000));
    assert_eq!(big.seconds(), 7);
    assert_eq!(big.fraction(), 0x8000_0000);
}

#[test]
fn from_unix_duration_adds_delta() {
    let t = NTPTimestamp::from_unix_duration(&TimeSpan::new(1_640_995_200, 750_000_999));
    assert_eq!(t.seconds(), 3_849_984_000);
    assert_eq!(t.fraction(), 0xC000_0000);
}

#[test]
fn duration_ext_on_spans_and_std_durations() {
    let span = TimeSpan::new(1_000_000, 250_000);
    assert_eq!(span.ntp_timestamp(), NTPTimestamp::new(1_000_000, 1_073_741));
    let std_duration = Duration::new(1_000_000, 250_000);
    assert_eq!(std_duration.ntp_timestamp(), NTPTimestamp::new(1_000_000, 1_073_741));
    let unix = Duration::new(1_640_995_200, 500_000_000);
    assert_eq!(unix.ntp_from_unix(), NTPTimestamp::new(3_849_984_000, 0x8000_0000));
    assert_eq!(TimeSpan::from_std(&unix).ntp_from_unix(), unix.ntp_from_unix());
    assert_eq!(TimeSpan::from_std(&unix).as_secs(), 1_640_995_200);
    assert_eq!(TimeSpan::from_std(&unix).subsec_nanos(), 500_000_000);
}

#[test]
fn time_span_carries_whole_seconds() {
    let s = TimeSpan::new(3, 2_500_000_000);
    assert_eq!(s.as_secs(), 5);
    assert_eq!(s.subsec_nanos(), 500_000_000);
    assert_eq!(s.subsec_micros(), 500_000);
}

#[test]
fn nanoseconds_scaling() {
    assert_eq!(NTPTimestamp::new(1, 0).as_nanoseconds(), 1_000_000_000);
    assert_eq!(NTPTimestamp::new(2, 0x8000_0000).as_nanoseconds(), 2_500_000_000);
    assert_eq!(
        NTPTimestamp::new(u32::MAX, u32::MAX).as_nanoseconds(),
        4_294_967_295 * 1_000_000_000 + 999_999_999
    );
}

#[test]
fn fraction_unit_scaling_quarter_second() {
    let t = NTPTimestamp::new(0, 0x4000_0000);
    assert_eq!(t.fraction_as_ms(), 250);
    assert_eq!(t.fraction_as_us(), 250_000);
    assert_eq!(t.fraction_as_ns(), 250_000_000);
    assert_eq!(t.fraction_as_ps(), 250_000_000_000);
}

#[test]
fn fraction_unit_scaling_truncates() {
    let t = NTPTimestamp::new(0, u32::MAX);
    assert_eq!(t.fraction_as_ms(), 999);
    assert_eq!(t.fraction_as_us(), 999_999);
    assert_eq!(t.fraction_as_ns(), 999_999_999);
    assert_eq!(t.fraction_as_ps(), 999_999_999_767);
    assert_eq!(NTPTimestamp::new(0, 1).fraction_as_ns(), 0);
}

#[test]
fn ordering_by_seconds_then_fraction() {
    let a = NTPTimestamp::new(1, u32::MAX);
    let b = NTPTimestamp::new(2, 0);
    let c = NTPTimestamp::new(2, 1);
    assert!(a < b);
    assert!(b < c);
    assert!(a.timestamp() < b.timestamp());
    assert!(!(c < b));
    assert_eq!(b.partial_cmp(&b), Some(std::cmp::Ordering::Equal));
    assert_eq!(a.cmp(&c), std::cmp::Ordering::Less);
    let mut v = vec![c, a, b];
    v.sort();
    assert_eq!(v, vec![a, b, c]);
}

#[test]
fn now_is_past_the_epoch_delta() {
    let now = NTPTimestamp::now();
    assert!(now.to_duration().as_secs() >= NTP_EPOCH_DELTA_SECS);
    let d = NTPTimestamp::default();
    assert!(d.seconds() as u64 >= NTP_EPOCH_DELTA_SECS);
}
