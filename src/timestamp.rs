use std::cmp::Ordering;
use std::time::{Duration, SystemTime};
use vstd::prelude::*;
use vstd::std_specs::cmp::PartialOrdSpec;

use crate::clock::{system_time_after_unix_epoch, unix_clock_reading};
use crate::span::TimeSpan;

verus! {

/// Seconds between the NTP epoch (1 January 1900) and the Unix epoch
/// (1 January 1970).
pub const NTP_EPOCH_DELTA_SECS: u64 = 2_208_988_800;

/// Number of fraction ticks in one second: the fraction counts units of 2^-32 s.
pub const FRACTION_SCALE: u64 = 0x1_0000_0000;

const SEC_AS_MS: u64 = 1_000;

const SEC_AS_US: u64 = 1_000_000;

const SEC_AS_NS: u64 = 1_000_000_000;

const SEC_AS_PS: u64 = 1_000_000_000_000;

const FRACTION_BITMASK: u64 = 0x0000_0000_FFFF_FFFF;

const SECONDS_BITMASK: u64 = 0xFFFF_FFFF_0000_0000;

/// The 64-bit packed form of a timestamp: seconds in the high half, fraction
/// in the low half.
pub open spec fn packed(seconds: u32, fraction: u32) -> nat {
    seconds as nat * 0x1_0000_0000 + fraction as nat
}

/// A fraction of `fraction / 2^32` seconds expressed in a unit of which a second
/// holds `per_second`, truncated toward zero.
pub open spec fn fraction_ticks_to_unit(fraction: u32, per_second: nat) -> nat {
    (fraction as nat * per_second) / 0x1_0000_0000
}

/// The NTP seconds field for a count of seconds since the Unix epoch: the
/// epoch delta is added and the sum wraps modulo 2^32.
pub open spec fn unix_seconds_to_ntp(unix_seconds: nat) -> nat {
    ((unix_seconds + NTP_EPOCH_DELTA_SECS) % 0x1_0000_0000) as nat
}

/// Whole seconds since the Unix epoch for an NTP timestamp. Seconds before the
/// Unix epoch saturate at zero; the fraction adds one second only when it is
/// `u32::MAX` (it is divided by `u32::MAX`, not by 2^32).
pub open spec fn ntp_seconds_to_unix(seconds: u32, fraction: u32) -> nat {
    (if seconds >= NTP_EPOCH_DELTA_SECS {
        (seconds - NTP_EPOCH_DELTA_SECS) as nat
    } else {
        0
    }) + fraction as nat / 0xFFFF_FFFF
}

/// A whole number of microseconds (below one second) as a 32-bit binary
/// fraction of a second, truncated toward zero.
pub open spec fn micros_to_fraction(micros: nat) -> nat {
    (micros * 0x1_0000_0000) / 1_000_000
}

/// An NTP timestamp: whole seconds since the NTP epoch and a binary fraction of
/// a second. Every pair of fields is valid. Equality and the derived `Ord`
/// compare `seconds` first and then `fraction`.
#[derive(Copy, Clone, Debug, PartialEq, Eq, Structural, Ord, Hash)]
pub struct NTPTimestamp {
    seconds: u32,
    fraction: u32,
}

impl NTPTimestamp {
    /// The seconds field.
    pub closed spec fn spec_seconds(self) -> u32 {
        self.seconds
    }

    /// The fraction field.
    pub closed spec fn spec_fraction(self) -> u32 {
        self.fraction
    }

    /// The timestamp as its 64-bit packed value.
    pub open spec fn spec_packed(self) -> nat {
        packed(self.spec_seconds(), self.spec_fraction())
    }

    /// Builds a timestamp from its two fields.
    pub fn new(seconds: u32, fraction: u32) -> (r: Self)
        ensures
            r.spec_seconds() == seconds,
            r.spec_fraction() == fraction,
    {
        Self { seconds, fraction }
    }

    /// Packs two 32-bit halves into one 64-bit value, `high` in the upper bits.
    fn encode_to_u64(high: u32, low: u32) -> (r: u64)
        ensures
            r == packed(high, low),
    {
        let h: u64 = high as u64;
        let l: u64 = low as u64;
        assert((h << 32u64) | l == h * 0x1_0000_0000 + l) by (bit_vector)
            requires
                h <= 0xFFFF_FFFF,
                l <= 0xFFFF_FFFF,
        ;
        (h << 32u64) | l
    }

    /// Splits a 64-bit value into its upper half (seconds) and lower half
    /// (fraction).
    fn decode_from_u64(ts: u64) -> (r: Self)
        ensures
            r.spec_seconds() == ts / 0x1_0000_0000,
            r.spec_fraction() == ts % 0x1_0000_0000,
    {
        assert(((ts & SECONDS_BITMASK) >> 32u64) == ts / 0x1_0000_0000) by (bit_vector);
        assert((ts & FRACTION_BITMASK) == ts % 0x1_0000_0000) by (bit_vector);
        let seconds = ((ts & SECONDS_BITMASK) >> 32u64) as u32;
        let fraction = (ts & FRACTION_BITMASK) as u32;
        Self::new(seconds, fraction)
    }

    /// The timestamp as a 64-bit NTP timestamp: `(seconds << 32) | fraction`.
    pub fn timestamp(&self) -> (r: u64)
        ensures
            r == self.spec_packed(),
    {
        Self::encode_to_u64(self.seconds, self.fraction)
    }

    /// Reads a 64-bit NTP timestamp: the upper 32 bits are the seconds, the
    /// lower 32 bits the fraction. Every value is valid.
    pub fn from_ntp_timestamp(ts: u64) -> (r: Self)
        ensures
            r.spec_seconds() == ts / 0x1_0000_0000,
            r.spec_fraction() == ts % 0x1_0000_0000,
            r.spec_packed() == ts,
    {
        Self::decode_from_u64(ts)
    }

    /// The seconds field.
    pub fn seconds(&self) -> (r: u32)
        ensures
            r == self.spec_seconds(),
    {
        self.seconds
    }

    /// The fraction field, in units of 2^-32 seconds.
    pub fn fraction(&self) -> (r: u32)
        ensures
            r == self.spec_fraction(),
    {
        self.fraction
    }

    /// The fraction as whole milliseconds: `(fraction * 1_000) >> 32`.
    pub fn fraction_as_ms(&self) -> (r: u64)
        ensures
            r == fraction_ticks_to_unit(self.spec_fraction(), 1_000),
            r < 1_000,
    {
        let f: u64 = self.fraction as u64;
        assert(f * 1_000 < 1_000 * 0x1_0000_0000) by (nonlinear_arith)
            requires
                f < 0x1_0000_0000,
        ;
        (f * SEC_AS_MS) / FRACTION_SCALE
    }

    /// The fraction as whole microseconds: `(fraction * 1_000_000) >> 32`.
    pub fn fraction_as_us(&self) -> (r: u64)
        ensures
            r == fraction_ticks_to_unit(self.spec_fraction(), 1_000_000),
            r < 1_000_000,
    {
        let f: u64 = self.fraction as u64;
        assert(f * 1_000_000 < 1_000_000 * 0x1_0000_0000) by (nonlinear_arith)
            requires
                f < 0x1_0000_0000,
        ;
        (f * SEC_AS_US) / FRACTION_SCALE
    }

    /// The fraction as whole nanoseconds: `(fraction * 1_000_000_000) >> 32`.
    pub fn fraction_as_ns(&self) -> (r: u64)
        ensures
            r == fraction_ticks_to_unit(self.spec_fraction(), 1_000_000_000),
            r < 1_000_000_000,
    {
        let f: u64 = self.fraction as u64;
        assert(f * 1_000_000_000 < 1_000_000_000 * 0x1_0000_0000) by (nonlinear_arith)
            requires
                f < 0x1_0000_0000,
        ;
        (f * SEC_AS_NS) / FRACTION_SCALE
    }

    /// The fraction as whole picoseconds: `(fraction * 10^12) >> 32`, computed
    /// in 128 bits since the product exceeds 64 bits.
    pub fn fraction_as_ps(&self) -> (r: u64)
        ensures
            r == fraction_ticks_to_unit(self.spec_fraction(), 1_000_000_000_000),
            r < 1_000_000_000_000,
    {
        let f: u128 = self.fraction as u128;
        assert(f * 1_000_000_000_000 < 1_000_000_000_000 * 0x1_0000_0000) by (nonlinear_arith)
            requires
                f < 0x1_0000_0000,
        ;
        let ps: u128 = (f * (SEC_AS_PS as u128)) / (FRACTION_SCALE as u128);
        assert(ps < 1_000_000_000_000) by (nonlinear_arith)
            requires
                ps == (f * 1_000_000_000_000) / 0x1_0000_0000,
                f * 1_000_000_000_000 < 1_000_000_000_000 * 0x1_0000_0000,
        ;
        ps as u64
    }

    /// The whole timestamp in nanoseconds since the NTP epoch:
    /// `seconds * 1_000_000_000 + fraction_as_ns()`. Every timestamp fits.
    pub fn as_nanoseconds(&self) -> (r: u64)
        ensures
            r == self.spec_seconds() * 1_000_000_000nat + fraction_ticks_to_unit(
                self.spec_fraction(),
                1_000_000_000,
            ),
    {
        let s: u64 = self.seconds as u64;
        assert(s * 1_000_000_000 <= 0xFFFF_FFFF * 1_000_000_000) by (nonlinear_arith)
            requires
                s <= 0xFFFF_FFFF,
        ;
        s * SEC_AS_NS + self.fraction_as_ns()
    }

    /// The NTP seconds field for `ts` seconds since the Unix epoch: the epoch
    /// delta is added and the sum wraps modulo 2^32.
    fn from_unix_sec(ts: u64) -> (r: u32)
        ensures
            r == unix_seconds_to_ntp(ts as nat),
    {
        let low: u64 = ts % FRACTION_SCALE;
        assert((low + NTP_EPOCH_DELTA_SECS) % 0x1_0000_0000 == (ts + NTP_EPOCH_DELTA_SECS) % 0x1_0000_0000) by {
            vstd::arithmetic::div_mod::lemma_add_mod_noop(ts as int, NTP_EPOCH_DELTA_SECS as int, 0x1_0000_0000);
            vstd::arithmetic::div_mod::lemma_add_mod_noop(low as int, NTP_EPOCH_DELTA_SECS as int, 0x1_0000_0000);
            vstd::arithmetic::div_mod::lemma_mod_twice(ts as int, 0x1_0000_0000);
        }
        ((low + NTP_EPOCH_DELTA_SECS) % FRACTION_SCALE) as u32
    }

    /// Microseconds below one second as a binary fraction:
    /// `micros * 2^32 / 1_000_000`, truncated.
    fn micros_fraction(micros: u32) -> (r: u32)
        requires
            micros < 1_000_000,
        ensures
            r == micros_to_fraction(micros as nat),
    {
        let us: u64 = micros as u64;
        assert(us * 0x1_0000_0000 < 1_000_000 * 0x1_0000_0000) by (nonlinear_arith)
            requires
                us < 1_000_000,
        ;
        let f: u64 = (us * FRACTION_SCALE) / (SEC_AS_US);
        assert(f < 0x1_0000_0000) by (nonlinear_arith)
            requires
                f == (us * 0x1_0000_0000) / 1_000_000,
                us * 0x1_0000_0000 < 1_000_000 * 0x1_0000_0000,
        ;
        f as u32
    }

    /// The timestamp for `ts` whole seconds since the Unix epoch, with a zero
    /// fraction. Seconds past the 32-bit range wrap.
    pub fn from_unix_timestamp(ts: u64) -> (r: Self)
        ensures
            r.spec_seconds() == unix_seconds_to_ntp(ts as nat),
            r.spec_fraction() == 0,
    {
        let seconds = Self::from_unix_sec(ts);
        Self::new(seconds, 0)
    }

    /// Whole seconds since the Unix epoch. A timestamp before the Unix epoch
    /// gives zero (the subtraction saturates). The fraction is divided by
    /// `u32::MAX`, so it adds one second only when it is `u32::MAX`.
    pub fn to_unix_timestamp(&self) -> (r: u64)
        ensures
            r == ntp_seconds_to_unix(self.spec_seconds(), self.spec_fraction()),
    {
        let s: u64 = self.seconds as u64;
        let seconds: u64 = if s >= NTP_EPOCH_DELTA_SECS {
            s - NTP_EPOCH_DELTA_SECS
        } else {
            0
        };
        let fraction: u64 = (self.fraction as u64) / (u32::MAX as u64);
        seconds + fraction
    }

    /// The timestamp for a span since the Unix epoch: the seconds as
    /// `from_unix_timestamp` gives them, and the span's whole microseconds
    /// rescaled into the binary fraction.
    pub fn from_unix_duration(duration: &TimeSpan) -> (r: Self)
        ensures
            r.spec_seconds() == unix_seconds_to_ntp(duration.spec_secs() as nat),
            r.spec_fraction() == micros_to_fraction(duration.spec_nanos() as nat / 1_000),
    {
        let seconds = Self::from_unix_sec(duration.as_secs());
        let fraction = Self::micros_fraction(duration.subsec_micros());
        Self::new(seconds, fraction)
    }

    /// The timestamp for a span already counted from the NTP epoch: the whole
    /// seconds truncated to 32 bits, and the span's whole microseconds
    /// rescaled into the binary fraction.
    pub fn from_duration(duration: &TimeSpan) -> (r: Self)
        ensures
            r.spec_seconds() == duration.spec_secs() % 0x1_0000_0000,
            r.spec_fraction() == micros_to_fraction(duration.spec_nanos() as nat / 1_000),
    {
        let seconds = (duration.as_secs() % FRACTION_SCALE) as u32;
        let fraction = Self::micros_fraction(duration.subsec_micros());
        Self::new(seconds, fraction)
    }

    /// The timestamp as a span since the NTP epoch: the seconds, and the
    /// fraction in whole nanoseconds (sub-nanosecond bits are dropped).
    pub fn to_duration(&self) -> (r: TimeSpan)
        ensures
            r.spec_secs() == self.spec_seconds(),
            r.spec_nanos() == fraction_ticks_to_unit(self.spec_fraction(), 1_000_000_000),
    {
        let nanos = self.fraction_as_ns();
        TimeSpan::new(self.seconds as u64, nanos as u32)
    }

    /// The current time of the host clock.
    ///
    /// # Panics
    ///
    /// Panics if the host clock reads earlier than the Unix epoch.
    pub fn now() -> (r: Self)
        ensures
            exists|secs: u64, micros: u32|
                #![trigger unix_seconds_to_ntp(secs as nat), micros_to_fraction(micros as nat)]
                micros < 1_000_000 && r.spec_seconds() == unix_seconds_to_ntp(secs as nat)
                    && r.spec_fraction() == micros_to_fraction(micros as nat),
    {
        let reading = TimeSpan::from_std(&unix_clock_reading());
        let r = Self::from_unix_duration(&reading);
        let micros = reading.subsec_micros();
        assert(unix_seconds_to_ntp(reading.spec_secs() as nat) == r.spec_seconds());
        assert(micros_to_fraction(micros as nat) == r.spec_fraction());
        r
    }

    /// The NTP epoch, 1 January 1900, as a std `SystemTime`.
    pub fn ntp_epoch() -> (r: SystemTime) {
        system_time_after_unix_epoch(NTP_EPOCH_DELTA_SECS)
    }
}

impl Default for NTPTimestamp {
    /// The current time of the host clock, as `now` gives it.
    fn default() -> (r: Self)
        ensures
            exists|secs: u64, micros: u32|
                #![trigger unix_seconds_to_ntp(secs as nat), micros_to_fraction(micros as nat)]
                micros < 1_000_000 && r.spec_seconds() == unix_seconds_to_ntp(secs as nat)
                    && r.spec_fraction() == micros_to_fraction(micros as nat),
    {
        Self::now()
    }
}

/// `r` is the timestamp for a span of `secs` seconds and `nanos` nanoseconds
/// counted from the Unix epoch, as `from_unix_duration` gives it.
pub open spec fn is_unix_span_timestamp(r: NTPTimestamp, secs: nat, nanos: nat) -> bool {
    r.spec_seconds() == unix_seconds_to_ntp(secs) && r.spec_fraction() == micros_to_fraction(
        nanos / 1_000,
    )
}

/// `r` is the timestamp for a span of `secs` seconds and `nanos` nanoseconds
/// counted from the NTP epoch, as `from_duration` gives it.
pub open spec fn is_ntp_span_timestamp(r: NTPTimestamp, secs: nat, nanos: nat) -> bool {
    r.spec_seconds() == secs % 0x1_0000_0000 && r.spec_fraction() == micros_to_fraction(
        nanos / 1_000,
    )
}

/// Conversions of a span of time into an NTP timestamp.
pub trait DurationExt {
    /// What `ntp_from_unix` may return for this span.
    spec fn ntp_from_unix_result(&self, r: NTPTimestamp) -> bool;

    /// What `ntp_timestamp` may return for this span.
    spec fn ntp_timestamp_result(&self, r: NTPTimestamp) -> bool;

    /// The timestamp for this span counted from the Unix epoch.
    fn ntp_from_unix(&self) -> (r: NTPTimestamp)
        ensures
            self.ntp_from_unix_result(r),
    ;

    /// The timestamp for this span counted from the NTP epoch.
    fn ntp_timestamp(&self) -> (r: NTPTimestamp)
        ensures
            self.ntp_timestamp_result(r),
    ;
}

impl DurationExt for TimeSpan {
    open spec fn ntp_from_unix_result(&self, r: NTPTimestamp) -> bool {
        is_unix_span_timestamp(r, self.spec_secs() as nat, self.spec_nanos() as nat)
    }

    open spec fn ntp_timestamp_result(&self, r: NTPTimestamp) -> bool {
        is_ntp_span_timestamp(r, self.spec_secs() as nat, self.spec_nanos() as nat)
    }

    fn ntp_from_unix(&self) -> (r: NTPTimestamp) {
        NTPTimestamp::from_unix_duration(self)
    }

    fn ntp_timestamp(&self) -> (r: NTPTimestamp) {
        NTPTimestamp::from_duration(self)
    }
}

/// What a std `Duration` holds is opaque here, so of its conversions only the
/// shape is stated: some whole seconds and some nanoseconds below one second.
impl DurationExt for Duration {
    open spec fn ntp_from_unix_result(&self, r: NTPTimestamp) -> bool {
        exists|secs: u64, nanos: u32|
            #![trigger is_unix_span_timestamp(r, secs as nat, nanos as nat)]
            nanos < 1_000_000_000 && is_unix_span_timestamp(r, secs as nat, nanos as nat)
    }

    open spec fn ntp_timestamp_result(&self, r: NTPTimestamp) -> bool {
        exists|secs: u64, nanos: u32|
            #![trigger is_ntp_span_timestamp(r, secs as nat, nanos as nat)]
            nanos < 1_000_000_000 && is_ntp_span_timestamp(r, secs as nat, nanos as nat)
    }

    fn ntp_from_unix(&self) -> (r: NTPTimestamp) {
        let span = TimeSpan::from_std(self);
        let r = NTPTimestamp::from_unix_duration(&span);
        assert(is_unix_span_timestamp(r, span.spec_secs() as nat, span.spec_nanos() as nat));
        r
    }

    fn ntp_timestamp(&self) -> (r: NTPTimestamp) {
        let span = TimeSpan::from_std(self);
        let r = NTPTimestamp::from_duration(&span);
        assert(is_ntp_span_timestamp(r, span.spec_secs() as nat, span.spec_nanos() as nat));
        r
    }
}

/// The order of timestamps: by seconds, then by fraction.
pub open spec fn timestamp_cmp(a: NTPTimestamp, b: NTPTimestamp) -> Ordering {
    if a.spec_seconds() < b.spec_seconds() {
        Ordering::Less
    } else if a.spec_seconds() > b.spec_seconds() {
        Ordering::Greater
    } else if a.spec_fraction() < b.spec_fraction() {
        Ordering::Less
    } else if a.spec_fraction() > b.spec_fraction() {
        Ordering::Greater
    } else {
        Ordering::Equal
    }
}

impl PartialOrd for NTPTimestamp {
    fn partial_cmp(&self, other: &NTPTimestamp) -> (r: Option<Ordering>) {
        if self.seconds < other.seconds {
            Some(Ordering::Less)
        } else if self.seconds > other.seconds {
            Some(Ordering::Greater)
        } else if self.fraction < other.fraction {
            Some(Ordering::Less)
        } else if self.fraction > other.fraction {
            Some(Ordering::Greater)
        } else {
            Some(Ordering::Equal)
        }
    }
}

impl vstd::std_specs::cmp::PartialOrdSpecImpl for NTPTimestamp {
    open spec fn obeys_partial_cmp_spec() -> bool {
        true
    }

    open spec fn partial_cmp_spec(&self, other: &NTPTimestamp) -> Option<Ordering> {
        Some(timestamp_cmp(*self, *other))
    }
}

/// Packing a pair of fields and unpacking the result gives the same pair back,
/// and unpacking any 64-bit value and packing the halves gives that value back:
/// the packed form and the pairs of fields are in one-to-one correspondence.
pub proof fn lemma_packed_round_trip(seconds: u32, fraction: u32, raw: u64)
    ensures
        packed(seconds, fraction) <= u64::MAX,
        packed(seconds, fraction) / 0x1_0000_0000 == seconds,
        packed(seconds, fraction) % 0x1_0000_0000 == fraction,
        packed((raw / 0x1_0000_0000) as u32, (raw % 0x1_0000_0000) as u32) == raw,
{
    let p = packed(seconds, fraction);
    assert(p <= u64::MAX) by (nonlinear_arith)
        requires
            p == seconds * 0x1_0000_0000 + fraction,
            seconds <= 0xFFFF_FFFF,
            fraction <= 0xFFFF_FFFF,
    ;
    vstd::arithmetic::div_mod::lemma_fundamental_div_mod_converse(
        p as int,
        0x1_0000_0000,
        seconds as int,
        fraction as int,
    );
    vstd::arithmetic::div_mod::lemma_fundamental_div_mod(raw as int, 0x1_0000_0000);
    assert(raw / 0x1_0000_0000 <= 0xFFFF_FFFF) by (nonlinear_arith)
        requires
            raw <= u64::MAX,
    ;
}

/// Timestamps are ordered by seconds, then by fraction, which is exactly the
/// numeric order of their packed 64-bit values.
pub proof fn lemma_order_is_packed_order(a: NTPTimestamp, b: NTPTimestamp)
    ensures
        (a.partial_cmp_spec(&b) == Some(Ordering::Less)) <==> (a.spec_seconds() < b.spec_seconds()
            || (a.spec_seconds() == b.spec_seconds() && a.spec_fraction() < b.spec_fraction())),
        (a.partial_cmp_spec(&b) == Some(Ordering::Less)) <==> a.spec_packed() < b.spec_packed(),
        (a.partial_cmp_spec(&b) == Some(Ordering::Equal)) <==> a == b,
{
    let (sa, fa, sb, fb) = (
        a.spec_seconds() as int,
        a.spec_fraction() as int,
        b.spec_seconds() as int,
        b.spec_fraction() as int,
    );
    assert((sa * 0x1_0000_0000 + fa < sb * 0x1_0000_0000 + fb)
        <==> (sa < sb || (sa == sb && fa < fb))) by (nonlinear_arith)
        requires
            0 <= fa < 0x1_0000_0000,
            0 <= fb < 0x1_0000_0000,
    ;
}

/// A clock reading taken after the Unix epoch, and before the seconds field
/// wraps in 2036, gives a timestamp at least the epoch delta past the NTP
/// epoch.
pub proof fn lemma_unix_reading_after_epoch_delta(unix_seconds: u64)
    requires
        unix_seconds + NTP_EPOCH_DELTA_SECS < 0x1_0000_0000,
    ensures
        unix_seconds_to_ntp(unix_seconds as nat) >= NTP_EPOCH_DELTA_SECS,
{
}

} // verus!
