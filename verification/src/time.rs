//! Wire time codec.
//!
//! On the wire, durations and timestamps travel as a pair of a signed
//! 64-bit seconds count and a signed 32-bit nanoseconds count.  In process,
//! this layer commits to one consistent nanosecond-precision scheme:
//!
//! * a `Duration` is a signed 64-bit count of nanoseconds (about 292 years
//!   either way, ample for every timeout the protocol carries);
//! * an `Instant` is a signed count of nanoseconds since the Unix epoch,
//!   wide enough for every second value a wire timestamp can carry.
//!
//! `duration_from_wire` rejects, with a `RangeError`, any wire pair whose
//! combined magnitude does not fit the duration range; the check is exact,
//! never wrapping.  `instant_from_wire` rejects a timestamp whose
//! nanoseconds field lies outside `0..=999_999_999` (the wire convention:
//! the nanoseconds of a timestamp count forward from the start of the
//! second, even before the epoch).  Both conversions to the wire are exact
//! inverses of the conversions from it.

use vstd::arithmetic::div_mod::{lemma_fundamental_div_mod, lemma_fundamental_div_mod_converse};
use vstd::prelude::*;

use crate::errors::{DecodeError, RangeError, TimeField};

verus! {

/// A duration as it travels on the wire: whole seconds plus nanoseconds,
/// both signed, nanoseconds counted with the same sign as the seconds.
#[derive(Clone, Copy, PartialEq, Eq, Structural, Debug)]
pub struct WireDuration {
    pub seconds: i64,
    pub nanos: i32,
}

impl DeepView for WireDuration {
    type V = WireDuration;

    open spec fn deep_view(&self) -> WireDuration {
        *self
    }
}

/// A point in time as it travels on the wire: whole seconds since the Unix
/// epoch, plus nanoseconds counting forward from the start of that second
/// (so `nanos` is non-negative in a well-formed timestamp).
#[derive(Clone, Copy, PartialEq, Eq, Structural, Debug)]
pub struct WireTimestamp {
    pub seconds: i64,
    pub nanos: i32,
}

impl DeepView for WireTimestamp {
    type V = WireTimestamp;

    open spec fn deep_view(&self) -> WireTimestamp {
        *self
    }
}

/// An in-process span of time: a signed count of nanoseconds.
#[derive(Clone, Copy, PartialEq, Eq, Structural, Debug)]
pub struct Duration {
    pub nanos: i64,
}

impl DeepView for Duration {
    type V = Duration;

    open spec fn deep_view(&self) -> Duration {
        *self
    }
}

/// An in-process point in time: a signed count of nanoseconds since the
/// Unix epoch.  Well-formed instants (see `instant_wf`) cover exactly the
/// range reachable from well-formed wire timestamps.
#[derive(Clone, Copy, PartialEq, Eq, Structural, Debug)]
pub struct Instant {
    pub epoch_nanos: i128,
}

impl DeepView for Instant {
    type V = Instant;

    open spec fn deep_view(&self) -> Instant {
        *self
    }
}

/// The combined nanosecond count of a wire seconds/nanoseconds pair.
pub open spec fn wire_total_nanos(seconds: i64, nanos: i32) -> int {
    seconds * 1_000_000_000 + nanos
}

/// The least epoch-nanosecond count a well-formed instant may hold:
/// the earliest wire timestamp, `i64::MIN` seconds even.
pub open spec fn min_instant_nanos() -> int {
    (-9223372036854775808int) * 1_000_000_000
}

/// The greatest epoch-nanosecond count a well-formed instant may hold:
/// the latest wire timestamp, `i64::MAX` seconds and 999 999 999
/// nanoseconds.
pub open spec fn max_instant_nanos() -> int {
    9223372036854775807int * 1_000_000_000 + 999_999_999
}

/// A well-formed instant lies in the range that wire timestamps can
/// express.
pub open spec fn instant_wf(i: Instant) -> bool {
    min_instant_nanos() <= i.epoch_nanos <= max_instant_nanos()
}

/// What `duration_from_wire` returns: the combined nanosecond count when
/// it fits the duration range, a `RangeError` carrying the raw wire values
/// otherwise.
pub open spec fn spec_duration_from_wire(w: WireDuration) -> Result<Duration, RangeError> {
    let total = wire_total_nanos(w.seconds, w.nanos);
    if i64::MIN <= total <= i64::MAX {
        Ok(Duration { nanos: total as i64 })
    } else {
        Err(RangeError { seconds: w.seconds, nanos: w.nanos })
    }
}

/// What `duration_to_wire` returns: the nanosecond count split into whole
/// seconds and a remainder of fewer than a billion nanoseconds, both
/// carrying the sign of the duration.
pub open spec fn spec_duration_to_wire(d: Duration) -> WireDuration {
    let t = d.nanos as int;
    if t >= 0 {
        WireDuration { seconds: (t / 1_000_000_000) as i64, nanos: (t % 1_000_000_000) as i32 }
    } else {
        WireDuration {
            seconds: (-((-t) / 1_000_000_000)) as i64,
            nanos: (-((-t) % 1_000_000_000)) as i32,
        }
    }
}

/// What `instant_from_wire` returns: the epoch-nanosecond count when the
/// wire nanoseconds field is in `0..=999_999_999`, a `RangeError` carrying
/// the raw wire values otherwise.
pub open spec fn spec_instant_from_wire(w: WireTimestamp) -> Result<Instant, RangeError> {
    if 0 <= w.nanos < 1_000_000_000 {
        Ok(Instant { epoch_nanos: wire_total_nanos(w.seconds, w.nanos) as i128 })
    } else {
        Err(RangeError { seconds: w.seconds, nanos: w.nanos })
    }
}

/// What `instant_to_wire` returns: the epoch-nanosecond count split by
/// Euclidean division into whole seconds and a non-negative sub-second
/// remainder, the wire convention for timestamps.
pub open spec fn spec_instant_to_wire(i: Instant) -> WireTimestamp {
    let e = i.epoch_nanos as int;
    WireTimestamp { seconds: (e / 1_000_000_000) as i64, nanos: (e % 1_000_000_000) as i32 }
}

/// Converts a wire duration to an in-process duration.  Fails with a
/// `RangeError` exactly when the combined nanosecond count of the pair
/// does not fit the signed 64-bit duration range; the check is exact,
/// never wrapping.
pub fn duration_from_wire(seconds: i64, nanos: i32) -> (r: Result<Duration, RangeError>)
    ensures
        r == spec_duration_from_wire(WireDuration { seconds, nanos }),
{
    let total: i128 = (seconds as i128) * 1_000_000_000 + (nanos as i128);
    if (i64::MIN as i128) <= total && total <= (i64::MAX as i128) {
        Ok(Duration { nanos: total as i64 })
    } else {
        Err(RangeError { seconds, nanos })
    }
}

/// Converts an in-process duration to its wire pair.  Total: every
/// duration value this system can hold has a wire form, whose seconds and
/// nanoseconds carry the sign of the duration.
pub fn duration_to_wire(d: Duration) -> (r: WireDuration)
    ensures
        r == spec_duration_to_wire(d),
        wire_total_nanos(r.seconds, r.nanos) == d.nanos as int,
{
    let t: i128 = d.nanos as i128;
    let m: u128 = if t >= 0 {
        t as u128
    } else {
        (-t) as u128
    };
    let s: u128 = m / 1_000_000_000;
    let n: u128 = m % 1_000_000_000;
    proof {
        lemma_fundamental_div_mod(m as int, 1_000_000_000);
    }
    if t >= 0 {
        WireDuration { seconds: s as i64, nanos: n as i32 }
    } else {
        WireDuration { seconds: -(s as i64), nanos: -(n as i32) }
    }
}

/// Converts a wire timestamp to an in-process instant.  Fails with a
/// `RangeError` exactly when the wire nanoseconds field lies outside
/// `0..=999_999_999`; every accepted timestamp yields a well-formed
/// instant.
pub fn instant_from_wire(seconds: i64, nanos: i32) -> (r: Result<Instant, RangeError>)
    ensures
        r == spec_instant_from_wire(WireTimestamp { seconds, nanos }),
        r matches Ok(i) ==> instant_wf(i),
{
    if 0 <= nanos && nanos < 1_000_000_000 {
        Ok(Instant { epoch_nanos: (seconds as i128) * 1_000_000_000 + (nanos as i128) })
    } else {
        Err(RangeError { seconds, nanos })
    }
}

/// Converts a well-formed in-process instant to its wire timestamp: whole
/// seconds since the epoch and a non-negative sub-second remainder.
pub fn instant_to_wire(i: Instant) -> (r: WireTimestamp)
    requires
        instant_wf(i),
    ensures
        r == spec_instant_to_wire(i),
        0 <= r.nanos < 1_000_000_000,
        wire_total_nanos(r.seconds, r.nanos) == i.epoch_nanos as int,
{
    let e: i128 = i.epoch_nanos;
    if e >= 0 {
        let m: u128 = e as u128;
        let s: u128 = m / 1_000_000_000;
        let n: u128 = m % 1_000_000_000;
        proof {
            lemma_fundamental_div_mod(m as int, 1_000_000_000);
            lemma_fundamental_div_mod_converse(e as int, 1_000_000_000, s as int, n as int);
        }
        WireTimestamp { seconds: s as i64, nanos: n as i32 }
    } else {
        let m: u128 = (-e) as u128;
        let ceil: u128 = (m + 999_999_999) / 1_000_000_000;
        let s: i128 = -(ceil as i128);
        let n: i128 = e - s * 1_000_000_000;
        proof {
            lemma_fundamental_div_mod((m + 999_999_999) as int, 1_000_000_000);
            lemma_fundamental_div_mod_converse(e as int, 1_000_000_000, s as int, n as int);
        }
        WireTimestamp { seconds: s as i64, nanos: n as i32 }
    }
}

/// Round-trip law for durations: reading back the wire form of any
/// duration recovers that duration exactly.
pub proof fn lemma_duration_wire_round_trip(d: Duration)
    ensures
        spec_duration_from_wire(spec_duration_to_wire(d)) == Ok::<Duration, RangeError>(d),
{
    let t = d.nanos as int;
    if t >= 0 {
        lemma_fundamental_div_mod(t, 1_000_000_000);
    } else {
        lemma_fundamental_div_mod(-t, 1_000_000_000);
    }
}

/// Round-trip law for instants: reading back the wire form of any
/// well-formed instant recovers that instant exactly.
pub proof fn lemma_instant_wire_round_trip(i: Instant)
    requires
        instant_wf(i),
    ensures
        spec_instant_from_wire(spec_instant_to_wire(i)) == Ok::<Instant, RangeError>(i),
{
    let e = i.epoch_nanos as int;
    lemma_fundamental_div_mod(e, 1_000_000_000);
}

/// What decoding an optional wire duration field returns: `None` passes
/// through; an out-of-range pair fails the decode, naming the field.
pub open spec fn spec_decode_opt_duration(w: Option<WireDuration>, field: TimeField) -> Result<
    Option<Duration>,
    DecodeError,
> {
    match w {
        Option::None => Ok(Option::None),
        Option::Some(wd) => match spec_duration_from_wire(wd) {
            Ok(d) => Ok(Option::Some(d)),
            Err(e) => Err(DecodeError::TimeOutOfRange(field, e)),
        },
    }
}

/// What encoding an optional duration field returns; total.
pub open spec fn spec_encode_opt_duration(d: Option<Duration>) -> Option<WireDuration> {
    match d {
        Option::None => Option::None,
        Option::Some(dd) => Option::Some(spec_duration_to_wire(dd)),
    }
}

/// Decodes an optional wire duration field, naming the field in the error.
pub fn decode_opt_duration(w: Option<WireDuration>, field: TimeField) -> (r: Result<
    Option<Duration>,
    DecodeError,
>)
    ensures
        r == spec_decode_opt_duration(w, field),
{
    match w {
        Option::None => Ok(Option::None),
        Option::Some(wd) => match duration_from_wire(wd.seconds, wd.nanos) {
            Ok(d) => Ok(Option::Some(d)),
            Err(e) => Err(DecodeError::TimeOutOfRange(field, e)),
        },
    }
}

/// Encodes an optional duration field; total.
pub fn encode_opt_duration(d: Option<Duration>) -> (r: Option<WireDuration>)
    ensures
        r == spec_encode_opt_duration(d),
{
    match d {
        Option::None => Option::None,
        Option::Some(dd) => Option::Some(duration_to_wire(dd)),
    }
}

/// Round-trip law for optional duration fields.
pub proof fn lemma_opt_duration_round_trip(d: Option<Duration>, field: TimeField)
    ensures
        spec_decode_opt_duration(spec_encode_opt_duration(d), field) == Ok::<
            Option<Duration>,
            DecodeError,
        >(d),
{
    match d {
        Option::None => {
        },
        Option::Some(dd) => {
            lemma_duration_wire_round_trip(dd);
        },
    }
}

/// What decoding an optional wire timestamp field returns: `None` passes
/// through; a malformed timestamp fails the decode, naming the field.
pub open spec fn spec_decode_opt_instant(w: Option<WireTimestamp>, field: TimeField) -> Result<
    Option<Instant>,
    DecodeError,
> {
    match w {
        Option::None => Ok(Option::None),
        Option::Some(wt) => match spec_instant_from_wire(wt) {
            Ok(i) => Ok(Option::Some(i)),
            Err(e) => Err(DecodeError::TimeOutOfRange(field, e)),
        },
    }
}

/// What encoding an optional instant field returns; total over well-formed
/// instants.
pub open spec fn spec_encode_opt_instant(i: Option<Instant>) -> Option<WireTimestamp> {
    match i {
        Option::None => Option::None,
        Option::Some(ii) => Option::Some(spec_instant_to_wire(ii)),
    }
}

/// An optional instant field whose instant, if any, is well formed.
pub open spec fn opt_instant_wf(i: Option<Instant>) -> bool {
    match i {
        Option::None => true,
        Option::Some(ii) => instant_wf(ii),
    }
}

/// Decodes an optional wire timestamp field, naming the field in the
/// error.  Every decoded instant is well formed.
pub fn decode_opt_instant(w: Option<WireTimestamp>, field: TimeField) -> (r: Result<
    Option<Instant>,
    DecodeError,
>)
    ensures
        r == spec_decode_opt_instant(w, field),
        r matches Ok(i) ==> opt_instant_wf(i),
{
    match w {
        Option::None => Ok(Option::None),
        Option::Some(wt) => match instant_from_wire(wt.seconds, wt.nanos) {
            Ok(i) => Ok(Option::Some(i)),
            Err(e) => Err(DecodeError::TimeOutOfRange(field, e)),
        },
    }
}

/// Encodes an optional well-formed instant field.
pub fn encode_opt_instant(i: Option<Instant>) -> (r: Option<WireTimestamp>)
    requires
        opt_instant_wf(i),
    ensures
        r == spec_encode_opt_instant(i),
{
    match i {
        Option::None => Option::None,
        Option::Some(ii) => Option::Some(instant_to_wire(ii)),
    }
}

/// Round-trip law for optional instant fields.
pub proof fn lemma_opt_instant_round_trip(i: Option<Instant>, field: TimeField)
    requires
        opt_instant_wf(i),
    ensures
        spec_decode_opt_instant(spec_encode_opt_instant(i), field) == Ok::<
            Option<Instant>,
            DecodeError,
        >(i),
{
    match i {
        Option::None => {
        },
        Option::Some(ii) => {
            lemma_instant_wire_round_trip(ii);
        },
    }
}

} // verus!
