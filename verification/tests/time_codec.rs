//! Tests of the wire time codec: range checking and exact round trips.

use temporal_worker_protocol::errors::RangeError;
use temporal_worker_protocol::time::{
    duration_from_wire, duration_to_wire, instant_from_wire, instant_to_wire, Duration, Instant,
    WireDuration, WireTimestamp,
};

#[test]
fn duration_from_wire_rejects_extreme_pair() {
    let r = duration_from_wire(i64::MAX, 999_999_999);
    assert_eq!(r, Err(RangeError { seconds: i64::MAX, nanos: 999_999_999 }));
}

#[test]
fn duration_from_wire_rejects_extreme_negative_pair() {
    let r = duration_from_wire(i64::MIN, -999_999_999);
    assert_eq!(r, Err(RangeError { seconds: i64::MIN, nanos: -999_999_999 }));
}

#[test]
fn duration_zero_round_trips() {
    let d = duration_from_wire(0, 0).unwrap();
    assert_eq!(d, Duration { nanos: 0 });
    assert_eq!(duration_to_wire(d), WireDuration { seconds: 0, nanos: 0 });
}

#[test]
fn duration_positive_round_trips() {
    let d = duration_from_wire(90, 250_000_000).unwrap();
    assert_eq!(d, Duration { nanos: 90_250_000_000 });
    let w = duration_to_wire(d);
    assert_eq!(w, WireDuration { seconds: 90, nanos: 250_000_000 });
    assert_eq!(duration_from_wire(w.seconds, w.nanos), Ok(d));
}

#[test]
fn duration_negative_round_trips() {
    let d = duration_from_wire(-5, -500_000_000).unwrap();
    assert_eq!(d, Duration { nanos: -5_500_000_000 });
    let w = duration_to_wire(d);
    assert_eq!(w, WireDuration { seconds: -5, nanos: -500_000_000 });
    assert_eq!(duration_from_wire(w.seconds, w.nanos), Ok(d));
}

#[test]
fn duration_to_wire_splits_whole_seconds() {
    let w = duration_to_wire(Duration { nanos: 1_500_000_000 });
    assert_eq!(w, WireDuration { seconds: 1, nanos: 500_000_000 });
}

#[test]
fn duration_extremes_round_trip() {
    for nanos in [i64::MAX, i64::MIN, i64::MAX - 1, i64::MIN + 1, 999_999_999, -999_999_999] {
        let d = Duration { nanos };
        let w = duration_to_wire(d);
        assert_eq!(duration_from_wire(w.seconds, w.nanos), Ok(d));
    }
}

#[test]
fn instant_from_wire_accepts_epoch_offsets() {
    let i = instant_from_wire(1_600_000_000, 123).unwrap();
    assert_eq!(i, Instant { epoch_nanos: 1_600_000_000 * 1_000_000_000 + 123 });
    let w = instant_to_wire(i);
    assert_eq!(w, WireTimestamp { seconds: 1_600_000_000, nanos: 123 });
}

#[test]
fn instant_from_wire_rejects_out_of_range_nanos() {
    assert_eq!(
        instant_from_wire(7, 1_000_000_000),
        Err(RangeError { seconds: 7, nanos: 1_000_000_000 })
    );
    assert_eq!(instant_from_wire(7, -1), Err(RangeError { seconds: 7, nanos: -1 }));
}

#[test]
fn instant_before_epoch_round_trips() {
    let i = instant_from_wire(-1, 999_999_999).unwrap();
    assert_eq!(i, Instant { epoch_nanos: -1 });
    let w = instant_to_wire(i);
    assert_eq!(w, WireTimestamp { seconds: -1, nanos: 999_999_999 });
    assert_eq!(instant_from_wire(w.seconds, w.nanos), Ok(i));
}

#[test]
fn instant_extremes_round_trip() {
    for (seconds, nanos) in [(i64::MAX, 999_999_999), (i64::MIN, 0), (0, 0), (-12345, 678)] {
        let i = instant_from_wire(seconds, nanos).unwrap();
        let w = instant_to_wire(i);
        assert_eq!(w, WireTimestamp { seconds, nanos });
        assert_eq!(instant_from_wire(w.seconds, w.nanos), Ok(i));
    }
}
