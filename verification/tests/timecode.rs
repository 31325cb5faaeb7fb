use victory_time_rs::Timecode;

#[test]
fn test_timecode_default() {
    let a = Timecode::default();
    assert_eq!(a.secs, 0);
    assert_eq!(a.nanos, 0);
}

#[test]
fn test_timecode_zero() {
    let a = Timecode::zero();
    assert_eq!(a.secs, 0);
    assert_eq!(a.nanos, 0);
}

#[test]
fn test_timecode_ns() {
    let a = Timecode::new(1, 500_000_000);
    assert_eq!(a.ns(), 1500000000);
}

#[test]
fn test_timecode_sub() {
    let a = Timecode::new(1, 0);
    let b = Timecode::new(0, 500_000_000);
    let c = a.sub(b);
    assert_eq!(c.secs, 0);
    assert_eq!(c.nanos, 500000000);
}

#[test]
fn test_timecode_sub_overflow() {
    let a = Timecode::new(1, 0);
    let b = Timecode::new(1, 0);
    let c = a.sub(b);
    assert_eq!(c.secs, 0);
    assert_eq!(c.nanos, 0);
}

#[test]
fn test_timecode_add() {
    let a = Timecode::new(1, 0);
    let b = Timecode::new(0, 500_000_000);
    let c = a.add(b);
    assert_eq!(c.secs, 1);
    assert_eq!(c.nanos, 500000000);
}

#[test]
fn test_parts_ns_round_trip() {
    let a = Timecode::new(5, 123_456_789);
    assert_eq!(a.ns(), 5 * 1_000_000_000 + 123_456_789);
}

#[test]
fn test_unit_equivalence_ns() {
    let a = Timecode::new(1, 500_000_000);
    let b = Timecode::new_ns(1_500_000_000);
    assert_eq!(a, b);
    let c = Timecode::new(2, 0);
    let d = Timecode::new_ns(2_000_000_000);
    assert_eq!(c, d);
}

#[test]
fn test_additive_identity() {
    let x = Timecode::new(3, 250_000_000);
    let z = Timecode::zero();
    assert_eq!(x.add(z), x);
    assert_eq!(x.sub(z), x);
}

#[test]
fn test_sub_saturates_at_zero() {
    let a = Timecode::new(0, 500_000_000);
    let b = Timecode::new(1, 0);
    let c = a.sub(b);
    assert_eq!(c.secs, 0);
    assert_eq!(c.nanos, 0);
}

#[test]
fn test_add_saturates_at_max() {
    let a = Timecode::new(u64::MAX, 999_999_999);
    let b = Timecode::new(0, 1);
    let c = a.add(b);
    assert_eq!(c.secs, u64::MAX);
    assert_eq!(c.nanos, 999_999_999);
}

#[test]
fn test_add_carries_remainder() {
    let a = Timecode::new(0, 600_000_000);
    let b = Timecode::new(0, 700_000_000);
    let c = a.add(b);
    assert_eq!(c.secs, 1);
    assert_eq!(c.nanos, 300_000_000);
}

#[test]
fn test_sub_borrows_remainder() {
    let a = Timecode::new(2, 100_000_000);
    let b = Timecode::new(0, 600_000_000);
    let c = a.sub(b);
    assert_eq!(c.secs, 1);
    assert_eq!(c.nanos, 500_000_000);
}

#[test]
fn test_new_ns_wraps_whole_seconds() {
    let too_wide: u128 = 18_446_744_073_709_551_616u128 * 1_000_000_000 + 5;
    let a = Timecode::new_ns(too_wide);
    assert_eq!(a.secs, 0);
    assert_eq!(a.nanos, 5);
}

#[test]
fn test_ordering_consistent_with_ns() {
    let a = Timecode::new(1, 2);
    let b = Timecode::new(1, 3);
    let c = Timecode::new(2, 0);
    assert!(a.less_than(&b));
    assert!(b.less_than(&c));
    assert!(a.less_than(&c));
    assert!(!c.less_than(&a));
    assert!(a.ns() < b.ns());
    assert!(b.ns() < c.ns());
    assert!(a.ns() < c.ns());
}
