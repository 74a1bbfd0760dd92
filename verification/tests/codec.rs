use window_bridge::codec::{decode, encode};

#[test]
fn round_trip_zero() {
    let (p1, p2, p3, p4) = encode(0);
    assert_eq!((p1, p2, p3, p4), (0, 0, 0, 0));
    assert_eq!(decode(p1, p2, p3, p4), 0);
}

#[test]
fn round_trip_max() {
    let (p1, p2, p3, p4) = encode(u128::MAX);
    assert_eq!((p1, p2, p3, p4), (u32::MAX, u32::MAX, u32::MAX, u32::MAX));
    assert_eq!(decode(p1, p2, p3, p4), u128::MAX);
}

#[test]
fn round_trip_mixed() {
    let r = 0x0123_4567_89ab_cdef_0fed_cba9_8765_4321u128;
    let (p1, p2, p3, p4) = encode(r);
    assert_eq!(p1, 0x0123_4567);
    assert_eq!(p2, 0x89ab_cdef);
    assert_eq!(p3, 0x0fed_cba9);
    assert_eq!(p4, 0x8765_4321);
    assert_eq!(decode(p1, p2, p3, p4), r);
}

#[test]
fn most_significant_word_first() {
    assert_eq!(decode(1, 0, 0, 0), 1u128 << 96);
    assert_eq!(decode(0, 1, 0, 0), 1u128 << 64);
    assert_eq!(decode(0, 0, 1, 0), 1u128 << 32);
    assert_eq!(decode(0, 0, 0, 1), 1);
}
