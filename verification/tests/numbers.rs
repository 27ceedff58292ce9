use style_property::Number;

fn wrap(x: f32) -> Number {
    Number(x.to_le_bytes())
}

fn unwrap(n: Number) -> f32 {
    f32::from_le_bytes(n.0)
}

#[test]
fn float_round_trip_is_bit_exact() {
    let values = [
        0.0f32,
        -0.0,
        1.0,
        -1.5,
        3.5,
        100.0,
        f32::MIN_POSITIVE,
        f32::MAX,
        f32::MIN,
        f32::INFINITY,
        f32::NEG_INFINITY,
        f32::EPSILON,
        1.0e-45,
    ];
    for x in values {
        assert_eq!(unwrap(wrap(x)).to_bits(), x.to_bits());
    }
}

#[test]
fn nan_payload_survives() {
    for bits in [0x7fc0_0000u32, 0x7fc0_0001, 0xffc1_2345, 0x7f80_0001, 0x7fff_ffff] {
        let x = f32::from_bits(bits);
        assert!(x.is_nan());
        assert_eq!(unwrap(wrap(x)).to_bits(), bits);
        assert_eq!(wrap(x).to_bits(), bits);
    }
}

#[test]
fn bits_round_trip() {
    for bits in [0u32, 1, 0x8000_0000, 0x3f80_0000, 0x4120_0000, 0x1234_5678, 0xffff_ffff] {
        assert_eq!(Number::from_bits(bits).to_bits(), bits);
        assert_eq!(Number::from_bits(bits), wrap(f32::from_bits(bits)));
    }
}

#[test]
fn bytes_are_little_endian() {
    assert_eq!(Number::from_bits(0x1234_5678).0, [0x78, 0x56, 0x34, 0x12]);
    assert_eq!(Number([0x78, 0x56, 0x34, 0x12]).to_bits(), 0x1234_5678);
    assert_eq!(wrap(1.0).0, [0x00, 0x00, 0x80, 0x3f]);
}

#[test]
fn signed_zeros_differ() {
    assert_ne!(wrap(0.0), wrap(-0.0));
    assert_eq!(wrap(0.0), wrap(0.0));
}

#[test]
fn nans_are_equal_by_bits() {
    let a = wrap(f32::from_bits(0x7fc0_0000));
    let b = wrap(f32::from_bits(0x7fc0_0000));
    let c = wrap(f32::from_bits(0x7fc0_0001));
    assert_eq!(a, b);
    assert_ne!(a, c);
}

#[test]
fn equal_numbers_hash_alike() {
    let mut seen = std::collections::HashSet::new();
    assert!(seen.insert(wrap(2.5)));
    assert!(!seen.insert(wrap(2.5)));
    assert!(seen.insert(wrap(-2.5)));
    assert!(seen.insert(wrap(0.0)));
    assert!(seen.insert(wrap(-0.0)));
    assert_eq!(seen.len(), 4);
}
