use spectral_stretch::binary32::{Binary32, INFINITY_BITS, SIGN_BIT};

fn word(value: f32) -> Binary32 {
    Binary32::from_bits(value.to_bits())
}

fn probes() -> Vec<f32> {
    let mut values: Vec<f32> = vec![
        0.0,
        -0.0,
        1.0,
        -1.0,
        0.5,
        -0.5,
        10.0,
        -10.0,
        32767.0,
        -32768.0,
        32767.5,
        -32768.5,
        f32::MIN_POSITIVE,
        -f32::MIN_POSITIVE,
        f32::MAX,
        f32::MIN,
        f32::EPSILON,
        f32::INFINITY,
        f32::NEG_INFINITY,
        f32::NAN,
        -f32::NAN,
        f32::from_bits(1),
        f32::from_bits(0x8000_0001),
        f32::from_bits(0x7fc0_0001),
        f32::from_bits(0xffff_ffff),
        f32::from_bits(0x7f80_0001),
        f32::from_bits(0x007f_ffff),
        f32::from_bits(0x807f_ffff),
    ];
    let mut seed: u32 = 0x1234_5678;
    for _ in 0..200 {
        seed = seed.wrapping_mul(1_664_525).wrapping_add(1_013_904_223);
        values.push(f32::from_bits(seed));
    }
    values
}

#[test]
fn bits_round_trip() {
    for bits in [0u32, 1, 0x3f80_0000, 0x8000_0000, 0xffff_ffff] {
        assert_eq!(Binary32::from_bits(bits).to_bits(), bits);
        assert_eq!(Binary32::from_bits(bits).bits, bits);
    }
}

#[test]
fn constants_are_the_sign_bit_and_infinity() {
    assert_eq!(SIGN_BIT, (-0.0f32).to_bits());
    assert_eq!(INFINITY_BITS, f32::INFINITY.to_bits());
}

#[test]
fn is_nan_agrees_with_the_hardware() {
    for value in probes() {
        assert_eq!(word(value).is_nan(), value.is_nan(), "{:#x}", value.to_bits());
    }
}

#[test]
fn lt_agrees_with_the_hardware() {
    let values = probes();
    for a in values.iter() {
        for b in values.iter() {
            assert_eq!(
                word(*a).lt(word(*b)),
                *a < *b,
                "{:#x} < {:#x}",
                a.to_bits(),
                b.to_bits()
            );
        }
    }
}

#[test]
fn gt_agrees_with_the_hardware() {
    let values = probes();
    for a in values.iter() {
        for b in values.iter() {
            assert_eq!(
                word(*a).gt(word(*b)),
                *a > *b,
                "{:#x} > {:#x}",
                a.to_bits(),
                b.to_bits()
            );
        }
    }
}

#[test]
fn the_two_zeros_are_not_ordered() {
    assert!(!word(0.0).lt(word(-0.0)));
    assert!(!word(-0.0).lt(word(0.0)));
    assert!(!word(0.0).gt(word(-0.0)));
    assert!(!word(-0.0).gt(word(0.0)));
}

#[test]
fn nan_is_never_below_or_above_anything() {
    let nan = word(f32::NAN);
    for value in probes() {
        assert!(!nan.lt(word(value)));
        assert!(!nan.gt(word(value)));
        assert!(!word(value).lt(nan));
        assert!(!word(value).gt(nan));
    }
}

#[test]
fn infinities_are_the_ends_of_the_order() {
    assert!(word(f32::MAX).lt(word(f32::INFINITY)));
    assert!(word(f32::NEG_INFINITY).lt(word(f32::MIN)));
    assert!(!word(f32::INFINITY).lt(word(f32::INFINITY)));
}

#[test]
fn order_is_strict_and_transitive_on_the_probes() {
    let values = probes();
    for a in values.iter().take(40) {
        assert!(!word(*a).lt(word(*a)));
        for b in values.iter().take(40) {
            if word(*a).lt(word(*b)) {
                assert!(!word(*b).lt(word(*a)));
                for c in values.iter().take(40) {
                    if word(*b).lt(word(*c)) {
                        assert!(word(*a).lt(word(*c)));
                    }
                }
            }
        }
    }
}
