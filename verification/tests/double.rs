use fm_bridge::Double;

const SAMPLES: [f64; 18] = [
    0.0,
    -0.0,
    1.0,
    -1.0,
    0.5,
    -0.5,
    0.1,
    120.0,
    240.0,
    -1e300,
    1e300,
    f64::MAX,
    f64::MIN,
    f64::MIN_POSITIVE,
    5e-324,
    f64::INFINITY,
    f64::NEG_INFINITY,
    f64::NAN,
];

fn double(x: f64) -> Double {
    Double::from_bits(x.to_bits())
}

#[test]
fn doubles_compare_as_floats_do() {
    for a in SAMPLES {
        for b in SAMPLES {
            assert_eq!(double(a).exceeds(double(b)), a > b, "{a} > {b}");
            assert_eq!(double(a) == double(b), a == b, "{a} == {b}");
        }
    }
}

#[test]
fn doubles_are_classified_as_floats_are() {
    for x in SAMPLES {
        assert_eq!(double(x).is_nan(), x.is_nan(), "{x}");
        assert_eq!(double(x).is_finite(), x.is_finite(), "{x}");
        assert_eq!(double(x).is_negative(), x < 0.0, "{x}");
    }
}

#[test]
fn neighbouring_bits_are_neighbouring_values() {
    for x in [1.0f64, 0.1, 5e-324, 1e300] {
        let above = Double::from_bits(x.to_bits() + 1);
        assert!(above.exceeds(double(x)));
        assert!(!double(x).exceeds(above));
        let below = Double::from_bits((-x).to_bits() + 1);
        assert!(double(-x).exceeds(below));
    }
}

#[test]
fn bits_are_kept() {
    assert_eq!(double(0.3).to_bits(), 0.3f64.to_bits());
    assert_eq!(double(1.0).bits, 0x3ff0_0000_0000_0000);
    assert_eq!(double(-2.0).to_bits(), 0xc000_0000_0000_0000);
}
