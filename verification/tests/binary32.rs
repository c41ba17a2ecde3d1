use luv::Binary32;

fn number(x: f32) -> Binary32 {
    Binary32::from_bits(x.to_bits())
}

fn samples() -> Vec<f32> {
    let mut all = vec![
        0.0_f32,
        -0.0,
        1.0,
        -1.0,
        8.0,
        216.0 / 24389.0,
        f32::MIN_POSITIVE,
        -f32::MIN_POSITIVE,
        f32::from_bits(1),
        f32::from_bits(0x8000_0001),
        f32::from_bits(0x007f_ffff),
        f32::MAX,
        f32::MIN,
        f32::EPSILON,
        f32::INFINITY,
        f32::NEG_INFINITY,
        f32::NAN,
        -f32::NAN,
        f32::from_bits(0x7f80_0001),
        f32::from_bits(0xff80_0001),
        f32::from_bits(0x7fff_ffff),
        f32::from_bits(0xffff_ffff),
    ];
    let mut state: u32 = 0x2545_f491;
    for _ in 0..300 {
        state ^= state << 13;
        state ^= state >> 17;
        state ^= state << 5;
        all.push(f32::from_bits(state));
    }
    all
}

#[test]
fn bits_go_in_and_out_unchanged() {
    for x in samples() {
        assert_eq!(x.to_bits(), number(x).to_bits());
        assert_eq!(x.to_bits(), number(x).bits);
    }
    assert_eq!(0, Binary32::default().to_bits());
}

#[test]
fn classes_agree_with_the_hardware() {
    for x in samples() {
        assert_eq!(x.is_nan(), number(x).is_nan());
        assert_eq!(x == 0.0, number(x).is_zero());
    }
    assert!(number(f32::NAN).is_nan());
    assert!(!number(f32::INFINITY).is_nan());
    assert!(number(-0.0).is_zero());
    assert!(!number(f32::from_bits(1)).is_zero());
}

#[test]
fn comparisons_agree_with_the_hardware() {
    let all = samples();
    for &a in all.iter() {
        for &b in all.iter() {
            assert_eq!(a == b, number(a) == number(b));
            assert_eq!(a != b, number(a) != number(b));
            assert_eq!(a < b, number(a).lt(number(b)));
            assert_eq!(a <= b, number(a).le(number(b)));
        }
    }
}

#[test]
fn comparisons_on_chosen_numbers() {
    assert!(number(0.0) == number(-0.0));
    assert!(number(f32::NAN) != number(f32::NAN));
    assert!(number(-1.0).lt(number(-0.5)));
    assert!(!number(-0.5).lt(number(-1.0)));
    assert!(!number(0.0).lt(number(-0.0)));
    assert!(number(0.0).le(number(-0.0)));
    assert!(number(f32::NEG_INFINITY).lt(number(f32::MIN)));
    assert!(number(f32::MAX).lt(number(f32::INFINITY)));
    assert!(!number(f32::NAN).le(number(f32::NAN)));
    assert!(!number(1.0).le(number(f32::NAN)));
    assert!(!number(f32::NAN).lt(number(1.0)));
}
