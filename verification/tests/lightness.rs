use luv::lightness::{Segment, EPSILON_BITS, KAPPA_EPSILON_BITS, ZERO_BITS};
use luv::Binary32;

const EPSILON: f32 = 216.0 / 24389.0;
const KAPPA_EPSILON: f32 = 8.0;

fn number(x: f32) -> Binary32 {
    Binary32::from_bits(x.to_bits())
}

fn samples() -> Vec<f32> {
    let mut all = vec![
        0.0_f32,
        -0.0,
        f32::from_bits(1),
        -f32::MIN_POSITIVE,
        EPSILON,
        f32::from_bits(EPSILON.to_bits() - 1),
        f32::from_bits(EPSILON.to_bits() + 1),
        -EPSILON,
        0.18,
        1.0,
        7.9999995,
        8.0,
        8.000001,
        -8.0,
        100.0,
        f32::INFINITY,
        f32::NEG_INFINITY,
        f32::NAN,
        -f32::NAN,
    ];
    let mut state: u32 = 0x9e37_79b9;
    for _ in 0..2000 {
        state ^= state << 13;
        state ^= state >> 17;
        state ^= state << 5;
        all.push(f32::from_bits(state));
    }
    all
}

#[test]
fn thresholds_are_the_numbers_of_the_law() {
    assert_eq!(0.0_f32.to_bits(), ZERO_BITS);
    assert_eq!(EPSILON.to_bits(), EPSILON_BITS);
    assert_eq!(KAPPA_EPSILON.to_bits(), KAPPA_EPSILON_BITS);
    assert_eq!(0x3c11_1aa7, EPSILON_BITS);
    assert_eq!(0x4100_0000, KAPPA_EPSILON_BITS);
}

#[test]
fn segment_of_luminance_on_chosen_numbers() {
    assert_eq!(Segment::Black, Segment::of_luminance(number(0.0)));
    assert_eq!(Segment::Black, Segment::of_luminance(number(-0.0)));
    assert_eq!(Segment::Black, Segment::of_luminance(number(-0.25)));
    assert_eq!(Segment::Black, Segment::of_luminance(number(f32::NEG_INFINITY)));
    assert_eq!(Segment::Linear, Segment::of_luminance(number(f32::from_bits(1))));
    assert_eq!(Segment::Linear, Segment::of_luminance(number(0.004)));
    assert_eq!(Segment::Linear, Segment::of_luminance(number(EPSILON)));
    assert_eq!(Segment::CubeRoot, Segment::of_luminance(number(f32::from_bits(EPSILON_BITS + 1))));
    assert_eq!(Segment::CubeRoot, Segment::of_luminance(number(0.21264932)));
    assert_eq!(Segment::CubeRoot, Segment::of_luminance(number(1.0)));
    assert_eq!(Segment::CubeRoot, Segment::of_luminance(number(f32::INFINITY)));
    assert_eq!(Segment::CubeRoot, Segment::of_luminance(number(f32::NAN)));
}

#[test]
fn segment_of_lightness_on_chosen_numbers() {
    assert_eq!(Segment::Black, Segment::of_lightness(number(0.0)));
    assert_eq!(Segment::Black, Segment::of_lightness(number(-0.0)));
    assert_eq!(Segment::Black, Segment::of_lightness(number(-16.0)));
    assert_eq!(Segment::Linear, Segment::of_lightness(number(f32::from_bits(1))));
    assert_eq!(Segment::Linear, Segment::of_lightness(number(4.5)));
    assert_eq!(Segment::Linear, Segment::of_lightness(number(8.0)));
    assert_eq!(Segment::Linear, Segment::of_lightness(number(f32::NAN)));
    assert_eq!(Segment::CubeRoot, Segment::of_lightness(number(f32::from_bits(KAPPA_EPSILON_BITS + 1))));
    assert_eq!(Segment::CubeRoot, Segment::of_lightness(number(53.238235)));
    assert_eq!(Segment::CubeRoot, Segment::of_lightness(number(100.0)));
    assert_eq!(Segment::CubeRoot, Segment::of_lightness(number(f32::INFINITY)));
}

#[test]
fn segments_agree_with_the_hardware() {
    for y in samples() {
        let forward = if y <= 0.0 {
            Segment::Black
        } else if y <= EPSILON {
            Segment::Linear
        } else {
            Segment::CubeRoot
        };
        assert_eq!(forward, Segment::of_luminance(number(y)));
        let back = if y <= 0.0 {
            Segment::Black
        } else if y > KAPPA_EPSILON {
            Segment::CubeRoot
        } else {
            Segment::Linear
        };
        assert_eq!(back, Segment::of_lightness(number(y)));
    }
}

const KAPPA: f32 = 24389.0 / 27.0;

// Luminance Y and lightness L* of seventeen sRGB colours.
const LUMINANCE: [f32; 17] = [
    0.36154357, 0.045130707, 0.15178084, 0.015319134, 0.16709997, 0.060449857, 0.21264932,
    0.71516913, 0.072181515, 0.7873506, 0.28483093, 0.92781854, 0.0, 0.051269446, 0.21223073,
    0.5520114, 1.0,
];
const LIGHTNESS: [f32; 17] = [
    66.637695, 25.299875, 45.87715, 12.809523, 47.892532, 29.525677, 53.238235, 87.73554,
    32.298466, 91.11428, 60.32269, 97.139, 0.0, 27.09341, 53.192772, 79.15698, 100.0,
];

fn lightness(y: f32) -> f32 {
    match Segment::of_luminance(number(y)) {
        Segment::Black => 0.0,
        Segment::Linear => KAPPA * y,
        Segment::CubeRoot => y.powf(1.0 / 3.0).mul_add(116.0, -16.0),
    }
}

fn luminance(l: f32) -> f32 {
    match Segment::of_lightness(number(l)) {
        Segment::Black => 0.0,
        Segment::CubeRoot => ((l + 16.0) / 116.0).powi(3),
        Segment::Linear => l / KAPPA,
    }
}

#[test]
fn lightness_of_known_colours() {
    for (&y, &l) in LUMINANCE.iter().zip(LIGHTNESS.iter()) {
        assert!((lightness(y) - l).abs() <= 1e-4, "{} gives {}, not {}", y, lightness(y), l);
    }
    assert!((lightness(0.36154357) - 66.637695).abs() <= 1e-4);
    assert!((lightness(0.21264932) - 53.238235).abs() <= 1e-4);
    assert!((lightness(0.005) - 4.5164814).abs() <= 1e-5);
    assert_eq!(0.0, lightness(-0.5));
}

#[test]
fn luminance_of_known_colours() {
    for (&y, &l) in LUMINANCE.iter().zip(LIGHTNESS.iter()) {
        assert!((luminance(l) - y).abs() <= 1e-6, "{} gives {}, not {}", l, luminance(l), y);
    }
    assert!((luminance(4.5164814) - 0.005).abs() <= 1e-8);
    assert_eq!(0.0, luminance(-3.0));
}

#[test]
fn the_pieces_meet_where_the_law_says() {
    let below = f32::from_bits(EPSILON_BITS);
    let above = f32::from_bits(EPSILON_BITS + 1);
    assert_eq!(Segment::Linear, Segment::of_luminance(number(below)));
    assert_eq!(Segment::CubeRoot, Segment::of_luminance(number(above)));
    assert!((lightness(below) - 8.0).abs() <= 1e-5);
    assert!((lightness(above) - 8.0).abs() <= 1e-5);
    assert!((luminance(8.0) - EPSILON).abs() <= 1e-8);
    assert!((luminance(f32::from_bits(KAPPA_EPSILON_BITS + 1)) - EPSILON).abs() <= 1e-8);
}
