use carbon_sensor::number_representations::{bits_are_nan, greater_than, Unit, INFINITY_MAGNITUDE};

fn samples() -> Vec<f32> {
    let mut values = vec![
        0.0f32,
        -0.0,
        1.0,
        -1.0,
        0.5,
        -0.5,
        499.0,
        500.0,
        501.0,
        700.0,
        1000.0,
        1001.0,
        -1000.0,
        412.5,
        21.3,
        f32::MIN_POSITIVE,
        -f32::MIN_POSITIVE,
        f32::from_bits(1),
        f32::from_bits(0x8000_0001),
        f32::from_bits(0x007F_FFFF),
        f32::MAX,
        f32::MIN,
        f32::INFINITY,
        f32::NEG_INFINITY,
        f32::NAN,
        f32::from_bits(0x7F80_0001),
        f32::from_bits(0xFFFF_FFFF),
        f32::EPSILON,
    ];
    let mut bits: u32 = 0x1234_5678;
    for _ in 0..200 {
        bits = bits.wrapping_mul(1_664_525).wrapping_add(1_013_904_223);
        values.push(f32::from_bits(bits));
    }
    values
}

#[test]
fn greater_than_agrees_with_float_comparison() {
    let values = samples();
    for a in &values {
        for b in &values {
            assert_eq!(greater_than(a.to_bits(), b.to_bits()), a > b, "{} > {}", a, b);
        }
    }
}

#[test]
fn greater_than_on_chosen_values() {
    assert!(greater_than(0x447A_4000, 0x447A_0000));
    assert!(!greater_than(0x447A_0000, 0x447A_0000));
    assert!(!greater_than(0x43F9_8000, 0x43FA_0000));
    assert!(greater_than(0x0000_0001, 0x8000_0001));
    assert!(!greater_than(0x0000_0000, 0x8000_0000));
    assert!(!greater_than(0x8000_0000, 0x0000_0000));
    assert!(greater_than(0xBF80_0000, 0xC000_0000));
}

#[test]
fn nothing_compares_with_a_pattern_that_is_no_number() {
    let nan = f32::NAN.to_bits();
    assert!(!greater_than(nan, 0));
    assert!(!greater_than(0, nan));
    assert!(!greater_than(nan, nan));
    assert!(!greater_than(f32::INFINITY.to_bits(), nan));
}

#[test]
fn nan_patterns_are_those_beyond_infinity() {
    assert_eq!(INFINITY_MAGNITUDE, f32::INFINITY.to_bits());
    for value in samples() {
        assert_eq!(bits_are_nan(value.to_bits()), value.is_nan());
    }
    assert!(!bits_are_nan(0x7F80_0000));
    assert!(!bits_are_nan(0xFF80_0000));
    assert!(bits_are_nan(0x7F80_0001));
    assert!(bits_are_nan(0xFFC0_0000));
}

#[test]
fn units_cycle_in_display_order() {
    assert_eq!(Unit::Fahrenheit.next(), Unit::Kelvin);
    assert_eq!(Unit::Kelvin.next(), Unit::Celsius);
    assert_eq!(Unit::Celsius.next(), Unit::Fahrenheit);
    assert_eq!(Unit::Celsius.next().next().next(), Unit::Celsius);
}
