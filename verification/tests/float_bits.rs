use opengl_graphics::float_bits::{same_color, same_float};

#[test]
fn bit_patterns_compare_as_the_numbers_do() {
    let values: [f32; 12] = [
        0.0,
        -0.0,
        1.0,
        -1.0,
        0.5,
        f32::MIN_POSITIVE,
        f32::MAX,
        f32::INFINITY,
        f32::NEG_INFINITY,
        f32::NAN,
        -f32::NAN,
        f32::from_bits(0x7F80_0001),
    ];
    for a in values {
        for b in values {
            assert_eq!(same_float(a.to_bits(), b.to_bits()), a == b, "{} and {}", a, b);
        }
    }
}

#[test]
fn the_two_zeros_are_equal_and_a_nan_is_not_equal_to_itself() {
    assert!(same_float(0x0000_0000, 0x8000_0000));
    assert!(!same_float(0x7FC0_0000, 0x7FC0_0000));
    assert!(same_float(0x3F80_0000, 0x3F80_0000));
    assert!(!same_float(0x3F80_0000, 0x3F80_0001));
}

#[test]
fn colors_compare_channel_by_channel() {
    let red = [1.0f32.to_bits(), 0.0f32.to_bits(), 0.0f32.to_bits(), 1.0f32.to_bits()];
    let also_red = [1.0f32.to_bits(), (-0.0f32).to_bits(), 0.0f32.to_bits(), 1.0f32.to_bits()];
    let blue = [0.0f32.to_bits(), 0.0f32.to_bits(), 1.0f32.to_bits(), 1.0f32.to_bits()];
    let broken = [f32::NAN.to_bits(), 0, 0, 0];
    assert!(same_color(&red, &red));
    assert!(same_color(&red, &also_red));
    assert!(!same_color(&red, &blue));
    assert!(!same_color(&broken, &broken));
}
