use mc_transpiler::display::number_display_digits;
use mc_transpiler::display::u8_to_decimal_array;
use mc_transpiler::interface::NumberDisplaySettings;

#[test]
fn decimal_digits_zero_padded() {
    assert_eq!(u8_to_decimal_array(0), [0, 0, 0]);
    assert_eq!(u8_to_decimal_array(5), [0, 0, 5]);
    assert_eq!(u8_to_decimal_array(42), [0, 4, 2]);
    assert_eq!(u8_to_decimal_array(200), [2, 0, 0]);
    assert_eq!(u8_to_decimal_array(255), [2, 5, 5]);
}

#[test]
fn unsigned_interpretation_shows_the_byte() {
    let (negative, digits) = number_display_digits(200, NumberDisplaySettings::Unsigned);
    assert!(!negative);
    assert_eq!(digits, [2, 0, 0]);
}

#[test]
fn signed_interpretation_shows_twos_complement() {
    // The stored byte 200 stands for -56 under two's complement.
    let (negative, digits) = number_display_digits(200, NumberDisplaySettings::TwosCompliment);
    assert!(negative);
    assert_eq!(digits, [0, 5, 6]);

    let (negative, digits) = number_display_digits(127, NumberDisplaySettings::TwosCompliment);
    assert!(!negative);
    assert_eq!(digits, [1, 2, 7]);

    let (negative, digits) = number_display_digits(128, NumberDisplaySettings::TwosCompliment);
    assert!(negative);
    assert_eq!(digits, [1, 2, 8]);

    let (negative, digits) = number_display_digits(255, NumberDisplaySettings::TwosCompliment);
    assert!(negative);
    assert_eq!(digits, [0, 0, 1]);
}
