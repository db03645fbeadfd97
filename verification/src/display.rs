//! Rendering values of the numeric display.

use vstd::prelude::*;
use crate::interface::NumberDisplaySettings;

verus! {

/// Turns a byte into its three decimal digits, zero padded: hundreds,
/// tens, ones.
pub fn u8_to_decimal_array(n: u8) -> (r: [u8; 3])
    ensures
        r[0] == n / 100,
        r[1] == (n / 10) % 10,
        r[2] == n % 10,
{
    [n / 100, (n / 10) % 10, n % 10]
}

/// The magnitude the numeric display draws for a stored byte: the byte
/// itself when unsigned, its two's-complement absolute value when
/// signed.
pub open spec fn display_magnitude(value: u8, settings: NumberDisplaySettings) -> int {
    if settings == NumberDisplaySettings::TwosCompliment && value >= 128 {
        256 - value
    } else {
        value as int
    }
}

/// What the numeric display shows for a stored byte: whether a minus
/// sign is drawn, and the three decimal digits of the magnitude. Under
/// the unsigned interpretation the byte stands for 0 to 255; under
/// two's complement, bytes 128 to 255 stand for -128 to -1.
pub fn number_display_digits(value: u8, settings: NumberDisplaySettings) -> (r: (bool, [u8; 3]))
    ensures
        r.0 == (settings == NumberDisplaySettings::TwosCompliment && value >= 128),
        r.1[0] == display_magnitude(value, settings) / 100,
        r.1[1] == (display_magnitude(value, settings) / 10) % 10,
        r.1[2] == display_magnitude(value, settings) % 10,
{
    match settings {
        NumberDisplaySettings::TwosCompliment => {
            if value >= 128 {
                let magnitude = (255 - value) + 1;
                (true, u8_to_decimal_array(magnitude))
            } else {
                (false, u8_to_decimal_array(value))
            }
        },
        NumberDisplaySettings::Unsigned => (false, u8_to_decimal_array(value)),
    }
}

} // verus!
