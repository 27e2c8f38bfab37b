//! Splitting a number into the four decimal digits of a four-digit display.

use vstd::prelude::*;

verus! {

/// The largest number that four decimal digits can show.
pub const MAX_DISPLAYED: u16 = 9999;

/// The value that a four-digit display shows for `number`: numbers above
/// 9999 are shown as 9999.
pub open spec fn displayed_value(number: u16) -> int {
    if number > MAX_DISPLAYED {
        MAX_DISPLAYED as int
    } else {
        number as int
    }
}

/// Splits `number` into its thousands, hundreds, tens and units digits,
/// showing any number above 9999 as 9999.
pub fn split(number: u16) -> (digits: (u8, u8, u8, u8))
    ensures
        digits.0 == displayed_value(number) / 1000,
        digits.1 == (displayed_value(number) / 100) % 10,
        digits.2 == (displayed_value(number) / 10) % 10,
        digits.3 == displayed_value(number) % 10,
        digits.0 < 10 && digits.1 < 10 && digits.2 < 10 && digits.3 < 10,
        digits.0 * 1000 + digits.1 * 100 + digits.2 * 10 + digits.3 == displayed_value(number),
{
    let number = if number > MAX_DISPLAYED {
        MAX_DISPLAYED
    } else {
        number
    };
    (
        (number / 1000) as u8,
        ((number / 100) % 10) as u8,
        ((number / 10) % 10) as u8,
        (number % 10) as u8,
    )
}

} // verus!
