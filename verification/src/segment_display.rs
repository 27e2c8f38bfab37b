//! What a four-digit seven-segment display (common anode, such as the
//! Miuzei 3461BS) shows: the levels of its four digit-select pins and of its
//! seven segment pins a to g. A segment lights when its pin is low.
//!
//! The display shows one digit at a time; showing a number means showing
//! its four digits in turn, quickly enough for the eye to see all four.

use vstd::prelude::*;
use crate::gpio::Level;
pub use crate::digits::split;

verus! {

/// One of the four digit positions, from the left.
#[derive(Clone, Copy, Debug, PartialEq, Eq, Structural)]
pub enum Digit {
    First,
    Second,
    Third,
    Fourth,
}

/// The position of a digit, from 0 (leftmost) to 3.
pub open spec fn digit_index(at: Digit) -> int {
    match at {
        Digit::First => 0,
        Digit::Second => 1,
        Digit::Third => 2,
        Digit::Fourth => 3,
    }
}

/// The levels of segments a to g that show a decimal digit; any value
/// above 9 shows as 0.
pub open spec fn segment_pattern(digit: u8) -> Seq<Level> {
    let l = Level::Low;
    let h = Level::High;
    if digit == 1 {
        seq![h, l, l, h, h, h, h]
    } else if digit == 2 {
        seq![l, l, h, l, l, h, l]
    } else if digit == 3 {
        seq![l, l, l, l, h, h, l]
    } else if digit == 4 {
        seq![h, l, l, h, h, l, l]
    } else if digit == 5 {
        seq![l, h, l, l, h, l, l]
    } else if digit == 6 {
        seq![l, h, l, l, l, l, l]
    } else if digit == 7 {
        seq![l, l, l, h, h, h, h]
    } else if digit == 8 {
        seq![l, l, l, l, l, l, l]
    } else if digit == 9 {
        seq![l, l, l, l, h, l, l]
    } else {
        seq![l, l, l, l, l, l, h]
    }
}

/// The levels of segments a to g that show `digit`.
pub fn display_digit(digit: u8) -> (segments: [Level; 7])
    ensures
        segments@ == segment_pattern(digit),
{
    let l = Level::Low;
    let h = Level::High;
    let segments = match digit {
        1 => [h, l, l, h, h, h, h],
        2 => [l, l, h, l, l, h, l],
        3 => [l, l, l, l, h, h, l],
        4 => [h, l, l, h, h, l, l],
        5 => [l, h, l, l, h, l, l],
        6 => [l, h, l, l, l, l, l],
        7 => [l, l, l, h, h, h, h],
        8 => [l, l, l, l, l, l, l],
        9 => [l, l, l, l, h, l, l],
        _ => [l, l, l, l, l, l, h],
    };
    proof {
        assert(segments@ =~= segment_pattern(digit));
    }
    segments
}

/// Different digits light different segments.
pub proof fn lemma_digit_patterns_distinct(a: u8, b: u8)
    requires
        a < 10,
        b < 10,
        a != b,
    ensures
        segment_pattern(a) != segment_pattern(b),
{
    let pa = segment_pattern(a);
    let pb = segment_pattern(b);
    assert(pa[0] != pb[0] || pa[1] != pb[1] || pa[2] != pb[2] || pa[3] != pb[3] || pa[4] != pb[4]
        || pa[5] != pb[5] || pa[6] != pb[6]);
}

/// Whether segment `s` (0 to 6 for a to g) is lit: a segment lights when
/// its pin is low.
pub open spec fn lit(segments: Seq<Level>, s: int) -> bool {
    segments[s] == Level::Low
}

/// Every digit shows its standard seven-segment glyph, segment by segment
/// (a at the top, then clockwise b, c, d, e, f, and g in the middle):
/// a is dark only for 1 and 4, b only for 5 and 6, c only for 2, d only
/// for 1, 4 and 7; e is lit only for 0, 2, 6 and 8, f is dark only for 1,
/// 2, 3 and 7, g only for 0, 1 and 7. Values above 9 show as 0.
pub proof fn lemma_standard_glyphs(digit: u8)
    ensures
        segment_pattern(digit).len() == 7,
        ({
            let d = if digit < 10 {
                digit
            } else {
                0
            };
            &&& lit(segment_pattern(digit), 0) <==> !(d == 1 || d == 4)
            &&& lit(segment_pattern(digit), 1) <==> !(d == 5 || d == 6)
            &&& lit(segment_pattern(digit), 2) <==> d != 2
            &&& lit(segment_pattern(digit), 3) <==> !(d == 1 || d == 4 || d == 7)
            &&& lit(segment_pattern(digit), 4) <==> (d == 0 || d == 2 || d == 6 || d == 8)
            &&& lit(segment_pattern(digit), 5) <==> !(d == 1 || d == 2 || d == 3 || d == 7)
            &&& lit(segment_pattern(digit), 6) <==> !(d == 0 || d == 1 || d == 7)
        }),
{
}

/// The levels of the four digit-select pins that select `at`: its pin high,
/// the others low.
pub open spec fn selection(at: Digit) -> Seq<Level> {
    Seq::new(4, |i: int| if i == digit_index(at) { Level::High } else { Level::Low })
}

pub fn select_digit(at: Digit) -> (digits: [Level; 4])
    ensures
        digits@ == selection(at),
{
    let mut digits = [Level::Low; 4];
    match at {
        Digit::First => digits[0] = Level::High,
        Digit::Second => digits[1] = Level::High,
        Digit::Third => digits[2] = Level::High,
        Digit::Fourth => digits[3] = Level::High,
    }
    proof {
        assert(digits@ =~= selection(at));
    }
    digits
}

/// The levels of all the display's pins at one moment.
#[derive(Clone, Copy, Debug, PartialEq, Eq)]
pub struct Frame {
    /// Digit-select pins 1 to 4.
    pub digits: [Level; 4],
    /// Segment pins a to g.
    pub segments: [Level; 7],
}

/// The frame that shows `digit` at position `at`.
pub fn display_at(at: Digit, digit: u8) -> (frame: Frame)
    ensures
        frame.digits@ == selection(at),
        frame.segments@ == segment_pattern(digit),
{
    Frame { digits: select_digit(at), segments: display_digit(digit) }
}

/// The four frames that show `number` (9999 for anything larger), from the
/// leftmost digit to the rightmost.
pub fn display(number: u16) -> (frames: [Frame; 4])
    ensures
        frames[0].digits@ == selection(Digit::First),
        frames[1].digits@ == selection(Digit::Second),
        frames[2].digits@ == selection(Digit::Third),
        frames[3].digits@ == selection(Digit::Fourth),
        frames[0].segments@ == segment_pattern((crate::digits::displayed_value(number) / 1000) as u8),
        frames[1].segments@ == segment_pattern(((crate::digits::displayed_value(number) / 100) % 10) as u8),
        frames[2].segments@ == segment_pattern(((crate::digits::displayed_value(number) / 10) % 10) as u8),
        frames[3].segments@ == segment_pattern((crate::digits::displayed_value(number) % 10) as u8),
{
    let (first, second, third, fourth) = split(number);
    [
        display_at(Digit::First, first),
        display_at(Digit::Second, second),
        display_at(Digit::Third, third),
        display_at(Digit::Fourth, fourth),
    ]
}

/// The number shown for a reading: the temperature in the first two digits
/// and the humidity in the last two, so 23 °C and 41 % show as 2341.
pub open spec fn reading_value(temperature: u16, humidity: u16) -> int {
    temperature * 100 + humidity % 100
}

pub fn format_reading(temperature: u16, humidity: u16) -> (number: u16)
    requires
        reading_value(temperature, humidity) <= u16::MAX,
    ensures
        number == reading_value(temperature, humidity),
{
    temperature * 100 + humidity % 100
}

/// A temperature below 100 and any humidity are shown exactly: the first
/// two digits are the temperature, the last two the humidity modulo 100.
pub proof fn lemma_reading_digits(temperature: u16, humidity: u16)
    requires
        temperature < 100,
    ensures
        crate::digits::displayed_value(reading_value(temperature, humidity) as u16) / 1000 == temperature / 10,
        (crate::digits::displayed_value(reading_value(temperature, humidity) as u16) / 100) % 10 == temperature % 10,
        (crate::digits::displayed_value(reading_value(temperature, humidity) as u16) / 10) % 10 == (humidity % 100) / 10,
        crate::digits::displayed_value(reading_value(temperature, humidity) as u16) % 10 == humidity % 10,
{
}

} // verus!
