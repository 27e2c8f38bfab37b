use esp32_sensors::segment_display::split;
#[test]
fn mod_splits_zero() {
    assert_eq!((0, 0, 0, 0), split(0));
}

#[test]
fn mod_splits_one() {
    assert_eq!((0, 0, 0, 1), split(1));
}

#[test]
fn mod_splits_single_digits() {
    assert_eq!((0, 0, 0, 6), split(6));
    assert_eq!((0, 0, 0, 7), split(7));
    assert_eq!((0, 0, 0, 9), split(9));
}

#[test]
fn mod_splits_ten() {
    assert_eq!((0, 0, 1, 0), split(10));
}

#[test]
fn mod_splits_seventeen() {
    assert_eq!((0, 0, 1, 7), split(17));
}

#[test]
fn mod_splits_twenty_five() {
    assert_eq!((0, 0, 2, 5), split(25));
}

#[test]
fn mod_splits_ninety_nine() {
    assert_eq!((0, 0, 9, 9), split(99));
}

#[test]
fn mod_splits_one_hundred() {
    assert_eq!((0, 1, 0, 0), split(100));
}

#[test]
fn mod_splits_two_hundred() {
    assert_eq!((0, 2, 0, 0), split(200));
}

#[test]
fn mod_splits_hundreds() {
    assert_eq!((0, 2, 3, 4), split(234));
    assert_eq!((0, 4, 8, 1), split(481));
    assert_eq!((0, 5, 2, 7), split(527));
    assert_eq!((0, 9, 9, 9), split(999));
}

#[test]
fn mod_splits_one_thousand() {
    assert_eq!((1, 0, 0, 0), split(1000));
}

#[test]
fn mod_splits_five_thousands() {
    assert_eq!((5, 0, 0, 0), split(5000));
}

#[test]
fn mod_splits_thousands() {
    assert_eq!((1, 1, 1, 1), split(1111));
    assert_eq!((1, 2, 3, 4), split(1234));
    assert_eq!((4, 4, 8, 1), split(4481));
    assert_eq!((5, 6, 7, 8), split(5678));
    assert_eq!((6, 5, 2, 7), split(6527));
    assert_eq!((9, 9, 9, 9), split(9999));
}

#[test]
fn mod_truncates_ten_thousands() {
    assert_eq!((9, 9, 9, 9), split(10_000));
}

#[test]
fn mod_truncates_even_bigger_numbers() {
    assert_eq!((9, 9, 9, 9), split(12_345));
    assert_eq!((9, 9, 9, 9), split(13_648));
    assert_eq!((9, 9, 9, 9), split(54_321));
}

use esp32_sensors::gpio::Level::{High as H, Low as L};
use esp32_sensors::segment_display::{display, display_digit, format_reading, select_digit, Digit};

#[test]
fn digit_segments() {
    assert_eq!(display_digit(8), [L, L, L, L, L, L, L]);
    assert_eq!(display_digit(1), [H, L, L, H, H, H, H]);
    assert_eq!(display_digit(0), [L, L, L, L, L, L, H]);
    assert_eq!(display_digit(42), display_digit(0));
}

#[test]
fn selects_one_digit() {
    assert_eq!(select_digit(Digit::Third), [L, L, H, L]);
}

#[test]
fn display_frames_show_each_digit() {
    let frames = display(1234);
    for (i, frame) in frames.iter().enumerate() {
        let mut expected = [L; 4];
        expected[i] = H;
        assert_eq!(frame.digits, expected);
        assert_eq!(frame.segments, display_digit(i as u8 + 1));
    }
    assert_eq!(display(12_345)[3].segments, display_digit(9));
}

#[test]
fn readings_as_four_digits() {
    assert_eq!(format_reading(23, 41), 2341);
    assert_eq!(format_reading(5, 100), 500);
    assert_eq!(format_reading(23, 141), 2341);
}
