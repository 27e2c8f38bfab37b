use esp32_sensors::gpio::Level;
use esp32_sensors::notes::{note_for_brightness, Note, NotePlan, PulseCode, Rate, Song};

#[test]
fn note_rates() {
    assert_eq!(Note::A4.rate().as_hz(), 440);
    assert_eq!(Note::B0.rate().as_hz(), 31);
    assert_eq!(Note::DS8.rate().as_hz(), 4978);
    assert_eq!(Rate::from(Note::C4), Rate::from_hz(262));
    assert_eq!(Rate::from(&Note::Silence).as_hz(), 1);
}

#[test]
fn note_pulses() {
    assert_eq!(
        PulseCode::from(Note::A4),
        PulseCode { level1: Level::High, length1: 440, level2: Level::Low, length2: 440 }
    );
    assert_eq!(
        PulseCode::from(&Note::Silence),
        PulseCode { level1: Level::Low, length1: 1, level2: Level::Low, length2: 1 }
    );
}

#[test]
fn song_note_durations() {
    let song = Song::new(120);
    assert_eq!(song.calc_note_duration(1), 2000);
    assert_eq!(song.calc_note_duration(4), 500);
    assert_eq!(song.calc_note_duration(-4), 750);
    assert_eq!(song.calc_note_duration(-16), 187);
    assert_eq!(song.calc_note_duration(-3), 999);
    assert_eq!(song.calc_note_duration(i16::MIN), 0);
    let slow = Song::new(1);
    assert_eq!(slow.calc_note_duration(-1), 360_000);
    assert_eq!(Song::new(u16::MAX).calc_note_duration(1), 3);
}

#[test]
fn dotted_durations_match_floating_point() {
    for tempo in [1u16, 7, 60, 120, 144, 1000, 65535] {
        let song = Song::new(tempo);
        let whole = 240_000 / tempo as u32;
        for divider in [-1i16, -2, -3, -4, -7, -8, -16, -32] {
            let plain = whole / divider.unsigned_abs() as u32;
            assert_eq!(song.calc_note_duration(divider), (plain as f64 * 1.5) as u32);
        }
    }
}

#[test]
fn plays_nine_tenths_then_pauses() {
    let song = Song::new(120);
    assert_eq!(
        song.plan(Note::E4, 8),
        NotePlan { note: Note::E4, sound_ms: 225, pause_ms: 25 }
    );
    assert_eq!(
        song.plan(Note::Silence, -4),
        NotePlan { note: Note::Silence, sound_ms: 750, pause_ms: 0 }
    );
}

#[test]
fn brightness_notes() {
    assert_eq!(note_for_brightness(0), Note::Silence);
    assert_eq!(note_for_brightness(1), Note::C4);
    assert_eq!(note_for_brightness(25), Note::C4);
    assert_eq!(note_for_brightness(26), Note::E4);
    assert_eq!(note_for_brightness(75), Note::A4);
    assert_eq!(note_for_brightness(76), Note::C6);
    assert_eq!(note_for_brightness(100), Note::C6);
    assert_eq!(note_for_brightness(101), Note::Silence);
}

#[test]
fn pitch_rises_and_octaves_double() {
    assert_eq!(Note::A4.rate().as_hz(), 440);
    assert_eq!(Note::A5.rate().as_hz(), 880);
    assert!(Note::B0.rate().as_hz() < Note::C1.rate().as_hz());
    assert!(Note::D8.rate().as_hz() < Note::DS8.rate().as_hz());
    let c4 = Note::C4.rate().as_hz() as i64;
    let c5 = Note::C5.rate().as_hz() as i64;
    assert!((c5 - 2 * c4).abs() <= 1);
    let cs7 = Note::CS7.rate().as_hz() as i64;
    let cs8 = Note::CS8.rate().as_hz() as i64;
    assert!((cs8 - 2 * cs7).abs() <= 1);
}
