//! Musical notes for the buzzer: their frequencies, the pulses that sound
//! them, and the timing of a song's notes.

use vstd::prelude::*;
use crate::gpio::Level;
use vstd::arithmetic::power2::{pow2, lemma2_to64, lemma2_to64_rest};

verus! {

/// A note of the equal-tempered scale from B0 to D#8, or silence.
#[derive(Clone, Copy, Debug, PartialEq, Eq, Structural)]
pub enum Note {
    B0,
    C1,
    CS1,
    D1,
    DS1,
    E1,
    F1,
    FS1,
    G1,
    GS1,
    A1,
    AS1,
    B1,
    C2,
    CS2,
    D2,
    DS2,
    E2,
    F2,
    FS2,
    G2,
    GS2,
    A2,
    AS2,
    B2,
    C3,
    CS3,
    D3,
    DS3,
    E3,
    F3,
    FS3,
    G3,
    GS3,
    A3,
    AS3,
    B3,
    C4,
    CS4,
    D4,
    DS4,
    E4,
    F4,
    FS4,
    G4,
    GS4,
    A4,
    AS4,
    B4,
    C5,
    CS5,
    D5,
    DS5,
    E5,
    F5,
    FS5,
    G5,
    GS5,
    A5,
    AS5,
    B5,
    C6,
    CS6,
    D6,
    DS6,
    E6,
    F6,
    FS6,
    G6,
    GS6,
    A6,
    AS6,
    B6,
    C7,
    CS7,
    D7,
    DS7,
    E7,
    F7,
    FS7,
    G7,
    GS7,
    A7,
    AS7,
    B7,
    C8,
    CS8,
    D8,
    DS8,
    Silence,
}

/// The frequency of a note in hertz, rounded to the nearest integer; 1 Hz
/// for silence.
pub open spec fn note_hz(note: Note) -> u32 {
    match note {
        Note::B0 => 31,
        Note::C1 => 33,
        Note::CS1 => 35,
        Note::D1 => 37,
        Note::DS1 => 39,
        Note::E1 => 41,
        Note::F1 => 44,
        Note::FS1 => 46,
        Note::G1 => 49,
        Note::GS1 => 52,
        Note::A1 => 55,
        Note::AS1 => 58,
        Note::B1 => 62,
        Note::C2 => 65,
        Note::CS2 => 69,
        Note::D2 => 73,
        Note::DS2 => 78,
        Note::E2 => 82,
        Note::F2 => 87,
        Note::FS2 => 93,
        Note::G2 => 98,
        Note::GS2 => 104,
        Note::A2 => 110,
        Note::AS2 => 117,
        Note::B2 => 123,
        Note::C3 => 131,
        Note::CS3 => 139,
        Note::D3 => 147,
        Note::DS3 => 156,
        Note::E3 => 165,
        Note::F3 => 175,
        Note::FS3 => 185,
        Note::G3 => 196,
        Note::GS3 => 208,
        Note::A3 => 220,
        Note::AS3 => 233,
        Note::B3 => 247,
        Note::C4 => 262,
        Note::CS4 => 277,
        Note::D4 => 294,
        Note::DS4 => 311,
        Note::E4 => 330,
        Note::F4 => 349,
        Note::FS4 => 370,
        Note::G4 => 392,
        Note::GS4 => 415,
        Note::A4 => 440,
        Note::AS4 => 466,
        Note::B4 => 494,
        Note::C5 => 523,
        Note::CS5 => 554,
        Note::D5 => 587,
        Note::DS5 => 622,
        Note::E5 => 659,
        Note::F5 => 698,
        Note::FS5 => 740,
        Note::G5 => 784,
        Note::GS5 => 831,
        Note::A5 => 880,
        Note::AS5 => 932,
        Note::B5 => 988,
        Note::C6 => 1047,
        Note::CS6 => 1109,
        Note::D6 => 1175,
        Note::DS6 => 1245,
        Note::E6 => 1319,
        Note::F6 => 1397,
        Note::FS6 => 1480,
        Note::G6 => 1568,
        Note::GS6 => 1661,
        Note::A6 => 1760,
        Note::AS6 => 1865,
        Note::B6 => 1976,
        Note::C7 => 2093,
        Note::CS7 => 2217,
        Note::D7 => 2349,
        Note::DS7 => 2489,
        Note::E7 => 2637,
        Note::F7 => 2794,
        Note::FS7 => 2960,
        Note::G7 => 3136,
        Note::GS7 => 3322,
        Note::A7 => 3520,
        Note::AS7 => 3729,
        Note::B7 => 3951,
        Note::C8 => 4186,
        Note::CS8 => 4435,
        Note::D8 => 4699,
        Note::DS8 => 4978,
        Note::Silence => 1,
    }
}

/// A frequency.
#[derive(Clone, Copy, Debug, PartialEq, Eq)]
pub struct Rate {
    pub hz: u32,
}

impl Rate {
    pub fn from_hz(hz: u32) -> (rate: Rate)
        ensures
            rate.hz == hz,
    {
        Rate { hz }
    }

    pub fn as_hz(&self) -> (hz: u32)
        ensures
            hz == self.hz,
    {
        self.hz
    }
}

impl Note {
    /// The frequency of the note.
    pub fn rate(&self) -> (rate: Rate)
        ensures
            rate.hz == note_hz(*self),
    {
        let hz: u32 = match self {
            Note::B0 => 31,
            Note::C1 => 33,
            Note::CS1 => 35,
            Note::D1 => 37,
            Note::DS1 => 39,
            Note::E1 => 41,
            Note::F1 => 44,
            Note::FS1 => 46,
            Note::G1 => 49,
            Note::GS1 => 52,
            Note::A1 => 55,
            Note::AS1 => 58,
            Note::B1 => 62,
            Note::C2 => 65,
            Note::CS2 => 69,
            Note::D2 => 73,
            Note::DS2 => 78,
            Note::E2 => 82,
            Note::F2 => 87,
            Note::FS2 => 93,
            Note::G2 => 98,
            Note::GS2 => 104,
            Note::A2 => 110,
            Note::AS2 => 117,
            Note::B2 => 123,
            Note::C3 => 131,
            Note::CS3 => 139,
            Note::D3 => 147,
            Note::DS3 => 156,
            Note::E3 => 165,
            Note::F3 => 175,
            Note::FS3 => 185,
            Note::G3 => 196,
            Note::GS3 => 208,
            Note::A3 => 220,
            Note::AS3 => 233,
            Note::B3 => 247,
            Note::C4 => 262,
            Note::CS4 => 277,
            Note::D4 => 294,
            Note::DS4 => 311,
            Note::E4 => 330,
            Note::F4 => 349,
            Note::FS4 => 370,
            Note::G4 => 392,
            Note::GS4 => 415,
            Note::A4 => 440,
            Note::AS4 => 466,
            Note::B4 => 494,
            Note::C5 => 523,
            Note::CS5 => 554,
            Note::D5 => 587,
            Note::DS5 => 622,
            Note::E5 => 659,
            Note::F5 => 698,
            Note::FS5 => 740,
            Note::G5 => 784,
            Note::GS5 => 831,
            Note::A5 => 880,
            Note::AS5 => 932,
            Note::B5 => 988,
            Note::C6 => 1047,
            Note::CS6 => 1109,
            Note::D6 => 1175,
            Note::DS6 => 1245,
            Note::E6 => 1319,
            Note::F6 => 1397,
            Note::FS6 => 1480,
            Note::G6 => 1568,
            Note::GS6 => 1661,
            Note::A6 => 1760,
            Note::AS6 => 1865,
            Note::B6 => 1976,
            Note::C7 => 2093,
            Note::CS7 => 2217,
            Note::D7 => 2349,
            Note::DS7 => 2489,
            Note::E7 => 2637,
            Note::F7 => 2794,
            Note::FS7 => 2960,
            Note::G7 => 3136,
            Note::GS7 => 3322,
            Note::A7 => 3520,
            Note::AS7 => 3729,
            Note::B7 => 3951,
            Note::C8 => 4186,
            Note::CS8 => 4435,
            Note::D8 => 4699,
            Note::DS8 => 4978,
            Note::Silence => 1,
        };
        Rate { hz }
    }
}

impl From<Note> for Rate {
    fn from(note: Note) -> (rate: Rate)
        ensures
            rate.hz == note_hz(note),
    {
        note.rate()
    }
}

impl vstd::std_specs::convert::FromSpecImpl<Note> for Rate {
    open spec fn obeys_from_spec() -> bool {
        true
    }

    open spec fn from_spec(note: Note) -> Rate {
        Rate { hz: note_hz(note) }
    }
}

impl From<&Note> for Rate {
    fn from(note: &Note) -> (rate: Rate)
        ensures
            rate.hz == note_hz(*note),
    {
        note.rate()
    }
}

impl vstd::std_specs::convert::FromSpecImpl<&Note> for Rate {
    open spec fn obeys_from_spec() -> bool {
        true
    }

    open spec fn from_spec(note: &Note) -> Rate {
        Rate { hz: note_hz(*note) }
    }
}

/// One item of a remote-control transmission: a level held for a number
/// of clock ticks, then a second level held for a number of ticks.
#[derive(Clone, Copy, Debug, PartialEq, Eq)]
pub struct PulseCode {
    pub level1: Level,
    pub length1: u16,
    pub level2: Level,
    pub length2: u16,
}

/// The pulse that sounds a note on a buzzer driven by a 1 MHz clock: high
/// then low, each for as many ticks as the note's frequency in hertz;
/// silence is low for one tick twice.
pub open spec fn note_pulse(note: Note) -> PulseCode {
    if note == Note::Silence {
        PulseCode { level1: Level::Low, length1: 1, level2: Level::Low, length2: 1 }
    } else {
        PulseCode {
            level1: Level::High,
            length1: note_hz(note) as u16,
            level2: Level::Low,
            length2: note_hz(note) as u16,
        }
    }
}

impl From<Note> for PulseCode {
    fn from(note: Note) -> (pulse: PulseCode)
        ensures
            pulse == note_pulse(note),
    {
        if note == Note::Silence {
            return PulseCode { level1: Level::Low, length1: 1, level2: Level::Low, length2: 1 };
        }
        let phase_ticks = note.rate().as_hz() as u16;
        PulseCode { level1: Level::High, length1: phase_ticks, level2: Level::Low, length2: phase_ticks }
    }
}

impl vstd::std_specs::convert::FromSpecImpl<Note> for PulseCode {
    open spec fn obeys_from_spec() -> bool {
        true
    }

    open spec fn from_spec(note: Note) -> PulseCode {
        note_pulse(note)
    }
}

impl From<&Note> for PulseCode {
    fn from(note: &Note) -> (pulse: PulseCode)
        ensures
            pulse == note_pulse(*note),
    {
        PulseCode::from(*note)
    }
}

impl vstd::std_specs::convert::FromSpecImpl<&Note> for PulseCode {
    open spec fn obeys_from_spec() -> bool {
        true
    }

    open spec fn from_spec(note: &Note) -> PulseCode {
        note_pulse(*note)
    }
}

/// Every note's frequency fits in the 15 bits of a pulse length.
pub proof fn lemma_note_hz_bounds(note: Note)
    ensures
        1 <= note_hz(note) <= 4978,
{
}

/// The position of a note on the scale, from 0 for B0 to 88 for D#8, one
/// per semitone; -1 for silence.
pub open spec fn note_index(note: Note) -> int {
    match note {
        Note::B0 => 0,
        Note::C1 => 1,
        Note::CS1 => 2,
        Note::D1 => 3,
        Note::DS1 => 4,
        Note::E1 => 5,
        Note::F1 => 6,
        Note::FS1 => 7,
        Note::G1 => 8,
        Note::GS1 => 9,
        Note::A1 => 10,
        Note::AS1 => 11,
        Note::B1 => 12,
        Note::C2 => 13,
        Note::CS2 => 14,
        Note::D2 => 15,
        Note::DS2 => 16,
        Note::E2 => 17,
        Note::F2 => 18,
        Note::FS2 => 19,
        Note::G2 => 20,
        Note::GS2 => 21,
        Note::A2 => 22,
        Note::AS2 => 23,
        Note::B2 => 24,
        Note::C3 => 25,
        Note::CS3 => 26,
        Note::D3 => 27,
        Note::DS3 => 28,
        Note::E3 => 29,
        Note::F3 => 30,
        Note::FS3 => 31,
        Note::G3 => 32,
        Note::GS3 => 33,
        Note::A3 => 34,
        Note::AS3 => 35,
        Note::B3 => 36,
        Note::C4 => 37,
        Note::CS4 => 38,
        Note::D4 => 39,
        Note::DS4 => 40,
        Note::E4 => 41,
        Note::F4 => 42,
        Note::FS4 => 43,
        Note::G4 => 44,
        Note::GS4 => 45,
        Note::A4 => 46,
        Note::AS4 => 47,
        Note::B4 => 48,
        Note::C5 => 49,
        Note::CS5 => 50,
        Note::D5 => 51,
        Note::DS5 => 52,
        Note::E5 => 53,
        Note::F5 => 54,
        Note::FS5 => 55,
        Note::G5 => 56,
        Note::GS5 => 57,
        Note::A5 => 58,
        Note::AS5 => 59,
        Note::B5 => 60,
        Note::C6 => 61,
        Note::CS6 => 62,
        Note::D6 => 63,
        Note::DS6 => 64,
        Note::E6 => 65,
        Note::F6 => 66,
        Note::FS6 => 67,
        Note::G6 => 68,
        Note::GS6 => 69,
        Note::A6 => 70,
        Note::AS6 => 71,
        Note::B6 => 72,
        Note::C7 => 73,
        Note::CS7 => 74,
        Note::D7 => 75,
        Note::DS7 => 76,
        Note::E7 => 77,
        Note::F7 => 78,
        Note::FS7 => 79,
        Note::G7 => 80,
        Note::GS7 => 81,
        Note::A7 => 82,
        Note::AS7 => 83,
        Note::B7 => 84,
        Note::C8 => 85,
        Note::CS8 => 86,
        Note::D8 => 87,
        Note::DS8 => 88,
        Note::Silence => -1,
    }
}

/// The note at a position of the scale; silence outside 0 to 88.
pub open spec fn note_at(index: int) -> Note {
    if index == 0 {
        Note::B0
    } else if index == 1 {
        Note::C1
    } else if index == 2 {
        Note::CS1
    } else if index == 3 {
        Note::D1
    } else if index == 4 {
        Note::DS1
    } else if index == 5 {
        Note::E1
    } else if index == 6 {
        Note::F1
    } else if index == 7 {
        Note::FS1
    } else if index == 8 {
        Note::G1
    } else if index == 9 {
        Note::GS1
    } else if index == 10 {
        Note::A1
    } else if index == 11 {
        Note::AS1
    } else if index == 12 {
        Note::B1
    } else if index == 13 {
        Note::C2
    } else if index == 14 {
        Note::CS2
    } else if index == 15 {
        Note::D2
    } else if index == 16 {
        Note::DS2
    } else if index == 17 {
        Note::E2
    } else if index == 18 {
        Note::F2
    } else if index == 19 {
        Note::FS2
    } else if index == 20 {
        Note::G2
    } else if index == 21 {
        Note::GS2
    } else if index == 22 {
        Note::A2
    } else if index == 23 {
        Note::AS2
    } else if index == 24 {
        Note::B2
    } else if index == 25 {
        Note::C3
    } else if index == 26 {
        Note::CS3
    } else if index == 27 {
        Note::D3
    } else if index == 28 {
        Note::DS3
    } else if index == 29 {
        Note::E3
    } else if index == 30 {
        Note::F3
    } else if index == 31 {
        Note::FS3
    } else if index == 32 {
        Note::G3
    } else if index == 33 {
        Note::GS3
    } else if index == 34 {
        Note::A3
    } else if index == 35 {
        Note::AS3
    } else if index == 36 {
        Note::B3
    } else if index == 37 {
        Note::C4
    } else if index == 38 {
        Note::CS4
    } else if index == 39 {
        Note::D4
    } else if index == 40 {
        Note::DS4
    } else if index == 41 {
        Note::E4
    } else if index == 42 {
        Note::F4
    } else if index == 43 {
        Note::FS4
    } else if index == 44 {
        Note::G4
    } else if index == 45 {
        Note::GS4
    } else if index == 46 {
        Note::A4
    } else if index == 47 {
        Note::AS4
    } else if index == 48 {
        Note::B4
    } else if index == 49 {
        Note::C5
    } else if index == 50 {
        Note::CS5
    } else if index == 51 {
        Note::D5
    } else if index == 52 {
        Note::DS5
    } else if index == 53 {
        Note::E5
    } else if index == 54 {
        Note::F5
    } else if index == 55 {
        Note::FS5
    } else if index == 56 {
        Note::G5
    } else if index == 57 {
        Note::GS5
    } else if index == 58 {
        Note::A5
    } else if index == 59 {
        Note::AS5
    } else if index == 60 {
        Note::B5
    } else if index == 61 {
        Note::C6
    } else if index == 62 {
        Note::CS6
    } else if index == 63 {
        Note::D6
    } else if index == 64 {
        Note::DS6
    } else if index == 65 {
        Note::E6
    } else if index == 66 {
        Note::F6
    } else if index == 67 {
        Note::FS6
    } else if index == 68 {
        Note::G6
    } else if index == 69 {
        Note::GS6
    } else if index == 70 {
        Note::A6
    } else if index == 71 {
        Note::AS6
    } else if index == 72 {
        Note::B6
    } else if index == 73 {
        Note::C7
    } else if index == 74 {
        Note::CS7
    } else if index == 75 {
        Note::D7
    } else if index == 76 {
        Note::DS7
    } else if index == 77 {
        Note::E7
    } else if index == 78 {
        Note::F7
    } else if index == 79 {
        Note::FS7
    } else if index == 80 {
        Note::G7
    } else if index == 81 {
        Note::GS7
    } else if index == 82 {
        Note::A7
    } else if index == 83 {
        Note::AS7
    } else if index == 84 {
        Note::B7
    } else if index == 85 {
        Note::C8
    } else if index == 86 {
        Note::CS8
    } else if index == 87 {
        Note::D8
    } else if index == 88 {
        Note::DS8
    } else {
        Note::Silence
    }
}

/// Where a note stands on the scale, and how it compares with the note a
/// semitone above and the note an octave above.
proof fn lemma_note_neighbours(note: Note)
    requires
        note != Note::Silence,
    ensures
        0 <= note_index(note) <= 88,
        note_at(note_index(note)) == note,
        note_index(note) < 88 ==> {
            &&& note_at(note_index(note) + 1) != Note::Silence
            &&& note_index(note_at(note_index(note) + 1)) == note_index(note) + 1
            &&& note_hz(note) < note_hz(note_at(note_index(note) + 1))
        },
        note_index(note) <= 76 ==> -1 <= note_hz(note_at(note_index(note) + 12)) - 2 * note_hz(
            note,
        ) <= 1,
{
}

/// A higher note has a higher frequency.
proof fn lemma_scale_rises(low: Note, high: Note)
    requires
        low != Note::Silence,
        high != Note::Silence,
        note_index(low) < note_index(high),
    ensures
        note_hz(low) < note_hz(high),
    decreases note_index(high) - note_index(low),
{
    lemma_note_neighbours(low);
    lemma_note_neighbours(high);
    let next = note_at(note_index(low) + 1);
    if note_index(next) < note_index(high) {
        lemma_scale_rises(next, high);
    }
}

/// Pitch rises with the note, an octave (twelve semitones) up doubles the
/// frequency to within 1 Hz of rounding, and A4 is 440 Hz.
pub proof fn lemma_note_frequencies(low: Note, high: Note)
    requires
        low != Note::Silence,
        high != Note::Silence,
    ensures
        note_index(low) < note_index(high) ==> note_hz(low) < note_hz(high),
        note_index(high) == note_index(low) + 12 ==> -1 <= note_hz(high) - 2 * note_hz(low) <= 1,
        note_hz(Note::A4) == 440,
{
    lemma_note_neighbours(low);
    lemma_note_neighbours(high);
    if note_index(low) < note_index(high) {
        lemma_scale_rises(low, high);
    }
}

/// The length of a whole note in milliseconds at `tempo` beats per minute.
pub open spec fn whole_note_ms(tempo: u16) -> u32
    recommends
        tempo > 0,
{
    (240_000int / (tempo as int)) as u32
}

/// The length of a note in milliseconds: a positive `divider` gives a
/// fraction of the whole note, a negative one the same fraction made one and
/// a half times as long (a dotted note), rounded down.
pub open spec fn note_duration_ms(whole_note: u32, divider: i16) -> int
    recommends
        divider != 0,
{
    if divider > 0 {
        whole_note as int / divider as int
    } else {
        let plain = whole_note as int / (-(divider as int));
        (3 * plain) / 2
    }
}

/// The timing of a song.
pub struct Song {
    whole_note: u32,
}

impl View for Song {
    type V = u32;

    /// The length of a whole note in milliseconds.
    closed spec fn view(&self) -> u32 {
        self.whole_note
    }
}

impl Song {
    #[verifier::type_invariant]
    closed spec fn whole_note_in_range(self) -> bool {
        0 < self.whole_note <= 240_000
    }

    /// The timing of a song at `tempo` beats per minute.
    pub fn new(tempo: u16) -> (song: Self)
        requires
            tempo > 0,
        ensures
            song@ == whole_note_ms(tempo),
    {
        let whole_note = (60_000 * 4) / tempo as u32;
        proof {
            let t = tempo as u32;
            assert(0 < 240_000u32 / t <= 240_000) by (nonlinear_arith)
                requires
                    0 < t <= 65535,
            ;
        }
        Song { whole_note }
    }

    /// The length of a note in milliseconds (see `note_duration_ms`).
    pub fn calc_note_duration(&self, divider: i16) -> (duration: u32)
        requires
            divider != 0,
        ensures
            duration == note_duration_ms(self@, divider),
            duration <= 360_000,
    {
        proof {
            use_type_invariant(self);
        }
        if divider > 0 {
            self.whole_note / divider as u32
        } else {
            let magnitude: u32 = (-(divider as i32)) as u32;
            let duration = self.whole_note / magnitude;
            (3 * duration) / 2
        }
    }

    /// How a note of the song is played: a note sounds for nine tenths of its
    /// length and is followed by a pause for the last tenth (rounded down);
    /// silence lasts the whole length.
    pub fn plan(&self, note: Note, divider: i16) -> (plan: NotePlan)
        requires
            divider != 0,
        ensures
            plan.note == note,
            note == Note::Silence ==> plan.sound_ms == note_duration_ms(self@, divider)
                && plan.pause_ms == 0,
            note != Note::Silence ==> plan.pause_ms == note_duration_ms(self@, divider) / 10
                && plan.sound_ms == note_duration_ms(self@, divider) - note_duration_ms(self@, divider) / 10,
            plan.sound_ms + plan.pause_ms == note_duration_ms(self@, divider),
    {
        let duration = self.calc_note_duration(divider);
        if note == Note::Silence {
            NotePlan { note, sound_ms: duration, pause_ms: 0 }
        } else {
            let pause_ms = duration / 10;
            NotePlan { note, sound_ms: duration - pause_ms, pause_ms }
        }
    }
}

/// The playing of one note: sound it (or stay silent) for `sound_ms`, then
/// stay silent for `pause_ms`.
#[derive(Clone, Copy, Debug, PartialEq, Eq)]
pub struct NotePlan {
    pub note: Note,
    pub sound_ms: u32,
    pub pause_ms: u32,
}

/// The note that the parking helper sounds for an LED brightness percentage:
/// higher notes as the obstacle gets closer, silence when it is out of range.
pub open spec fn brightness_note(percent: u8) -> Note {
    if 1 <= percent <= 25 {
        Note::C4
    } else if 26 <= percent <= 50 {
        Note::E4
    } else if 51 <= percent <= 75 {
        Note::A4
    } else if 76 <= percent <= 100 {
        Note::C6
    } else {
        Note::Silence
    }
}

pub fn note_for_brightness(percent: u8) -> (note: Note)
    ensures
        note == brightness_note(percent),
{
    match percent {
        1..=25 => Note::C4,
        26..=50 => Note::E4,
        51..=75 => Note::A4,
        76..=100 => Note::C6,
        _ => Note::Silence,
    }
}

/// A brighter LED never sounds a lower note.
pub proof fn lemma_brightness_note_monotonic(a: u8, b: u8)
    requires
        1 <= a <= b <= 100,
    ensures
        note_hz(brightness_note(a)) <= note_hz(brightness_note(b)),
{
}

/// The brightness scale is cut into four quarters: 1 to 25 % sounds C4,
/// 26 to 50 % E4, 51 to 75 % A4 and 76 to 100 %, the closest obstacles, C6;
/// a dark LED or a value past 100 % sounds nothing. Each quarter sounds a
/// higher note than the one below it.
pub proof fn lemma_brightness_quarters(percent: u8)
    ensures
        1 <= percent <= 100 ==> {
            let quarter = (percent - 1) / 25;
            &&& quarter == 0 ==> brightness_note(percent) == Note::C4
            &&& quarter == 1 ==> brightness_note(percent) == Note::E4
            &&& quarter == 2 ==> brightness_note(percent) == Note::A4
            &&& quarter == 3 ==> brightness_note(percent) == Note::C6
        },
        percent == 0 || percent > 100 ==> brightness_note(percent) == Note::Silence,
        note_hz(Note::C4) < note_hz(Note::E4) < note_hz(Note::A4) < note_hz(Note::C6),
{
}

/// The pulse of a sounding note is high then low, each for as many ticks of
/// the 1 MHz clock as the note's own frequency in hertz, with no truncation;
/// silence holds the pin low. So pulses follow the notes' order: a higher
/// note has a longer pulse, and two notes share a pulse only if they are
/// the same note.
pub proof fn lemma_pulse_sounds_note(note: Note, other: Note)
    ensures
        note != Note::Silence ==> {
            &&& note_pulse(note).level1 == Level::High
            &&& note_pulse(note).level2 == Level::Low
            &&& note_pulse(note).length1 as int == note_hz(note) as int
            &&& note_pulse(note).length2 as int == note_hz(note) as int
        },
        note == Note::Silence ==> note_pulse(note).level1 == Level::Low && note_pulse(note).level2
            == Level::Low,
        note != Note::Silence && other != Note::Silence && note_index(note) < note_index(other)
            ==> note_pulse(note).length1 < note_pulse(other).length1,
        note_pulse(note) == note_pulse(other) ==> note == other,
{
    lemma_note_hz_bounds(note);
    lemma_note_hz_bounds(other);
    if note != Note::Silence && other != Note::Silence {
        lemma_note_frequencies(note, other);
        lemma_note_frequencies(other, note);
        lemma_note_neighbours(note);
        lemma_note_neighbours(other);
    }
}

/// The twelfth power of `x`.
pub open spec fn pow12(x: int) -> int {
    let x2 = x * x;
    let x3 = x2 * x;
    x3 * x3 * x3 * x3
}

/// Whether `hz` is within 0.51 Hz of the equal-tempered pitch `semitones`
/// above A4 = 440 Hz, that is of 440 * 2^(semitones / 12), compared in
/// twelfth powers of hundredths of a hertz.
pub open spec fn tuned(hz: int, semitones: int) -> bool {
    let up = if semitones >= 0 {
        pow2(semitones as nat) as int
    } else {
        1
    };
    let down = if semitones < 0 {
        pow2((-semitones) as nat) as int
    } else {
        1
    };
    &&& pow12(100 * hz - 51) * down <= pow12(44000) * up
    &&& pow12(44000) * up < pow12(100 * hz + 51) * down
}

/// Every note sounds at its equal-tempered pitch: 440 Hz times 2 to the
/// power (semitones from A4) / 12, rounded to the nearest hertz (F#2, at
/// 92.4986 Hz, is rounded up to 93 Hz, 0.5014 Hz off).
pub proof fn lemma_equal_temperament(note: Note)
    requires
        note != Note::Silence,
    ensures
        tuned(note_hz(note) as int, note_index(note) - note_index(Note::A4)),
{
    lemma2_to64();
    lemma2_to64_rest();
    match note {
        Note::B0 => {
            assert(tuned(31, -46)) by (nonlinear_arith)
                requires
                    pow2(46) == 70368744177664,
            ;
        },
        Note::C1 => {
            assert(tuned(33, -45)) by (nonlinear_arith)
                requires
                    pow2(45) == 35184372088832,
            ;
        },
        Note::CS1 => {
            assert(tuned(35, -44)) by (nonlinear_arith)
                requires
                    pow2(44) == 17592186044416,
            ;
        },
        Note::D1 => {
            assert(tuned(37, -43)) by (nonlinear_arith)
                requires
                    pow2(43) == 8796093022208,
            ;
        },
        Note::DS1 => {
            assert(tuned(39, -42)) by (nonlinear_arith)
                requires
                    pow2(42) == 4398046511104,
            ;
        },
        Note::E1 => {
            assert(tuned(41, -41)) by (nonlinear_arith)
                requires
                    pow2(41) == 2199023255552,
            ;
        },
        Note::F1 => {
            assert(tuned(44, -40)) by (nonlinear_arith)
                requires
                    pow2(40) == 1099511627776,
            ;
        },
        Note::FS1 => {
            assert(tuned(46, -39)) by (nonlinear_arith)
                requires
                    pow2(39) == 549755813888,
            ;
        },
        Note::G1 => {
            assert(tuned(49, -38)) by (nonlinear_arith)
                requires
                    pow2(38) == 274877906944,
            ;
        },
        Note::GS1 => {
            assert(tuned(52, -37)) by (nonlinear_arith)
                requires
                    pow2(37) == 137438953472,
            ;
        },
        Note::A1 => {
            assert(tuned(55, -36)) by (nonlinear_arith)
                requires
                    pow2(36) == 68719476736,
            ;
        },
        Note::AS1 => {
            assert(tuned(58, -35)) by (nonlinear_arith)
                requires
                    pow2(35) == 34359738368,
            ;
        },
        Note::B1 => {
            assert(tuned(62, -34)) by (nonlinear_arith)
                requires
                    pow2(34) == 17179869184,
            ;
        },
        Note::C2 => {
            assert(tuned(65, -33)) by (nonlinear_arith)
                requires
                    pow2(33) == 8589934592,
            ;
        },
        Note::CS2 => {
            assert(tuned(69, -32)) by (nonlinear_arith)
                requires
                    pow2(32) == 4294967296,
            ;
        },
        Note::D2 => {
            assert(tuned(73, -31)) by (nonlinear_arith)
                requires
                    pow2(31) == 2147483648,
            ;
        },
        Note::DS2 => {
            assert(tuned(78, -30)) by (nonlinear_arith)
                requires
                    pow2(30) == 1073741824,
            ;
        },
        Note::E2 => {
            assert(tuned(82, -29)) by (nonlinear_arith)
                requires
                    pow2(29) == 536870912,
            ;
        },
        Note::F2 => {
            assert(tuned(87, -28)) by (nonlinear_arith)
                requires
                    pow2(28) == 268435456,
            ;
        },
        Note::FS2 => {
            assert(tuned(93, -27)) by (nonlinear_arith)
                requires
                    pow2(27) == 134217728,
            ;
        },
        Note::G2 => {
            assert(tuned(98, -26)) by (nonlinear_arith)
                requires
                    pow2(26) == 67108864,
            ;
        },
        Note::GS2 => {
            assert(tuned(104, -25)) by (nonlinear_arith)
                requires
                    pow2(25) == 33554432,
            ;
        },
        Note::A2 => {
            assert(tuned(110, -24)) by (nonlinear_arith)
                requires
                    pow2(24) == 16777216,
            ;
        },
        Note::AS2 => {
            assert(tuned(117, -23)) by (nonlinear_arith)
                requires
                    pow2(23) == 8388608,
            ;
        },
        Note::B2 => {
            assert(tuned(123, -22)) by (nonlinear_arith)
                requires
                    pow2(22) == 4194304,
            ;
        },
        Note::C3 => {
            assert(tuned(131, -21)) by (nonlinear_arith)
                requires
                    pow2(21) == 2097152,
            ;
        },
        Note::CS3 => {
            assert(tuned(139, -20)) by (nonlinear_arith)
                requires
                    pow2(20) == 1048576,
            ;
        },
        Note::D3 => {
            assert(tuned(147, -19)) by (nonlinear_arith)
                requires
                    pow2(19) == 524288,
            ;
        },
        Note::DS3 => {
            assert(tuned(156, -18)) by (nonlinear_arith)
                requires
                    pow2(18) == 262144,
            ;
        },
        Note::E3 => {
            assert(tuned(165, -17)) by (nonlinear_arith)
                requires
                    pow2(17) == 131072,
            ;
        },
        Note::F3 => {
            assert(tuned(175, -16)) by (nonlinear_arith)
                requires
                    pow2(16) == 65536,
            ;
        },
        Note::FS3 => {
            assert(tuned(185, -15)) by (nonlinear_arith)
                requires
                    pow2(15) == 32768,
            ;
        },
        Note::G3 => {
            assert(tuned(196, -14)) by (nonlinear_arith)
                requires
                    pow2(14) == 16384,
            ;
        },
        Note::GS3 => {
            assert(tuned(208, -13)) by (nonlinear_arith)
                requires
                    pow2(13) == 8192,
            ;
        },
        Note::A3 => {
            assert(tuned(220, -12)) by (nonlinear_arith)
                requires
                    pow2(12) == 4096,
            ;
        },
        Note::AS3 => {
            assert(tuned(233, -11)) by (nonlinear_arith)
                requires
                    pow2(11) == 2048,
            ;
        },
        Note::B3 => {
            assert(tuned(247, -10)) by (nonlinear_arith)
                requires
                    pow2(10) == 1024,
            ;
        },
        Note::C4 => {
            assert(tuned(262, -9)) by (nonlinear_arith)
                requires
                    pow2(9) == 512,
            ;
        },
        Note::CS4 => {
            assert(tuned(277, -8)) by (nonlinear_arith)
                requires
                    pow2(8) == 256,
            ;
        },
        Note::D4 => {
            assert(tuned(294, -7)) by (nonlinear_arith)
                requires
                    pow2(7) == 128,
            ;
        },
        Note::DS4 => {
            assert(tuned(311, -6)) by (nonlinear_arith)
                requires
                    pow2(6) == 64,
            ;
        },
        Note::E4 => {
            assert(tuned(330, -5)) by (nonlinear_arith)
                requires
                    pow2(5) == 32,
            ;
        },
        Note::F4 => {
            assert(tuned(349, -4)) by (nonlinear_arith)
                requires
                    pow2(4) == 16,
            ;
        },
        Note::FS4 => {
            assert(tuned(370, -3)) by (nonlinear_arith)
                requires
                    pow2(3) == 8,
            ;
        },
        Note::G4 => {
            assert(tuned(392, -2)) by (nonlinear_arith)
                requires
                    pow2(2) == 4,
            ;
        },
        Note::GS4 => {
            assert(tuned(415, -1)) by (nonlinear_arith)
                requires
                    pow2(1) == 2,
            ;
        },
        Note::A4 => {
            assert(tuned(440, 0)) by (nonlinear_arith)
                requires
                    pow2(0) == 1,
            ;
        },
        Note::AS4 => {
            assert(tuned(466, 1)) by (nonlinear_arith)
                requires
                    pow2(1) == 2,
            ;
        },
        Note::B4 => {
            assert(tuned(494, 2)) by (nonlinear_arith)
                requires
                    pow2(2) == 4,
            ;
        },
        Note::C5 => {
            assert(tuned(523, 3)) by (nonlinear_arith)
                requires
                    pow2(3) == 8,
            ;
        },
        Note::CS5 => {
            assert(tuned(554, 4)) by (nonlinear_arith)
                requires
                    pow2(4) == 16,
            ;
        },
        Note::D5 => {
            assert(tuned(587, 5)) by (nonlinear_arith)
                requires
                    pow2(5) == 32,
            ;
        },
        Note::DS5 => {
            assert(tuned(622, 6)) by (nonlinear_arith)
                requires
                    pow2(6) == 64,
            ;
        },
        Note::E5 => {
            assert(tuned(659, 7)) by (nonlinear_arith)
                requires
                    pow2(7) == 128,
            ;
        },
        Note::F5 => {
            assert(tuned(698, 8)) by (nonlinear_arith)
                requires
                    pow2(8) == 256,
            ;
        },
        Note::FS5 => {
            assert(tuned(740, 9)) by (nonlinear_arith)
                requires
                    pow2(9) == 512,
            ;
        },
        Note::G5 => {
            assert(tuned(784, 10)) by (nonlinear_arith)
                requires
                    pow2(10) == 1024,
            ;
        },
        Note::GS5 => {
            assert(tuned(831, 11)) by (nonlinear_arith)
                requires
                    pow2(11) == 2048,
            ;
        },
        Note::A5 => {
            assert(tuned(880, 12)) by (nonlinear_arith)
                requires
                    pow2(12) == 4096,
            ;
        },
        Note::AS5 => {
            assert(tuned(932, 13)) by (nonlinear_arith)
                requires
                    pow2(13) == 8192,
            ;
        },
        Note::B5 => {
            assert(tuned(988, 14)) by (nonlinear_arith)
                requires
                    pow2(14) == 16384,
            ;
        },
        Note::C6 => {
            assert(tuned(1047, 15)) by (nonlinear_arith)
                requires
                    pow2(15) == 32768,
            ;
        },
        Note::CS6 => {
            assert(tuned(1109, 16)) by (nonlinear_arith)
                requires
                    pow2(16) == 65536,
            ;
        },
        Note::D6 => {
            assert(tuned(1175, 17)) by (nonlinear_arith)
                requires
                    pow2(17) == 131072,
            ;
        },
        Note::DS6 => {
            assert(tuned(1245, 18)) by (nonlinear_arith)
                requires
                    pow2(18) == 262144,
            ;
        },
        Note::E6 => {
            assert(tuned(1319, 19)) by (nonlinear_arith)
                requires
                    pow2(19) == 524288,
            ;
        },
        Note::F6 => {
            assert(tuned(1397, 20)) by (nonlinear_arith)
                requires
                    pow2(20) == 1048576,
            ;
        },
        Note::FS6 => {
            assert(tuned(1480, 21)) by (nonlinear_arith)
                requires
                    pow2(21) == 2097152,
            ;
        },
        Note::G6 => {
            assert(tuned(1568, 22)) by (nonlinear_arith)
                requires
                    pow2(22) == 4194304,
            ;
        },
        Note::GS6 => {
            assert(tuned(1661, 23)) by (nonlinear_arith)
                requires
                    pow2(23) == 8388608,
            ;
        },
        Note::A6 => {
            assert(tuned(1760, 24)) by (nonlinear_arith)
                requires
                    pow2(24) == 16777216,
            ;
        },
        Note::AS6 => {
            assert(tuned(1865, 25)) by (nonlinear_arith)
                requires
                    pow2(25) == 33554432,
            ;
        },
        Note::B6 => {
            assert(tuned(1976, 26)) by (nonlinear_arith)
                requires
                    pow2(26) == 67108864,
            ;
        },
        Note::C7 => {
            assert(tuned(2093, 27)) by (nonlinear_arith)
                requires
                    pow2(27) == 134217728,
            ;
        },
        Note::CS7 => {
            assert(tuned(2217, 28)) by (nonlinear_arith)
                requires
                    pow2(28) == 268435456,
            ;
        },
        Note::D7 => {
            assert(tuned(2349, 29)) by (nonlinear_arith)
                requires
                    pow2(29) == 536870912,
            ;
        },
        Note::DS7 => {
            assert(tuned(2489, 30)) by (nonlinear_arith)
                requires
                    pow2(30) == 1073741824,
            ;
        },
        Note::E7 => {
            assert(tuned(2637, 31)) by (nonlinear_arith)
                requires
                    pow2(31) == 2147483648,
            ;
        },
        Note::F7 => {
            assert(tuned(2794, 32)) by (nonlinear_arith)
                requires
                    pow2(32) == 4294967296,
            ;
        },
        Note::FS7 => {
            assert(tuned(2960, 33)) by (nonlinear_arith)
                requires
                    pow2(33) == 8589934592,
            ;
        },
        Note::G7 => {
            assert(tuned(3136, 34)) by (nonlinear_arith)
                requires
                    pow2(34) == 17179869184,
            ;
        },
        Note::GS7 => {
            assert(tuned(3322, 35)) by (nonlinear_arith)
                requires
                    pow2(35) == 34359738368,
            ;
        },
        Note::A7 => {
            assert(tuned(3520, 36)) by (nonlinear_arith)
                requires
                    pow2(36) == 68719476736,
            ;
        },
        Note::AS7 => {
            assert(tuned(3729, 37)) by (nonlinear_arith)
                requires
                    pow2(37) == 137438953472,
            ;
        },
        Note::B7 => {
            assert(tuned(3951, 38)) by (nonlinear_arith)
                requires
                    pow2(38) == 274877906944,
            ;
        },
        Note::C8 => {
            assert(tuned(4186, 39)) by (nonlinear_arith)
                requires
                    pow2(39) == 549755813888,
            ;
        },
        Note::CS8 => {
            assert(tuned(4435, 40)) by (nonlinear_arith)
                requires
                    pow2(40) == 1099511627776,
            ;
        },
        Note::D8 => {
            assert(tuned(4699, 41)) by (nonlinear_arith)
                requires
                    pow2(41) == 2199023255552,
            ;
        },
        Note::DS8 => {
            assert(tuned(4978, 42)) by (nonlinear_arith)
                requires
                    pow2(42) == 4398046511104,
            ;
        },
        Note::Silence => {},
    }
}

} // verus!
