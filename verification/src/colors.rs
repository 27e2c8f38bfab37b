//! Static single-color patterns for the LED strip, and the colors they show.
//!
//! Colors are hue, saturation and value in ten-thousandths: 10000 is 1.0.

use vstd::prelude::*;

verus! {

/// A color as hue, saturation and value, each in ten-thousandths of the
/// full range (0 to 10000).
#[derive(Clone, Copy, Debug, PartialEq, Eq, Structural)]
pub struct HsvColor {
    pub hue: u16,
    pub saturation: u16,
    pub value: u16,
}

/// The colors a single-color pattern can show.
#[derive(Clone, Copy, Debug, PartialEq, Eq, Structural)]
pub enum SingleColorParams {
    Amber,
    SoftAmber,
    CandleWarm,
    Pumpkin,
    Green,
    UltraSoftNightYellow,
    UltraSoftNightOrange,
    WarmWhite,
    WledWarmWhite,
}

/// The hue, saturation and value of each color.
pub open spec fn single_color_hsv(color: SingleColorParams) -> HsvColor {
    match color {
        SingleColorParams::Amber => HsvColor { hue: 828, saturation: 5922, value: 10000 },
        SingleColorParams::SoftAmber => HsvColor { hue: 734, saturation: 6941, value: 10000 },
        SingleColorParams::CandleWarm => HsvColor { hue: 711, saturation: 8000, value: 10000 },
        SingleColorParams::Pumpkin => HsvColor { hue: 556, saturation: 7500, value: 8000 },
        SingleColorParams::Green => HsvColor { hue: 3333, saturation: 10000, value: 10000 },
        SingleColorParams::UltraSoftNightYellow => HsvColor { hue: 370, saturation: 10000, value: 3529 },
        SingleColorParams::UltraSoftNightOrange => HsvColor { hue: 0, saturation: 8000, value: 784 },
        SingleColorParams::WarmWhite => HsvColor { hue: 1000, saturation: 1600, value: 1200 },
        SingleColorParams::WledWarmWhite => HsvColor { hue: 830, saturation: 2500, value: 1200 },
    }
}

impl From<&SingleColorParams> for HsvColor {
    fn from(color: &SingleColorParams) -> (hsv: HsvColor)
        ensures
            hsv == single_color_hsv(*color),
    {
        match color {
            SingleColorParams::Amber => HsvColor { hue: 828, saturation: 5922, value: 10000 },
            SingleColorParams::SoftAmber => HsvColor { hue: 734, saturation: 6941, value: 10000 },
            SingleColorParams::CandleWarm => HsvColor { hue: 711, saturation: 8000, value: 10000 },
            SingleColorParams::Pumpkin => HsvColor { hue: 556, saturation: 7500, value: 8000 },
            SingleColorParams::Green => HsvColor { hue: 3333, saturation: 10000, value: 10000 },
            SingleColorParams::UltraSoftNightYellow => HsvColor { hue: 370, saturation: 10000, value: 3529 },
            SingleColorParams::UltraSoftNightOrange => HsvColor { hue: 0, saturation: 8000, value: 784 },
            SingleColorParams::WarmWhite => HsvColor { hue: 1000, saturation: 1600, value: 1200 },
            SingleColorParams::WledWarmWhite => HsvColor { hue: 830, saturation: 2500, value: 1200 },
        }
    }
}

impl vstd::std_specs::convert::FromSpecImpl<&SingleColorParams> for HsvColor {
    open spec fn obeys_from_spec() -> bool {
        true
    }

    open spec fn from_spec(color: &SingleColorParams) -> HsvColor {
        single_color_hsv(*color)
    }
}

/// A pattern that lights all LEDs of a strip with one color.
#[derive(Clone, Copy, Debug)]
pub struct SingleColor {
    color: SingleColorParams,
}

impl SingleColor {
    /// The pattern that shows `color` on every LED.
    pub fn new(color: SingleColorParams) -> (pattern: Self)
        ensures
            pattern.color() == color,
    {
        SingleColor { color }
    }

    /// The color the pattern shows.
    pub closed spec fn color(self) -> SingleColorParams {
        self.color
    }

    /// The color of every LED, at any time: the pattern is static.
    pub fn tick(&self, _time_in_ms: u64) -> (hsv: HsvColor)
        ensures
            hsv == single_color_hsv(self.color()),
    {
        HsvColor::from(&self.color)
    }
}

/// The colours a single-colour pattern can show.
#[derive(Clone, Copy, Debug, PartialEq, Eq, Structural)]
pub enum SingleColourParams {
    Amber,
    SoftAmber,
    CandleWarm,
    Pumpkin,
    Green,
    UltraSoftNightYellow,
    UltraSoftNightOrange,
    WarmWhite,
}

/// The hue, saturation and value of each colour.
pub open spec fn single_colour_hsv(colour: SingleColourParams) -> HsvColor {
    match colour {
        SingleColourParams::Amber => HsvColor { hue: 828, saturation: 5922, value: 10000 },
        SingleColourParams::SoftAmber => HsvColor { hue: 734, saturation: 6941, value: 10000 },
        SingleColourParams::CandleWarm => HsvColor { hue: 711, saturation: 8000, value: 10000 },
        SingleColourParams::Pumpkin => HsvColor { hue: 556, saturation: 7500, value: 8000 },
        SingleColourParams::Green => HsvColor { hue: 3333, saturation: 10000, value: 10000 },
        SingleColourParams::UltraSoftNightYellow => HsvColor { hue: 370, saturation: 10000, value: 3529 },
        SingleColourParams::UltraSoftNightOrange => HsvColor { hue: 0, saturation: 8000, value: 784 },
        SingleColourParams::WarmWhite => HsvColor { hue: 1000, saturation: 1600, value: 1200 },
    }
}

impl From<&SingleColourParams> for HsvColor {
    fn from(colour: &SingleColourParams) -> (hsv: HsvColor)
        ensures
            hsv == single_colour_hsv(*colour),
    {
        match colour {
            SingleColourParams::Amber => HsvColor { hue: 828, saturation: 5922, value: 10000 },
            SingleColourParams::SoftAmber => HsvColor { hue: 734, saturation: 6941, value: 10000 },
            SingleColourParams::CandleWarm => HsvColor { hue: 711, saturation: 8000, value: 10000 },
            SingleColourParams::Pumpkin => HsvColor { hue: 556, saturation: 7500, value: 8000 },
            SingleColourParams::Green => HsvColor { hue: 3333, saturation: 10000, value: 10000 },
            SingleColourParams::UltraSoftNightYellow => HsvColor { hue: 370, saturation: 10000, value: 3529 },
            SingleColourParams::UltraSoftNightOrange => HsvColor { hue: 0, saturation: 8000, value: 784 },
            SingleColourParams::WarmWhite => HsvColor { hue: 1000, saturation: 1600, value: 1200 },
        }
    }
}

impl vstd::std_specs::convert::FromSpecImpl<&SingleColourParams> for HsvColor {
    open spec fn obeys_from_spec() -> bool {
        true
    }

    open spec fn from_spec(colour: &SingleColourParams) -> HsvColor {
        single_colour_hsv(*colour)
    }
}

/// A pattern that lights all LEDs of a strip with one colour.
#[derive(Clone, Copy, Debug)]
pub struct SingleColour {
    colour: SingleColourParams,
}

impl SingleColour {
    /// The pattern that shows `colour` on every LED.
    pub fn new(colour: SingleColourParams) -> (pattern: Self)
        ensures
            pattern.colour() == colour,
    {
        SingleColour { colour }
    }

    /// The colour the pattern shows.
    pub closed spec fn colour(self) -> SingleColourParams {
        self.colour
    }

    /// The color of every LED, at any time: the pattern is static.
    pub fn tick(&self, _time_in_ms: u64) -> (hsv: HsvColor)
        ensures
            hsv == single_colour_hsv(self.colour()),
    {
        HsvColor::from(&self.colour)
    }
}

/// Every color's components lie within the full range.
pub proof fn lemma_colors_in_range(color: SingleColorParams, colour: SingleColourParams)
    ensures
        single_color_hsv(color).hue <= 10000 && single_color_hsv(color).saturation <= 10000
            && single_color_hsv(color).value <= 10000,
        single_colour_hsv(colour).hue <= 10000 && single_colour_hsv(colour).saturation <= 10000
            && single_colour_hsv(colour).value <= 10000,
{
}

/// The US and British spellings of a color name the same color, so both
/// patterns light the strip identically; only `WledWarmWhite` has no
/// British spelling.
pub open spec fn british_spelling(color: SingleColorParams) -> Option<SingleColourParams> {
    match color {
        SingleColorParams::Amber => Some(SingleColourParams::Amber),
        SingleColorParams::SoftAmber => Some(SingleColourParams::SoftAmber),
        SingleColorParams::CandleWarm => Some(SingleColourParams::CandleWarm),
        SingleColorParams::Pumpkin => Some(SingleColourParams::Pumpkin),
        SingleColorParams::Green => Some(SingleColourParams::Green),
        SingleColorParams::UltraSoftNightYellow => Some(SingleColourParams::UltraSoftNightYellow),
        SingleColorParams::UltraSoftNightOrange => Some(SingleColourParams::UltraSoftNightOrange),
        SingleColorParams::WarmWhite => Some(SingleColourParams::WarmWhite),
        SingleColorParams::WledWarmWhite => None,
    }
}

/// A color and its British spelling show the same hue, saturation and value.
pub proof fn lemma_spellings_agree(color: SingleColorParams)
    ensures
        british_spelling(color) matches Some(colour) ==> single_color_hsv(color)
            == single_colour_hsv(colour),
{
}

/// What the colors look like: green is a fully saturated, full-brightness
/// hue a third of the way round the color circle (120 degrees); every other
/// color is a warm hue between red and orange (at most 36 degrees); the two
/// night colors are dim (at most 36 % brightness); the two warm whites are
/// pale (at most 25 % saturation).
pub proof fn lemma_color_appearance(color: SingleColorParams)
    ensures
        color == SingleColorParams::Green ==> {
            &&& 9999 <= 3 * single_color_hsv(color).hue <= 10001
            &&& single_color_hsv(color).saturation == 10000
            &&& single_color_hsv(color).value == 10000
        },
        color != SingleColorParams::Green ==> single_color_hsv(color).hue * 360 <= 36 * 10000,
        (color == SingleColorParams::UltraSoftNightYellow || color
            == SingleColorParams::UltraSoftNightOrange) ==> single_color_hsv(color).value * 100
            <= 36 * 10000,
        (color == SingleColorParams::WarmWhite || color == SingleColorParams::WledWarmWhite)
            ==> single_color_hsv(color).saturation * 100 <= 25 * 10000,
{
}

/// Each color has the hue, saturation and value of the reference palette,
/// whose fractions are given to four decimals (0.0828 is 828 here).
pub proof fn lemma_color_palette()
    ensures
        single_color_hsv(SingleColorParams::Amber) == (HsvColor { hue: 828, saturation: 5922, value: 10000 }),
        single_color_hsv(SingleColorParams::SoftAmber) == (HsvColor { hue: 734, saturation: 6941, value: 10000 }),
        single_color_hsv(SingleColorParams::CandleWarm) == (HsvColor { hue: 711, saturation: 8000, value: 10000 }),
        single_color_hsv(SingleColorParams::Pumpkin) == (HsvColor { hue: 556, saturation: 7500, value: 8000 }),
        single_color_hsv(SingleColorParams::Green) == (HsvColor { hue: 3333, saturation: 10000, value: 10000 }),
        single_color_hsv(SingleColorParams::UltraSoftNightYellow) == (HsvColor { hue: 370, saturation: 10000, value: 3529 }),
        single_color_hsv(SingleColorParams::UltraSoftNightOrange) == (HsvColor { hue: 0, saturation: 8000, value: 784 }),
        single_color_hsv(SingleColorParams::WarmWhite) == (HsvColor { hue: 1000, saturation: 1600, value: 1200 }),
        single_color_hsv(SingleColorParams::WledWarmWhite) == (HsvColor { hue: 830, saturation: 2500, value: 1200 }),
{
}

} // verus!
