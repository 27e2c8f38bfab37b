use esp32_sensors::colors::{HsvColor, SingleColor, SingleColorParams, SingleColour, SingleColourParams};

#[test]
fn warm_white_pattern() {
    let pattern = SingleColor::new(SingleColorParams::WledWarmWhite);
    let expected = HsvColor { hue: 830, saturation: 2500, value: 1200 };
    assert_eq!(pattern.tick(0), expected);
    assert_eq!(pattern.tick(123_456), expected);
}

#[test]
fn colour_table() {
    assert_eq!(
        HsvColor::from(&SingleColourParams::Amber),
        HsvColor { hue: 828, saturation: 5922, value: 10000 }
    );
    assert_eq!(
        SingleColour::new(SingleColourParams::UltraSoftNightOrange).tick(5),
        HsvColor { hue: 0, saturation: 8000, value: 784 }
    );
    assert_eq!(
        HsvColor::from(&SingleColorParams::Pumpkin),
        HsvColor { hue: 556, saturation: 7500, value: 8000 }
    );
}

#[test]
fn ten_thousandths_give_the_same_f32() {
    let hsv = HsvColor::from(&SingleColorParams::Amber);
    assert_eq!(hsv.hue as f32 / 10_000.0, 0.0828f32);
    assert_eq!(hsv.saturation as f32 / 10_000.0, 0.5922f32);
    let hsv = HsvColor::from(&SingleColorParams::UltraSoftNightYellow);
    assert_eq!(hsv.hue as f32 / 10_000.0, 0.037f32);
    assert_eq!(hsv.value as f32 / 10_000.0, 0.3529f32);
}
