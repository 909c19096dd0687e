use std::str::FromStr;

use wiz_lights_rs::Brightness;
use wiz_lights_rs::Color;
use wiz_lights_rs::ColorRGBW;
use wiz_lights_rs::ColorRGBWW;
use wiz_lights_rs::FanDirection;
use wiz_lights_rs::FanMode;
use wiz_lights_rs::FanSpeed;
use wiz_lights_rs::FanState;
use wiz_lights_rs::HueSaturation;
use wiz_lights_rs::Kelvin;
use wiz_lights_rs::Ratio;
use wiz_lights_rs::SceneMode;
use wiz_lights_rs::Speed;
use wiz_lights_rs::White;

#[test]
fn brightness_bounds() {
    assert!(Brightness::create(9).is_none());
    assert!(Brightness::create(10).is_some());
    assert!(Brightness::create(100).is_some());
    assert!(Brightness::create(101).is_none());
    assert_eq!(Brightness::new().value(), 100);
    assert_eq!(Brightness::create_or(9).value(), 100);
    assert_eq!(Brightness::create_or(10).value(), 10);
    assert_eq!(Brightness::create_or(100).value(), 100);
    assert_eq!(Brightness::create_or(101).value(), 100);
}

#[test]
fn speed_bounds() {
    assert!(Speed::create(19).is_none());
    assert!(Speed::create(20).is_some());
    assert!(Speed::create(200).is_some());
    assert!(Speed::create(201).is_none());
    assert_eq!(Speed::new().value(), 100);
    assert_eq!(Speed::create_or(19).value(), 100);
    assert_eq!(Speed::create_or(20).value(), 20);
    assert_eq!(Speed::create_or(200).value(), 200);
    assert_eq!(Speed::create_or(201).value(), 100);
}

#[test]
fn white_bounds() {
    assert!(White::create(0).is_none());
    assert!(White::create(1).is_some());
    assert!(White::create(100).is_some());
    assert!(White::create(101).is_none());
    assert_eq!(White::new().value(), 100);
}

#[test]
fn ratio_bounds() {
    assert!(Ratio::create(0).is_some());
    assert!(Ratio::create(50).is_some());
    assert!(Ratio::create(100).is_some());
    assert!(Ratio::create(101).is_none());
    assert_eq!(Ratio::new().value(), 50);
}

#[test]
fn kelvin_bounds() {
    assert!(Kelvin::create(999).is_none());
    assert!(Kelvin::create(1000).is_some());
    assert!(Kelvin::create(8000).is_some());
    assert!(Kelvin::create(8001).is_none());
    assert_eq!(Kelvin::new().kelvin(), 1000);
}

#[test]
fn scene_ids_round_trip() {
    assert!(SceneMode::create(1).is_some());
    assert!(SceneMode::create(35).is_some());
    assert!(SceneMode::create(1000).is_some());
    assert!(SceneMode::create(999).is_none());
    assert!(SceneMode::create(0).is_none());
    assert!(SceneMode::create(34).is_none());
    assert_eq!(SceneMode::create(15), Some(SceneMode::Focus));
    assert_eq!(SceneMode::Focus.id(), 15);
    assert_eq!(SceneMode::Rhythm.id(), 1000);
    for id in 1..=36u16 {
        if let Some(scene) = SceneMode::create(id) {
            assert_eq!(scene.id(), id);
        }
    }
}

#[test]
fn fan_values() {
    assert_eq!(FanState::Off.value(), 0);
    assert_eq!(FanState::On.value(), 1);
    assert_eq!(FanState::from_bool(true), FanState::On);
    assert_eq!(FanState::from_bool(false), FanState::Off);
    assert_eq!(FanMode::Normal.value(), 1);
    assert_eq!(FanMode::Breeze.value(), 2);
    assert_eq!(FanDirection::Forward.value(), 0);
    assert_eq!(FanDirection::Reverse.value(), 1);
    assert!(FanSpeed::create(0, None).is_none());
    assert!(FanSpeed::create(1, None).is_some());
    assert!(FanSpeed::create(6, None).is_some());
    assert!(FanSpeed::create(7, None).is_none());
    assert!(FanSpeed::create(7, Some(10)).is_some());
    assert_eq!(FanSpeed::create(3, None).unwrap().value(), 3);
}

#[test]
fn color_parses_comma_separated_fields() {
    let color = Color::from_str("255,128,0").unwrap();
    assert_eq!((color.red(), color.green(), color.blue()), (255, 128, 0));
    assert!(Color::from_str("1,2").is_err());
    assert!(Color::from_str("1,2,3,4").is_err());
    // Fields that fail to parse read as zero, as std's u8 parser maps them.
    let folded = Color::from_str("300,abc,7").unwrap();
    assert_eq!((folded.red(), folded.green(), folded.blue()), (0, 0, 7));
    let plus = Color::from_str("+12,0,0").unwrap();
    assert_eq!(plus.red(), 12);
}

#[test]
fn rgbw_and_rgbww_parse_and_project() {
    let rgbw = ColorRGBW::from_str("255,128,0,50").unwrap();
    assert_eq!(rgbw.warm, 50);
    assert_eq!(rgbw.to_rgb(), Color::rgb(255, 128, 0));
    assert!(ColorRGBW::from_str("1,2,3").is_err());

    let rgbww = ColorRGBWW::from_str("255,128,0,30,50").unwrap();
    assert_eq!((rgbww.cool, rgbww.warm), (30, 50));
    assert_eq!(rgbww.to_rgb(), Color::rgb(255, 128, 0));
    assert_eq!(rgbww.to_rgbw(), ColorRGBW::new(255, 128, 0, 50));
    assert!(ColorRGBWW::from_str("1,2,3,4").is_err());
}

#[test]
fn hue_saturation_bounds_and_conversion() {
    assert!(HueSaturation::create(0, 100).is_some());
    assert!(HueSaturation::create(120, 50).is_some());
    assert!(HueSaturation::create(361, 50).is_none());
    assert!(HueSaturation::create(180, 101).is_none());

    let red = HueSaturation::create(0, 100).unwrap().to_color();
    assert_eq!((red.red(), red.green(), red.blue()), (255, 0, 0));
    let green = HueSaturation::create(120, 100).unwrap().to_color();
    assert_eq!((green.red(), green.green(), green.blue()), (0, 255, 0));
    let blue = HueSaturation::create(240, 100).unwrap().to_color();
    assert_eq!((blue.red(), blue.green(), blue.blue()), (0, 0, 255));
    let gray = HueSaturation::create(200, 0).unwrap().to_color();
    assert_eq!((gray.red(), gray.green(), gray.blue()), (255, 255, 255));
    assert_eq!(HueSaturation::create(0, 100).unwrap().hue(), 0);
    assert_eq!(HueSaturation::create(0, 100).unwrap().saturation(), 100);
}

#[test]
fn hue_saturation_sector_boundaries() {
    // Full circle lands back on red.
    let wrap = HueSaturation::create(360, 100).unwrap().to_color();
    assert_eq!((wrap.red(), wrap.green(), wrap.blue()), (255, 0, 0));
    // Sector edges mix two channels fully.
    let yellow = HueSaturation::create(60, 100).unwrap().to_color();
    assert_eq!((yellow.red(), yellow.green(), yellow.blue()), (255, 255, 0));
    let cyan = HueSaturation::create(180, 100).unwrap().to_color();
    assert_eq!((cyan.red(), cyan.green(), cyan.blue()), (0, 255, 255));
    // Inside a sector the fraction is computed exactly: at 100 degrees the
    // falling channel is 255 * 2000 / 6000, truncated to 85.
    let lime = HueSaturation::create(100, 100).unwrap().to_color();
    assert_eq!((lime.red(), lime.green(), lime.blue()), (85, 255, 0));
    // Half saturation keeps the floor channel at 127 (254.99../2 truncated).
    let pale = HueSaturation::create(0, 50).unwrap().to_color();
    assert_eq!((pale.red(), pale.green(), pale.blue()), (255, 127, 127));
}
