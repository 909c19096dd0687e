use wiz_lights_rs::Brightness;
use wiz_lights_rs::Color;
use wiz_lights_rs::FanState;
use wiz_lights_rs::Kelvin;
use wiz_lights_rs::Payload;
use wiz_lights_rs::Ratio;
use wiz_lights_rs::SceneMode;
use wiz_lights_rs::Speed;
use wiz_lights_rs::White;

#[test]
fn empty_payload_is_invalid() {
    assert_eq!(Payload::new().is_valid(), false);
}

#[test]
fn speed_alone_is_invalid_until_a_scene_joins() {
    let mut payload = Payload::new();
    payload.speed(&Speed::create(100).unwrap());
    assert_eq!(payload.is_valid(), false);
    payload.scene(&SceneMode::Focus);
    assert_eq!(payload.is_valid(), true);
}

#[test]
fn ratio_alone_is_invalid_with_brightness_valid() {
    let mut payload = Payload::new();
    payload.ratio(&Ratio::create(75).unwrap());
    assert_eq!(payload.is_valid(), false);
    payload.brightness(&Brightness::new());
    assert_eq!(payload.is_valid(), true);
}

#[test]
fn fan_settings_alone_do_not_make_a_lighting_payload() {
    let mut payload = Payload::new();
    payload.fan_state(&FanState::On);
    assert_eq!(payload.is_valid(), false);
}

#[test]
fn each_lighting_attribute_validates() {
    let mut with_temp = Payload::new();
    with_temp.temp(&Kelvin::create(4000).unwrap());
    assert!(with_temp.is_valid());

    let mut with_color = Payload::new();
    with_color.color(&Color::rgb(1, 2, 3));
    assert!(with_color.is_valid());

    let mut with_cool = Payload::new();
    with_cool.cool(&White::create(50).unwrap());
    assert!(with_cool.is_valid());

    let mut with_warm = Payload::new();
    with_warm.warm(&White::create(50).unwrap());
    assert!(with_warm.is_valid());
}

#[test]
fn from_single_attributes() {
    let p = Payload::from(&SceneMode::Sunset);
    assert_eq!(p.scene, Some(3));
    assert!(p.is_valid());
    let p = Payload::from(&Color::rgb(9, 8, 7));
    assert_eq!((p.red, p.green, p.blue), (Some(9), Some(8), Some(7)));
    let p = Payload::from(&Speed::new());
    assert_eq!(p.speed, Some(100));
    assert!(!p.is_valid());
}

#[test]
fn get_color_needs_all_three_channels() {
    let mut p = Payload::new();
    p.red = Some(1);
    p.green = Some(2);
    assert!(p.get_color().is_none());
    p.blue = Some(3);
    assert_eq!(p.get_color(), Some(Color::rgb(1, 2, 3)));
}
