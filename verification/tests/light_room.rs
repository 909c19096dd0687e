use std::str::FromStr;

use wiz_lights_rs::BulbClass;
use wiz_lights_rs::BulbType;
use wiz_lights_rs::Color;
use wiz_lights_rs::Error;
use wiz_lights_rs::Ipv4;
use wiz_lights_rs::LastSet;
use wiz_lights_rs::Light;
use wiz_lights_rs::LightStatus;
use wiz_lights_rs::LightingResponse;
use wiz_lights_rs::Payload;
use wiz_lights_rs::PowerMode;
use wiz_lights_rs::Room;
use wiz_lights_rs::Speed;
use wiz_lights_rs::transport::CommandPort;

struct AlwaysReplies;

impl CommandPort for AlwaysReplies {
    fn exchange(
        &mut self,
        _ip: Ipv4,
        _port: u16,
        _message: &str,
        _timeout_ms: u64,
    ) -> Result<Vec<u8>, Error> {
        Ok(b"{\"method\":\"setPilot\",\"result\":{\"success\":true}}".to_vec())
    }

    fn pause_ms(&mut self, _delay_ms: u64) {}

    fn now_ms(&mut self) -> u64 {
        0
    }
}

#[test]
fn set_rejects_an_empty_payload() {
    let mut light = Light::new(Ipv4::new(10, 1, 2, 3), None);
    let mut port = AlwaysReplies;
    let (outcome, _, _) = light.set(&mut port, &Payload::new());
    assert!(matches!(outcome, Err(Error::NoAttribute)));
}

#[test]
fn set_echoes_the_payload_for_the_cache() {
    let ip = Ipv4::new(10, 1, 2, 3);
    let mut light = Light::new(ip, Some("desk"));
    let mut port = AlwaysReplies;
    let mut payload = Payload::new();
    payload.speed(&Speed::create(100).unwrap());
    payload.color(&Color::from_str("0,0,255").unwrap());

    let (outcome, _, _) = light.set(&mut port, &payload);
    let resp = outcome.unwrap();
    assert!(light.process_reply(&resp));

    let status = light.status().unwrap();
    assert_eq!(status.last().unwrap(), &LastSet::Color);
    assert_eq!(status.speed().unwrap().value(), 100);
    assert_eq!(status.color().unwrap(), &Color::rgb(0, 0, 255));
    assert!(status.emitting());
}

#[test]
fn replies_for_other_addresses_are_not_processed() {
    let mut light = Light::new(Ipv4::new(10, 1, 2, 3), None);
    let resp = LightingResponse::power(Ipv4::new(10, 1, 2, 4), PowerMode::On);
    assert!(!light.process_reply(&resp));
    assert!(light.status().is_none());
}

#[test]
fn power_replies_toggle_the_emitting_flag() {
    let mut light = Light::new(Ipv4::new(10, 1, 2, 3), None);
    assert!(light.process_reply(&LightingResponse::power(light.ip(), PowerMode::On)));
    assert!(light.status().unwrap().emitting());
    assert!(light.process_reply(&LightingResponse::power(light.ip(), PowerMode::Off)));
    assert!(!light.status().unwrap().emitting());
}

#[test]
fn status_updates_keep_older_attributes() {
    let mut status = LightStatus::from(&Payload::from(&wiz_lights_rs::Kelvin::new()));
    assert_eq!(status.temp().unwrap().kelvin(), 1000);
    assert!(status.speed().is_none());

    status.update(&LightStatus::from(&Payload::from(&Speed::new())));
    assert_eq!(status.temp().unwrap().kelvin(), 1000);
    assert_eq!(status.speed().unwrap().value(), 100);
}

#[test]
fn room_refuses_duplicate_addresses() {
    let mut room = Room::new("Living Room");
    let ip = Ipv4::new(192, 168, 1, 100);
    room.new_light(Light::new(ip, Some("Corner Lamp"))).unwrap();
    let result = room.new_light(Light::new(ip, Some("Imposter")));
    assert!(matches!(result, Err(Error::InvalidIP { .. })));
}

#[test]
fn room_update_light_changes_name_and_address() {
    let ip1 = Ipv4::new(10, 1, 2, 3);
    let ip2 = Ipv4::new(10, 1, 2, 4);
    let mut room = Room::new("test");

    let light_id = room.new_light(Light::new(ip1, Some("foo"))).unwrap();
    let read = room.read(light_id).unwrap();
    assert_eq!(read.name().map(|n| n.as_str()), Some("foo"));
    assert_eq!(read.ip(), ip1);

    room.update_light(light_id, &Light::new(ip2, Some("bar"))).unwrap();
    let read = room.read(light_id).unwrap();
    assert_eq!(read.name().map(|n| n.as_str()), Some("bar"));
    assert_eq!(read.ip(), ip2);

    let unchanged = room.update_light(light_id, &Light::new(ip2, Some("bar")));
    assert!(matches!(unchanged, Err(Error::NoChangeLight { .. })));
}

#[test]
fn room_delete_and_list() {
    let mut room = Room::new("test");
    assert!(room.list().is_none());
    assert!(matches!(room.delete_light(7), Err(Error::RoomNotFound { .. })));

    let id = room.new_light(Light::new(Ipv4::new(10, 1, 2, 3), None)).unwrap();
    let ids = room.list().unwrap();
    assert_eq!(ids, vec![id]);

    assert!(matches!(room.delete_light(id.wrapping_add(1)), Err(Error::LightNotFound { .. })));
    room.delete_light(id).unwrap();
    assert_eq!(room.list().unwrap().len(), 0);
}

#[test]
fn room_routes_replies_to_the_addressed_light() {
    let mut room = Room::new("test");
    let ip1 = Ipv4::new(10, 1, 2, 3);
    let ip2 = Ipv4::new(10, 1, 2, 4);
    let id1 = room.new_light(Light::new(ip1, None)).unwrap();
    let id2 = room.new_light(Light::new(ip2, None)).unwrap();

    assert!(room.process_reply(&LightingResponse::power(ip2, PowerMode::On)));
    assert!(room.read(id1).unwrap().status().is_none());
    assert!(room.read(id2).unwrap().status().unwrap().emitting());
    assert!(!room.process_reply(&LightingResponse::power(Ipv4::new(9, 9, 9, 9), PowerMode::On)));
}

#[test]
fn room_update_renames() {
    let mut room = Room::new("foo");
    let other = Room::new("bar");
    assert!(room.update(&other));
    assert_eq!(room.name(), "bar");
    assert!(!room.update(&other));
}

#[test]
fn bulb_type_from_module_name() {
    let rgb = BulbType::from_module_name("ESP01_SHRGB1C_31", Some("1.22.0"));
    assert_eq!(rgb.bulb_class, BulbClass::RGB);
    assert!(rgb.features.color);
    assert!(rgb.features.color_tmp);
    assert!(rgb.features.effect);
    assert!(rgb.features.brightness);
    assert!(!rgb.features.dual_head);
    assert_eq!(rgb.kelvin_range.min, 2200);
    assert_eq!(rgb.kelvin_range.max, 6500);
    assert_eq!(rgb.white_channels, 2);
    assert_eq!(rgb.name, "ESP01_SHRGB1C_31");
    assert_eq!(rgb.fw_version.as_deref(), Some("1.22.0"));

    let tw = BulbType::from_module_name("ESP01_SHTW1C_31", None);
    assert_eq!(tw.bulb_class, BulbClass::TW);
    assert!(tw.features.color_tmp);
    assert!(!tw.features.color);
    assert_eq!(tw.white_channels, 2);

    let dw = BulbType::from_module_name("ESP01_SHDW1_31", None);
    assert_eq!(dw.bulb_class, BulbClass::DW);
    assert!(dw.features.brightness);
    assert!(!dw.features.color_tmp);
    assert_eq!(dw.white_channels, 1);

    let socket = BulbType::from_module_name("ESP10_SOCKET_06", None);
    assert_eq!(socket.bulb_class, BulbClass::Socket);
    assert!(!socket.features.brightness);

    let fan = BulbType::from_module_name("ESP03_FANDIMS_31", None);
    assert_eq!(fan.bulb_class, BulbClass::FanDim);
    assert!(fan.features.fan);
    assert!(fan.features.fan_breeze_mode);
    assert!(fan.features.fan_reverse);
    assert_eq!(fan.white_channels, 1);

    let dual = BulbType::from_module_name("ESP24_DHRGB_01", None);
    assert!(dual.features.dual_head);
    assert_eq!(dual.bulb_class, BulbClass::RGB);

    let unknown = BulbType::from_module_name("Unknown", None);
    assert_eq!(unknown.bulb_class, BulbClass::DW);
    assert!(!unknown.features.brightness);
    assert_eq!(unknown.kelvin_range.min, 2700);
    assert_eq!(unknown.white_channels, 0);
}

#[test]
fn update_light_on_empty_room_reports_no_lights() {
    let mut room = Room::new("empty");
    let result = room.update_light(3, &Light::new(Ipv4::new(1, 2, 3, 4), None));
    assert!(matches!(result, Err(Error::NoLights { .. })));
}

#[test]
fn error_messages_render() {
    let e = Error::Socket { action: "bind".to_string(), detail: "denied".to_string() };
    assert_eq!(e.message(), "socket bind error: denied");
    assert_eq!(Error::NoAttribute.message(), "invalid payload; no attributes set");
    assert_eq!(
        Error::NotStarted.message(),
        "push listener not started; no registration message available"
    );
    assert_eq!(Error::RoomNotFound { room_id: 12 }.message(), "room not found 12");
    assert_eq!(
        Error::InvalidIP { ip: Ipv4::new(10, 0, 0, 1), reason: "already known".to_string() }
            .message(),
        "light with ip 10.0.0.1 is invalid because the IP is already known"
    );
    assert_eq!(
        Error::JsonDump { detail: "d".to_string() }.message(),
        "failed to dump json: d"
    );
    assert_eq!(
        Error::JsonLoad { detail: "d".to_string() }.message(),
        "failed to load json: d"
    );
    assert_eq!(
        Error::Utf8Decode { detail: "d".to_string() }.message(),
        "utf8 decoding error: d"
    );
    assert_eq!(
        Error::LightNotFound { room_id: 1, light_id: 2 }.message(),
        "light 2 not found in room 1"
    );
    assert_eq!(Error::NoChangeRoom { room_id: 5 }.message(), "no change for room 5");
    assert_eq!(
        Error::NoChangeLight { room_id: 1, light_id: 2 }.message(),
        "no change for light 2 in room 1"
    );
    assert_eq!(Error::NoLights { room_id: 5 }.message(), "no lights in room 5");
    assert_eq!(
        Error::InvalidColorString { text: "x,y".to_string() }.message(),
        "invalid color string: x,y"
    );
}
