use std::str::FromStr;

use wiz_lights_rs::Brightness;
use wiz_lights_rs::Color;
use wiz_lights_rs::Ipv4;
use wiz_lights_rs::Payload;
use wiz_lights_rs::SceneMode;
use wiz_lights_rs::codec::encode_command;
use wiz_lights_rs::codec::encode_payload;
use wiz_lights_rs::codec::encode_probe;
use wiz_lights_rs::codec::encode_registration;
use wiz_lights_rs::codec::encode_state_params;
use wiz_lights_rs::codec::mac_from_seed;

#[test]
fn command_round_trips_through_a_json_receiver() {
    let mut payload = Payload::new();
    payload.brightness(&Brightness::create(80).unwrap());
    payload.color(&Color::from_str("255,128,0").unwrap());
    let params = encode_payload(&payload);
    let message = encode_command("setPilot", Some(params.as_str()));

    let decoded: serde_json::Value = serde_json::from_str(&message).unwrap();
    assert_eq!(decoded.get("method").and_then(|m| m.as_str()), Some("setPilot"));
    let sent = decoded.get("params").unwrap();
    assert_eq!(sent.get("dimming").and_then(|d| d.as_u64()), Some(80));
    assert_eq!(sent.get("r").and_then(|v| v.as_u64()), Some(255));
    assert_eq!(sent.get("g").and_then(|v| v.as_u64()), Some(128));
    assert_eq!(sent.get("b").and_then(|v| v.as_u64()), Some(0));
}

#[test]
fn bare_command_round_trips() {
    let message = encode_command("getPilot", None);
    assert_eq!(message, "{\"method\":\"getPilot\"}");
    let decoded: serde_json::Value = serde_json::from_str(&message).unwrap();
    assert_eq!(decoded.get("method").and_then(|m| m.as_str()), Some("getPilot"));
}

#[test]
fn empty_payload_encodes_as_empty_object() {
    assert_eq!(encode_payload(&Payload::new()), "{}");
}

#[test]
fn payload_fields_use_wire_names_in_order() {
    let mut payload = Payload::new();
    payload.scene(&SceneMode::Sunset);
    payload.brightness(&Brightness::create(35).unwrap());
    assert_eq!(encode_payload(&payload), "{\"sceneId\":3,\"dimming\":35}");
}

#[test]
fn state_params_encode_the_flag() {
    assert_eq!(encode_state_params(true), "{\"state\":true}");
    assert_eq!(encode_state_params(false), "{\"state\":false}");
}

#[test]
fn probe_matches_the_registration_broadcast() {
    let probe = encode_probe();
    let decoded: serde_json::Value = serde_json::from_str(&probe).unwrap();
    assert_eq!(decoded.get("method").and_then(|m| m.as_str()), Some("registration"));
    let params = decoded.get("params").unwrap();
    assert_eq!(params.get("phoneMac").and_then(|m| m.as_str()), Some("AAAAAAAAAAAA"));
    assert_eq!(params.get("register").and_then(|r| r.as_bool()), Some(false));
    assert_eq!(params.get("phoneIp").and_then(|p| p.as_str()), Some("1.2.3.4"));
    assert_eq!(params.get("id").and_then(|i| i.as_str()), Some("1"));
}

#[test]
fn registration_message_embeds_address_and_identifier() {
    let message = encode_registration(&Ipv4::new(192, 168, 0, 10), "0123456789AB");
    assert_eq!(
        message,
        "{\"method\":\"registration\",\"params\":{\"phoneIp\":\"192.168.0.10\",\"phoneMac\":\"0123456789AB\",\"register\":true}}"
    );
}

#[test]
fn mac_from_seed_renders_low_48_bits_uppercase() {
    assert_eq!(mac_from_seed(0x0123456789ab), "0123456789AB");
    assert_eq!(mac_from_seed(0xffff_0123456789ab), "0123456789AB");
    assert_eq!(mac_from_seed(0), "000000000000");
    assert_eq!(mac_from_seed(0xdeadbeef), "0000DEADBEEF");
}

#[test]
fn ipv4_renders_dotted_decimal() {
    assert_eq!(Ipv4::new(0, 0, 0, 0).to_text(), "0.0.0.0");
    assert_eq!(Ipv4::new(255, 255, 255, 255).to_text(), "255.255.255.255");
    assert_eq!(Ipv4::new(10, 1, 2, 3).to_text(), "10.1.2.3");
}
