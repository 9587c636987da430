use frostlux::light::Light;
use frostlux::message::ClientError;
use frostlux::registry::{
    brightness_payload, collect_lights, color_payload, device_ids, device_path, devices_path,
    light_from_device, power_payload, push_decimal, scene_payload, RawBulb, RawDevice,
};

fn bulb_from_json(b: &serde_json::Value) -> RawBulb {
    RawBulb {
        color_hex: b.get("5706").and_then(|x| x.as_str()).map(String::from),
        on: b.get("5850").and_then(|x| x.as_u64()).map(|x| x as u32),
        brightness: b.get("5851").and_then(|x| x.as_u64()).map(|x| x as u8),
    }
}

fn echo_device(payload: &str) -> RawDevice {
    let v: serde_json::Value = serde_json::from_str(payload).unwrap();
    let bulbs = v["3311"].as_array().unwrap().iter().map(bulb_from_json).collect();
    RawDevice { bulbs: Some(bulbs), name: "Echo".to_string(), id: 5, reachable: Some(1) }
}

#[test]
fn paths_of_resources() {
    assert_eq!(devices_path(), "15001");
    assert_eq!(device_path(1), "15001/1");
    assert_eq!(device_path(65537), "15001/65537");
    assert_eq!(device_path(0), "15001/0");
    assert_eq!(device_path(u64::MAX), format!("15001/{}", u64::MAX));
    let mut s = String::from("x");
    push_decimal(&mut s, 1203);
    assert_eq!(s, "x1203");
}

#[test]
fn power_off_touches_only_on_off_key() {
    let p = power_payload(false);
    assert_eq!(p, "{\"3311\":[{\"5850\":0}]}");
    let v: serde_json::Value = serde_json::from_str(&p).unwrap();
    let bulb = v["3311"][0].as_object().unwrap();
    assert_eq!(bulb.len(), 1);
    assert_eq!(bulb["5850"], 0);
    assert!(bulb.get("5851").is_none());
    assert!(bulb.get("5706").is_none());
    assert_eq!(power_payload(true), "{\"3311\":[{\"5850\":1}]}");
}

#[test]
fn brightness_payload_sets_power() {
    assert_eq!(brightness_payload(0), "{\"3311\":[{\"5850\":0,\"5851\":0}]}");
    assert_eq!(brightness_payload(200), "{\"3311\":[{\"5850\":1,\"5851\":200}]}");
}

#[test]
fn color_and_scene_payloads() {
    assert_eq!(color_payload("f1e0b5"), "{\"3311\":[{\"5706\":\"f1e0b5\"}]}");
    assert_eq!(color_payload("a\"b"), "{\"3311\":[{\"5706\":\"a\\\"b\"}]}");
    assert_eq!(
        scene_payload(true, 127, "f1e0b5"),
        "{\"3311\":[{\"5706\":\"f1e0b5\",\"5850\":1,\"5851\":127}]}"
    );
    assert_eq!(
        scene_payload(false, 0, "f5faf6"),
        "{\"3311\":[{\"5706\":\"f5faf6\",\"5850\":0,\"5851\":0}]}"
    );
}

#[test]
fn brightness_round_trip_through_echo() {
    let off = light_from_device(&echo_device(&brightness_payload(0))).unwrap();
    assert!(!off.on);
    assert_eq!(off.brightness, 0);
    let on = light_from_device(&echo_device(&brightness_payload(200))).unwrap();
    assert!(on.on);
    assert_eq!(on.brightness, 200);
}

#[test]
fn device_id_list_decoding() {
    assert_eq!(device_ids(b"[1, 2]").unwrap(), vec![1, 2]);
    assert_eq!(device_ids(b"[]").unwrap(), Vec::<u64>::new());
    assert!(matches!(device_ids(b"{\"a\":1}"), Err(ClientError::Malformed(_))));
    assert!(matches!(device_ids(b"[-1]"), Err(ClientError::Malformed(_))));
}

fn kitchen() -> RawDevice {
    RawDevice {
        bulbs: Some(vec![RawBulb {
            color_hex: Some("f1e0b5".to_string()),
            on: Some(1),
            brightness: Some(200),
        }]),
        name: "Kitchen".to_string(),
        id: 1,
        reachable: Some(1),
    }
}

fn remote() -> RawDevice {
    RawDevice { bulbs: None, name: "Remote".to_string(), id: 2, reachable: Some(1) }
}

#[test]
fn listing_end_to_end() {
    let ids = device_ids(b"[1,2]").unwrap();
    assert_eq!(ids, vec![1, 2]);
    let devices: Vec<Option<RawDevice>> =
        ids.iter().map(|id| if *id == 1 { Some(kitchen()) } else { Some(remote()) }).collect();
    let lights = collect_lights(&devices);
    assert_eq!(lights.len(), 1);
    let l = Light::from(lights[0].clone());
    assert_eq!(l.id, 1);
    assert_eq!(l.name, "Kitchen");
    assert!(l.on);
    assert_eq!(l.brightness, 200);
    assert_eq!(l.color_hex.as_deref(), Some("f1e0b5"));
    assert!(l.reachable);
}

#[test]
fn non_lights_and_failures_are_skipped() {
    assert!(light_from_device(&remote()).is_none());
    let empty = RawDevice { bulbs: Some(vec![]), ..remote() };
    assert!(light_from_device(&empty).is_none());
    let mut unreachable = kitchen();
    unreachable.reachable = Some(0);
    let devices = vec![None, Some(remote()), Some(unreachable), Some(empty)];
    let lights = collect_lights(&devices);
    assert_eq!(lights.len(), 1);
    assert!(!lights[0].reachable);
    assert_eq!(lights[0].id, 1);
}

#[test]
fn absent_values_and_out_of_range_brightness() {
    let d = RawDevice {
        bulbs: Some(vec![RawBulb { color_hex: None, on: None, brightness: Some(255) }]),
        name: "Odd".to_string(),
        id: 9,
        reachable: None,
    };
    let l = light_from_device(&d).unwrap();
    assert!(!l.on);
    assert_eq!(l.brightness, 254);
    assert!(l.color_hex.is_none());
    assert!(!l.reachable);
    let d2 = RawDevice {
        bulbs: Some(vec![RawBulb { color_hex: None, on: Some(2), brightness: None }]),
        ..d
    };
    let l2 = light_from_device(&d2).unwrap();
    assert!(!l2.on);
    assert_eq!(l2.brightness, 0);
}

#[test]
fn unreachable_light_listed_once_anywhere() {
    let mut unreachable = kitchen();
    unreachable.id = 4;
    unreachable.reachable = Some(0);
    let mut other = kitchen();
    other.id = 8;
    let devices = vec![Some(other.clone()), Some(unreachable), None, Some(remote()), Some(other)];
    let lights = collect_lights(&devices);
    let with_id: Vec<_> = lights.iter().filter(|l| l.id == 4).collect();
    assert_eq!(with_id.len(), 1);
    assert!(!with_id[0].reachable);
    assert_eq!(lights.len(), 3);
}
