use frostlux::light::{adjust_brightness, Light, LightInfo};

fn sample(brightness: u8, color: Option<&str>) -> Light {
    Light {
        id: 7,
        name: "Desk".to_string(),
        on: brightness > 0,
        brightness,
        color_hex: color.map(|c| c.to_string()),
        reachable: true,
    }
}

#[test]
fn brightness_clamps_at_both_ends() {
    assert_eq!(adjust_brightness(10, -25), 0);
    assert_eq!(adjust_brightness(0, -64), 0);
    assert_eq!(adjust_brightness(240, 25), 254);
    assert_eq!(adjust_brightness(254, 64), 254);
    assert_eq!(adjust_brightness(100, 25), 125);
    assert_eq!(adjust_brightness(100, i16::MIN), 0);
    assert_eq!(adjust_brightness(100, i16::MAX), 254);
    for b in 0..=254u8 {
        for d in [-300i16, -64, -25, -1, 0, 1, 25, 64, 300] {
            let r = adjust_brightness(b, d);
            assert!(r <= 254);
        }
    }
}

#[test]
fn dim_sets_power_from_brightness() {
    let mut l = sample(20, Some("f1e0b5"));
    assert_eq!(l.dim(-25), 0);
    assert!(!l.on);
    assert_eq!(l.brightness, 0);
    assert_eq!(l.dim(25), 25);
    assert!(l.on);
    assert_eq!(l.color_hex.as_deref(), Some("f1e0b5"));
    assert_eq!(l.name, "Desk");
}

#[test]
fn brightness_percent_rounds() {
    assert_eq!(sample(0, None).brightness_percent(), 0);
    assert_eq!(sample(254, None).brightness_percent(), 100);
    assert_eq!(sample(127, None).brightness_percent(), 50);
    assert_eq!(sample(1, None).brightness_percent(), 0);
    assert_eq!(sample(2, None).brightness_percent(), 1);
    assert_eq!(sample(200, None).brightness_percent(), 79);
    for b in 0..=254u8 {
        let expected = ((b as f32 / 254.0) * 100.0).round() as u8;
        assert_eq!(sample(b, None).brightness_percent(), expected);
    }
}

#[test]
fn color_temp_labels() {
    assert_eq!(sample(1, Some("f5faf6")).color_temp_label(), "cold");
    assert_eq!(sample(1, Some("f1e0b5")).color_temp_label(), "neutral");
    assert_eq!(sample(1, Some("efd275")).color_temp_label(), "warm");
    assert_eq!(sample(1, Some("f5e1d2")).color_temp_label(), "cold");
    assert_eq!(sample(1, Some("efd000")).color_temp_label(), "warm");
    assert_eq!(sample(1, Some("ffffff")).color_temp_label(), "neutral");
    assert_eq!(sample(1, None).color_temp_label(), "");
}

#[test]
fn light_from_info_keeps_fields() {
    let info = LightInfo {
        id: 3,
        name: "Hall".to_string(),
        on: true,
        brightness: 99,
        color_hex: Some("efd275".to_string()),
        reachable: false,
    };
    let l = Light::from(info);
    assert_eq!(l.id, 3);
    assert_eq!(l.name, "Hall");
    assert!(l.on);
    assert_eq!(l.brightness, 99);
    assert_eq!(l.color_hex.as_deref(), Some("efd275"));
    assert!(!l.reachable);
}
