use frostlux::light::Light;
use frostlux::panel::{
    clamp_selection, count_power, select_next, select_prev, step_color_temp, temp_color, temp_label_at,
};

fn light(on: bool, color: Option<&str>) -> Light {
    Light {
        id: 1,
        name: "Lamp".to_string(),
        on,
        brightness: 100,
        color_hex: color.map(|c| c.to_string()),
        reachable: true,
    }
}

#[test]
fn selection_moves_within_list() {
    assert_eq!(select_next(0, 3), 1);
    assert_eq!(select_next(2, 3), 2);
    assert_eq!(select_next(0, 0), 0);
    assert_eq!(select_next(5, 3), 2);
    assert_eq!(select_prev(0), 0);
    assert_eq!(select_prev(2), 1);
    assert_eq!(clamp_selection(4, 2), 1);
    assert_eq!(clamp_selection(4, 0), 0);
    assert_eq!(clamp_selection(1, 2), 1);
}

#[test]
fn counts_of_power_states() {
    let lights = vec![light(true, None), light(false, None), light(true, None)];
    assert_eq!(count_power(&lights, true), 2);
    assert_eq!(count_power(&lights, false), 1);
    assert_eq!(count_power(&Vec::new(), true), 0);
}

#[test]
fn color_temperature_cycles_and_stops() {
    assert_eq!(step_color_temp(&light(true, Some("f5faf6")), true), 1);
    assert_eq!(step_color_temp(&light(true, Some("f1e0b5")), true), 2);
    assert_eq!(step_color_temp(&light(true, Some("efd275")), true), 2);
    assert_eq!(step_color_temp(&light(true, Some("efd275")), false), 1);
    assert_eq!(step_color_temp(&light(true, Some("f5faf6")), false), 0);
    assert_eq!(step_color_temp(&light(true, Some("123456")), true), 2);
    assert_eq!(step_color_temp(&light(true, None), false), 0);
    assert_eq!(temp_color(1), "f1e0b5");
    assert_eq!(temp_label_at(2), "warm");
}
