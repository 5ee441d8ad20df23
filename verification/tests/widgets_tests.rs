use detbar::widgets::{
    known_widgets, rand_offset, rand_offset2, unknown_widget_error, widget_config, widget_label,
    widget_position, widget_position_checked, widget_visibility_key,
};

#[test]
fn widget_configs() {
    assert_eq!(widget_config("clock"), Some((250, 250, "widgets/clock/index.html")));
    assert_eq!(widget_config("system-monitor"), Some((300, 350, "widgets/system-monitor/index.html")));
    assert_eq!(widget_config("weather"), Some((280, 320, "widgets/weather/index.html")));
    assert_eq!(widget_config("notes"), Some((350, 400, "widgets/notes/index.html")));
    assert_eq!(widget_config("music-player"), Some((380, 280, "widgets/music-player/index.html")));
    assert_eq!(widget_config("Clock"), None);
    assert_eq!(widget_config(""), None);
}

#[test]
fn every_known_widget_has_a_config() {
    let ids = known_widgets();
    assert_eq!(ids, vec!["clock", "system-monitor", "weather", "notes", "music-player"]);
    assert!(ids.iter().all(|id| widget_config(id).is_some()));
}

#[test]
fn labels_keys_and_errors() {
    assert_eq!(widget_label("clock"), "widget-clock");
    assert_eq!(widget_visibility_key("notes"), "widget_notes_visible");
    assert_eq!(unknown_widget_error("radio"), "Unknown widget: radio");
}

#[test]
fn offsets_from_bytes() {
    assert_eq!(rand_offset("clock"), 24);
    assert_eq!(rand_offset2("clock"), -70);
    assert_eq!(rand_offset("system-monitor"), -2);
    assert_eq!(rand_offset2("system-monitor"), 24);
    assert_eq!(rand_offset(""), -100);
    assert_eq!(rand_offset2(""), -75);
}

#[test]
fn offsets_use_utf8_bytes() {
    // 'ş' is encoded as 0xC5 0x9F
    assert_eq!(rand_offset("ş"), ((0xC5 + 0x9F) % 200) - 100);
    assert_eq!(rand_offset2("ş"), (0x9F % 150) - 75);
}

#[test]
fn widget_positions() {
    assert_eq!(widget_position(1920, 1080, 250, 250, "clock"), (859, 345));
    // a screen narrower than the widget gives a negative centre, halved toward zero
    assert_eq!(widget_position(101, 0, 250, 250, "clock"), (-74 + 24, -125 - 70));
}

#[test]
fn checked_widget_position() {
    assert_eq!(widget_position_checked(1920, 1080, 250, 250, "clock"), Some(widget_position(1920, 1080, 250, 250, "clock")));
    assert_eq!(widget_position_checked(i32::MIN, 1080, 250, 250, "clock"), None);
    assert_eq!(widget_position_checked(1920, 1080, u32::MAX, 250, "clock"), None);
    let long = "z".repeat(20_000_000);
    assert_eq!(widget_position_checked(1920, 1080, 250, 250, &long), None);
}
