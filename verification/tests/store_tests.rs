use detbar::store::{entries_from_output, entries_with_member, setting_effect, SettingEffect, Store};
use serde_json::Value;

#[test]
fn defaults_when_no_config_file() {
    let s = Store::new(None);
    assert_eq!(s.theme(), "dark");
    assert_eq!(s.accent_color(), "#00d4ff");
    assert_eq!(s.taskbar_position(), "bottom");
    assert_eq!(s.taskbar_height(), 48);
    assert_eq!(s.taskbar_height_setting(), 48);
    assert!(s.auto_assign_windows());
    assert_eq!(s.get("weatherCity"), Value::String("Istanbul".to_string()));
    assert_eq!(s.get("wallpaperPath"), Value::String(String::new()));
    assert_eq!(s.get("wallpaperVolume"), Value::from(0));
    assert_eq!(s.get("opacity"), Value::from(88));
    assert_eq!(
        s.get("enabledWidgets"),
        Value::Array(vec![Value::String("clock".into()), Value::String("system-monitor".into())])
    );
    assert_eq!(s.get("launcherPinnedApps"), Value::Array(vec![]));
    assert_eq!(s.get("widgetPositions"), Value::Object(serde_json::Map::new()));
    assert_eq!(s.get("appDesktopMap"), Value::Object(serde_json::Map::new()));
    assert_eq!(s.data().as_object().map(|m| m.len()), Some(13));
    assert_eq!(s.app_desktop_target("code.exe"), None);
}

#[test]
fn defaults_function_builds_thirteen_settings() {
    let d = Store::defaults();
    assert_eq!(d["theme"], Value::String("dark".into()));
    assert_eq!(d["taskbarHeight"], Value::from(48));
    assert_eq!(d["autoAssignWindows"], Value::Bool(true));
    assert_eq!(d.as_object().unwrap().len(), 13);
}

#[test]
fn config_text_is_parsed() {
    let s = Store::new(Some(r#"{"theme":"light","taskbarHeight":60,"autoAssignWindows":false}"#));
    assert_eq!(s.theme(), "light");
    assert_eq!(s.taskbar_height(), 60);
    assert!(!s.auto_assign_windows());
    assert_eq!(s.accent_color(), "#00d4ff");
    assert_eq!(s.get("opacity"), Value::Null);
}

#[test]
fn unparsable_config_falls_back_to_defaults() {
    let s = Store::new(Some("{ not json"));
    assert_eq!(s.theme(), "dark");
    assert_eq!(s.get("opacity"), Value::from(88));
}

#[test]
fn settings_of_wrong_type_read_as_defaults() {
    let s = Store::new(Some(r#"{"theme":5,"taskbarHeight":"tall","autoAssignWindows":"yes"}"#));
    assert_eq!(s.theme(), "dark");
    assert_eq!(s.taskbar_height(), 48);
    assert!(s.auto_assign_windows());
}

#[test]
fn taskbar_height_truncates_to_i32() {
    let s = Store::new(Some(r#"{"taskbarHeight":4294967344}"#));
    assert_eq!(s.taskbar_height_setting(), 4294967344);
    assert_eq!(s.taskbar_height(), 48);
}

#[test]
fn read_after_write() {
    let mut s = Store::new(None);
    s.set("notes", Value::String("hello".into()));
    assert_eq!(s.get("notes"), Value::String("hello".into()));
    assert_eq!(s.get("theme"), Value::String("dark".into()));
    s.set("notes", Value::Null);
    assert_eq!(s.get("notes"), Value::Null);
}

#[test]
fn missing_setting_reads_as_null() {
    let s = Store::new(None);
    assert_eq!(s.get("notes"), Value::Null);
}

#[test]
fn theme_and_accent_round_trip() {
    let mut s = Store::new(None);
    s.set_theme("nord".to_string());
    assert_eq!(s.theme(), "nord");
    assert_eq!(s.accent_color(), "#00d4ff");
    s.set_accent_color("#ff0000".to_string());
    assert_eq!(s.accent_color(), "#ff0000");
    assert_eq!(s.theme(), "nord");
    s.set_auto_assign_windows(false);
    assert!(!s.auto_assign_windows());
}

#[test]
fn writability_of_the_document() {
    assert!(Store::new(None).is_writable());
    assert!(Store::new(Some("null")).is_writable());
    assert!(!Store::new(Some("[1,2]")).is_writable());
    assert!(!Store::new(Some("5")).is_writable());
    let mut s = Store::new(Some("null"));
    s.set("theme", Value::String("light".into()));
    assert_eq!(s.theme(), "light");
    assert!(s.is_writable());
}

#[test]
fn non_object_document_reads_defaults() {
    let s = Store::new(Some("[1,2]"));
    assert_eq!(s.theme(), "dark");
    assert_eq!(s.get("theme"), Value::Null);
}

#[test]
fn remembered_app_desktops() {
    let mut s = Store::new(None);
    s.remember_app_desktop("code.exe".to_string(), 2);
    s.remember_app_desktop("chrome.exe".to_string(), 1);
    assert_eq!(s.app_desktop_target("code.exe"), Some(2));
    assert_eq!(s.app_desktop_target("chrome.exe"), Some(1));
    assert_eq!(s.app_desktop_target("other.exe"), None);
    s.remember_app_desktop("code.exe".to_string(), 0);
    assert_eq!(s.app_desktop_target("code.exe"), Some(0));
    assert_eq!(s.get("appDesktopMap")["chrome.exe"], Value::from(1));
}

#[test]
fn remembering_replaces_a_map_that_is_no_object() {
    let mut s = Store::new(Some(r#"{"appDesktopMap":[3]}"#));
    assert_eq!(s.app_desktop_target("a"), None);
    s.remember_app_desktop("a".to_string(), 4);
    assert_eq!(s.app_desktop_target("a"), Some(4));
}

#[test]
fn app_target_must_be_an_integer() {
    let s = Store::new(Some(r#"{"appDesktopMap":{"a":"1","b":-3}}"#));
    assert_eq!(s.app_desktop_target("a"), None);
    assert_eq!(s.app_desktop_target("b"), Some(-3));
}

#[test]
fn recording_an_assignment_turns_auto_assign_on() {
    let mut s = Store::new(Some(r#"{"autoAssignWindows":false}"#));
    s.record_window_assignment("x.exe".to_string(), 1);
    assert!(s.auto_assign_windows());
    assert_eq!(s.app_desktop_target("x.exe"), Some(1));
}

#[test]
fn widget_visibility_setting() {
    let mut s = Store::new(None);
    s.set_widget_visibility("clock", true);
    assert_eq!(s.get("widget_clock_visible"), Value::Bool(true));
    s.set_widget_visibility("clock", false);
    assert_eq!(s.get("widget_clock_visible"), Value::Bool(false));
}

#[test]
fn setting_effects() {
    assert!(matches!(setting_effect("taskbarPosition"), SettingEffect::TaskbarLayout));
    assert!(matches!(setting_effect("taskbarHeight"), SettingEffect::TaskbarLayout));
    assert!(matches!(setting_effect("theme"), SettingEffect::Nothing));
    match setting_effect("widget_weather_visible") {
        SettingEffect::WidgetVisibility(id) => assert_eq!(id, "weather"),
        _ => panic!("expected a widget"),
    }
    match setting_effect("widget_widget_x_visible_visible") {
        SettingEffect::WidgetVisibility(id) => assert_eq!(id, "x"),
        _ => panic!("expected a widget"),
    }
    match setting_effect("widget_visible") {
        SettingEffect::WidgetVisibility(id) => assert_eq!(id, "visible"),
        _ => panic!("expected a widget"),
    }
    assert!(matches!(setting_effect("widget_clock"), SettingEffect::Nothing));
}

#[test]
fn entries_without_the_member_are_dropped() {
    let items: Vec<Value> = serde_json::from_str(
        r#"[{"name":"a"},{"path":"b"},5,{"name":null},{"name":"c","x":1}]"#,
    )
    .unwrap();
    let kept = entries_with_member(items, "name");
    assert_eq!(kept.len(), 3);
    assert_eq!(kept[0]["name"], Value::String("a".into()));
    assert_eq!(kept[1]["name"], Value::Null);
    assert_eq!(kept[2]["name"], Value::String("c".into()));
}

#[test]
fn missing_settings_read_as_the_same_null() {
    let mut s = Store::new(Some("{}"));
    let before = s.get("opacity");
    s.set("theme", Value::String("nord".into()));
    assert_eq!(s.get("opacity"), before);
    assert_eq!(s.get("opacity"), Value::Null);
    assert_eq!(s.theme(), "nord");
}

#[test]
fn writing_into_a_null_document_makes_a_one_member_object() {
    let mut s = Store::new(Some("null"));
    assert!(s.is_writable());
    s.set("theme", Value::String("light".into()));
    assert_eq!(s.data().as_object().map(|m| m.len()), Some(1));
    assert_eq!(s.theme(), "light");
}

#[test]
fn remembering_an_app_keeps_other_entries() {
    let mut s = Store::new(Some(r#"{"theme":"nord","appDesktopMap":{"a.exe":"text","b.exe":2}}"#));
    s.remember_app_desktop("c.exe".to_string(), 1);
    let map = s.get("appDesktopMap");
    assert_eq!(map["a.exe"], Value::String("text".into()));
    assert_eq!(map["b.exe"], Value::from(2));
    assert_eq!(map["c.exe"], Value::from(1));
    assert_eq!(s.theme(), "nord");
}

#[test]
fn recording_an_assignment_keeps_other_settings() {
    let mut s = Store::new(Some(r#"{"theme":"nord","opacity":50,"autoAssignWindows":false}"#));
    s.record_window_assignment("code.exe".to_string(), 2);
    assert_eq!(s.theme(), "nord");
    assert_eq!(s.get("opacity"), Value::from(50));
    assert!(s.auto_assign_windows());
    assert_eq!(s.app_desktop_target("code.exe"), Some(2));
    assert_eq!(s.data().as_object().map(|m| m.len()), Some(4));
}

#[test]
fn records_from_command_output() {
    let out = r#"[{"name":"A"},{"version":"1"},5,{"name":"B","path":"b.exe"}]"#;
    let r = entries_from_output(out, "name");
    assert_eq!(r.len(), 2);
    assert_eq!(r[0]["name"], Value::String("A".into()));
    assert_eq!(r[1]["name"], Value::String("B".into()));
    assert!(entries_from_output("", "name").is_empty());
    assert!(entries_from_output(r#"{"name":"single"}"#, "name").is_empty());
}

#[test]
fn setting_the_default_value_stores_it() {
    let mut s = Store::new(Some("{}"));
    s.set_theme("dark".to_string());
    s.set_accent_color("#00d4ff".to_string());
    s.set_auto_assign_windows(true);
    assert_eq!(s.get("theme"), Value::String("dark".into()));
    assert_eq!(s.get("accentColor"), Value::String("#00d4ff".into()));
    assert_eq!(s.get("autoAssignWindows"), Value::Bool(true));
}

#[test]
fn assignment_stores_auto_assign_and_large_ids() {
    let mut s = Store::new(Some("{}"));
    s.record_window_assignment("x.exe".to_string(), usize::MAX);
    assert_eq!(s.get("autoAssignWindows"), Value::Bool(true));
    assert_eq!(s.get("appDesktopMap")["x.exe"], Value::from(usize::MAX as u64));
    assert_eq!(s.app_desktop_target("x.exe"), None);
}
