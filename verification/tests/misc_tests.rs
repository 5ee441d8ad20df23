use detbar::layout::{screen_geometry, screen_geometry_from_output, taskbar_geometry, taskbar_initial_position};
use detbar::weather::{city_from_lower, weather_city, weather_code_of, weather_condition, WeatherCity};

#[test]
fn weather_cities_ignore_case() {
    assert!(matches!(weather_city("Ankara"), WeatherCity::Ankara));
    assert!(matches!(weather_city("İZMİR"), WeatherCity::Istanbul));
    assert!(matches!(weather_city("izmir"), WeatherCity::Izmir));
    assert!(matches!(weather_city("LONDON"), WeatherCity::London));
    assert!(matches!(weather_city("New York"), WeatherCity::NewYork));
    assert!(matches!(weather_city("berlin"), WeatherCity::Berlin));
    assert!(matches!(weather_city("Istanbul"), WeatherCity::Istanbul));
    assert!(matches!(weather_city("Paris"), WeatherCity::Istanbul));
}

#[test]
fn weather_conditions() {
    assert_eq!(weather_condition(1), ("Az Bulutlu", "\u{11f}\u{178}\u{152}\u{a4}\u{ef}\u{b8}\u{8f}"));
    assert_eq!(weather_condition(71).0, "Hafif Kar");
    assert_eq!(weather_condition(73).0, "Orta Kar");
    assert_eq!(weather_condition(45).0, "Sisli");
    assert_eq!(weather_condition(0).0, "G\u{c3}\u{bc}ne\u{c5}\u{178}li");
    assert_eq!(weather_condition(95).1, "\u{e2}\u{203a}\u{2c6}\u{ef}\u{b8}\u{8f}");
    assert_eq!(weather_condition(4), ("Bilinmiyor", "\u{e2}\u{9d}\u{201c}"));
    assert_eq!(weather_condition(-1).0, "Bilinmiyor");
}

#[test]
fn taskbar_frames() {
    assert_eq!(taskbar_geometry("left", 1920, 1080, 48), (48, 1080, 0, 0));
    assert_eq!(taskbar_geometry("right", 1920, 1080, 48), (48, 1080, 1872, 0));
    assert_eq!(taskbar_geometry("top", 1920, 1080, 40), (700, 40, 610, 0));
    assert_eq!(taskbar_geometry("bottom", 1920, 1080, 40), (700, 40, 610, 1040));
    assert_eq!(taskbar_geometry("middle", 1920, 1080, 40), (700, 40, 610, 1040));
    assert_eq!(taskbar_geometry("bottom", 500, 400, 48), (500, 48, 0, 352));
    assert_eq!(taskbar_geometry("top", 701, 400, 48), (700, 48, 0, 0));
}

#[test]
fn taskbar_start_position() {
    assert_eq!(taskbar_initial_position(1920, 1080, 1), (610, 1032));
    assert_eq!(taskbar_initial_position(1920, 1080, 2), (260, 984));
    assert_eq!(taskbar_initial_position(1365, 768, 2), (-17, 672));
}

#[test]
fn screen_geometry_defaults_and_differences() {
    let g = screen_geometry(None, None, None, None);
    assert_eq!((g.x, g.y, g.width, g.height), (0, 0, 1920, 1080));
    let g = screen_geometry(Some(-10), Some(5), Some(100), Some(50));
    assert_eq!((g.x, g.y, g.width, g.height), (-10, 5, 110, 45));
}

#[test]
fn cities_from_lower_case_names() {
    assert!(matches!(city_from_lower("ankara"), WeatherCity::Ankara));
    assert!(matches!(city_from_lower("new york"), WeatherCity::NewYork));
    assert!(matches!(city_from_lower("LONDON"), WeatherCity::Istanbul));
    assert!(matches!(city_from_lower(""), WeatherCity::Istanbul));
}

#[test]
fn weather_code_is_read_from_current() {
    let data: serde_json::Value =
        serde_json::from_str(r#"{"current":{"weather_code":61,"temperature_2m":3.5}}"#).unwrap();
    assert_eq!(weather_code_of(&data), 61);
    let none: serde_json::Value = serde_json::from_str(r#"{"current":{"weather_code":"x"}}"#).unwrap();
    assert_eq!(weather_code_of(&none), 0);
    assert_eq!(weather_code_of(&serde_json::Value::Null), 0);
    let daily: serde_json::Value = serde_json::from_str(r#"{"daily":{"weather_code":[1]}}"#).unwrap();
    assert_eq!(weather_code_of(&daily), 0);
}

#[test]
fn screen_rectangle_from_command_output() {
    let g = screen_geometry_from_output("  {\"Left\":-1920,\"Top\":0,\"Right\":0,\"Bottom\":1200}\r\n").unwrap();
    assert_eq!((g.x, g.y, g.width, g.height), (-1920, 0, 1920, 1200));
    let d = screen_geometry_from_output("garbage").unwrap();
    assert_eq!((d.x, d.y, d.width, d.height), (0, 0, 1920, 1080));
    let partial = screen_geometry_from_output(r#"{"Right":2560}"#).unwrap();
    assert_eq!((partial.width, partial.height), (2560, 1080));
    assert!(screen_geometry_from_output(r#"{"Left":-9223372036854775808,"Right":10}"#).is_none());
}
