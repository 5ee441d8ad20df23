//! The weather widget's rules: which city's coordinates to ask for, and how
//! a WMO weather code is described.
use vstd::prelude::*;
use crate::json::{json_as_i64, json_get, json_i64, json_member};
use crate::text::{eq_str, lowercase, to_lowercase};

verus! {

/// The cities the weather widget knows; any other city name gets
/// Istanbul's weather.
pub enum WeatherCity {
    Ankara,
    Izmir,
    London,
    NewYork,
    Berlin,
    Istanbul,
}

pub open spec fn city_for(lower: Seq<char>) -> WeatherCity {
    if lower == "ankara"@ {
        WeatherCity::Ankara
    } else if lower == "izmir"@ {
        WeatherCity::Izmir
    } else if lower == "london"@ {
        WeatherCity::London
    } else if lower == "new york"@ {
        WeatherCity::NewYork
    } else if lower == "berlin"@ {
        WeatherCity::Berlin
    } else {
        WeatherCity::Istanbul
    }
}

/// The city whose weather is shown for the name `city`, compared without
/// regard to case.
pub fn weather_city(city: &str) -> (r: WeatherCity)
    ensures
        r == city_for(lowercase(city@)),
{
    let lower = to_lowercase(city);
    city_from_lower(lower.as_str())
}

/// The city whose weather is shown for the lower-case name `lower`.
pub fn city_from_lower(lower: &str) -> (r: WeatherCity)
    ensures
        r == city_for(lower@),
{
    let l = lower;
    if eq_str(l, "ankara") {
        WeatherCity::Ankara
    } else if eq_str(l, "izmir") {
        WeatherCity::Izmir
    } else if eq_str(l, "london") {
        WeatherCity::London
    } else if eq_str(l, "new york") {
        WeatherCity::NewYork
    } else if eq_str(l, "berlin") {
        WeatherCity::Berlin
    } else {
        WeatherCity::Istanbul
    }
}

/// The current weather code in a forecast response: the integer
/// `weather_code` of its `current` record, 0 when there is none.
pub open spec fn weather_code_spec(data: serde_json::Value) -> i64 {
    match json_member(data, "current"@) {
        Some(c) => match json_member(c, "weather_code"@) {
            Some(w) => match json_i64(w) {
                Some(n) => n,
                None => 0,
            },
            None => 0,
        },
        None => 0,
    }
}

/// Reads the current weather code of the forecast response `data`.
pub fn weather_code_of(data: &serde_json::Value) -> (r: i64)
    ensures
        r == weather_code_spec(*data),
{
    match json_get(data, "current") {
        Some(c) => match json_get(&c, "weather_code") {
            Some(w) => match json_as_i64(&w) {
                Some(n) => n,
                None => 0,
            },
            None => 0,
        },
        None => 0,
    }
}

/// The description and icon shown for a WMO weather code.
pub open spec fn weather_condition_spec(code: i64) -> (Seq<char>, Seq<char>) {
    match code {
        0 => ("G\u{c3}\u{bc}ne\u{c5}\u{178}li"@, "\u{e2}\u{2dc}\u{20ac}\u{ef}\u{b8}\u{8f}"@),
        1 => ("Az Bulutlu"@, "\u{11f}\u{178}\u{152}\u{a4}\u{ef}\u{b8}\u{8f}"@),
        2 => ("Par\u{c3}\u{a7}al\u{c4}\u{b1} Bulutlu"@, "\u{e2}\u{203a}\u{2026}"@),
        3 => ("Kapal\u{c4}\u{b1}"@, "\u{e2}\u{2dc}\u{81}\u{ef}\u{b8}\u{8f}"@),
        45 => ("Sisli"@, "\u{11f}\u{178}\u{152}\u{ab}\u{ef}\u{b8}\u{8f}"@),
        51 => ("Hafif \u{c3}\u{2021}iseleme"@, "\u{11f}\u{178}\u{152}\u{a6}\u{ef}\u{b8}\u{8f}"@),
        61 => ("Hafif Ya\u{c4}\u{178}mur"@, "\u{11f}\u{178}\u{152}\u{a7}\u{ef}\u{b8}\u{8f}"@),
        63 => ("Orta Ya\u{c4}\u{178}mur"@, "\u{11f}\u{178}\u{152}\u{a7}\u{ef}\u{b8}\u{8f}"@),
        65 => ("\u{c5}\u{9e}iddetli Ya\u{c4}\u{178}mur"@, "\u{11f}\u{178}\u{152}\u{a7}\u{ef}\u{b8}\u{8f}"@),
        71 => ("Hafif Kar"@, "\u{e2}\u{9d}\u{201e}\u{ef}\u{b8}\u{8f}"@),
        73 => ("Orta Kar"@, "\u{e2}\u{9d}\u{201e}\u{ef}\u{b8}\u{8f}"@),
        75 => ("Yo\u{c4}\u{178}un Kar"@, "\u{e2}\u{9d}\u{201e}\u{ef}\u{b8}\u{8f}"@),
        95 => ("F\u{c4}\u{b1}rt\u{c4}\u{b1}na"@, "\u{e2}\u{203a}\u{2c6}\u{ef}\u{b8}\u{8f}"@),
        _ => ("Bilinmiyor"@, "\u{e2}\u{9d}\u{201c}"@),
    }
}

/// The description and icon shown for the WMO weather code `code`; codes
/// outside the table are "unknown".
pub fn weather_condition(code: i64) -> (r: (&'static str, &'static str))
    ensures
        (r.0@, r.1@) == weather_condition_spec(code),
{
    match code {
        0 => ("G\u{c3}\u{bc}ne\u{c5}\u{178}li", "\u{e2}\u{2dc}\u{20ac}\u{ef}\u{b8}\u{8f}"),
        1 => ("Az Bulutlu", "\u{11f}\u{178}\u{152}\u{a4}\u{ef}\u{b8}\u{8f}"),
        2 => ("Par\u{c3}\u{a7}al\u{c4}\u{b1} Bulutlu", "\u{e2}\u{203a}\u{2026}"),
        3 => ("Kapal\u{c4}\u{b1}", "\u{e2}\u{2dc}\u{81}\u{ef}\u{b8}\u{8f}"),
        45 => ("Sisli", "\u{11f}\u{178}\u{152}\u{ab}\u{ef}\u{b8}\u{8f}"),
        51 => ("Hafif \u{c3}\u{2021}iseleme", "\u{11f}\u{178}\u{152}\u{a6}\u{ef}\u{b8}\u{8f}"),
        61 => ("Hafif Ya\u{c4}\u{178}mur", "\u{11f}\u{178}\u{152}\u{a7}\u{ef}\u{b8}\u{8f}"),
        63 => ("Orta Ya\u{c4}\u{178}mur", "\u{11f}\u{178}\u{152}\u{a7}\u{ef}\u{b8}\u{8f}"),
        65 => ("\u{c5}\u{9e}iddetli Ya\u{c4}\u{178}mur", "\u{11f}\u{178}\u{152}\u{a7}\u{ef}\u{b8}\u{8f}"),
        71 => ("Hafif Kar", "\u{e2}\u{9d}\u{201e}\u{ef}\u{b8}\u{8f}"),
        73 => ("Orta Kar", "\u{e2}\u{9d}\u{201e}\u{ef}\u{b8}\u{8f}"),
        75 => ("Yo\u{c4}\u{178}un Kar", "\u{e2}\u{9d}\u{201e}\u{ef}\u{b8}\u{8f}"),
        95 => ("F\u{c4}\u{b1}rt\u{c4}\u{b1}na", "\u{e2}\u{203a}\u{2c6}\u{ef}\u{b8}\u{8f}"),
        _ => ("Bilinmiyor", "\u{e2}\u{9d}\u{201c}"),
    }
}

/// The WMO weather-code table: clear sky (0), mainly clear (1), partly
/// cloudy (2), overcast (3), fog (45), light drizzle (51), light, moderate
/// and heavy rain (61, 63, 65), light, moderate and heavy snow (71, 73, 75)
/// and thunderstorm (95), each with its description and icon; every other
/// code is unknown.
pub proof fn law_wmo_code_table(code: i64)
    ensures
        weather_condition_spec(0) == ("G\u{c3}\u{bc}ne\u{c5}\u{178}li"@, "\u{e2}\u{2dc}\u{20ac}\u{ef}\u{b8}\u{8f}"@),
        weather_condition_spec(1) == ("Az Bulutlu"@, "\u{11f}\u{178}\u{152}\u{a4}\u{ef}\u{b8}\u{8f}"@),
        weather_condition_spec(2) == ("Par\u{c3}\u{a7}al\u{c4}\u{b1} Bulutlu"@, "\u{e2}\u{203a}\u{2026}"@),
        weather_condition_spec(3) == ("Kapal\u{c4}\u{b1}"@, "\u{e2}\u{2dc}\u{81}\u{ef}\u{b8}\u{8f}"@),
        weather_condition_spec(45) == ("Sisli"@, "\u{11f}\u{178}\u{152}\u{ab}\u{ef}\u{b8}\u{8f}"@),
        weather_condition_spec(51) == ("Hafif \u{c3}\u{2021}iseleme"@, "\u{11f}\u{178}\u{152}\u{a6}\u{ef}\u{b8}\u{8f}"@),
        weather_condition_spec(61) == ("Hafif Ya\u{c4}\u{178}mur"@, "\u{11f}\u{178}\u{152}\u{a7}\u{ef}\u{b8}\u{8f}"@),
        weather_condition_spec(63) == ("Orta Ya\u{c4}\u{178}mur"@, "\u{11f}\u{178}\u{152}\u{a7}\u{ef}\u{b8}\u{8f}"@),
        weather_condition_spec(65) == ("\u{c5}\u{9e}iddetli Ya\u{c4}\u{178}mur"@, "\u{11f}\u{178}\u{152}\u{a7}\u{ef}\u{b8}\u{8f}"@),
        weather_condition_spec(71) == ("Hafif Kar"@, "\u{e2}\u{9d}\u{201e}\u{ef}\u{b8}\u{8f}"@),
        weather_condition_spec(73) == ("Orta Kar"@, "\u{e2}\u{9d}\u{201e}\u{ef}\u{b8}\u{8f}"@),
        weather_condition_spec(75) == ("Yo\u{c4}\u{178}un Kar"@, "\u{e2}\u{9d}\u{201e}\u{ef}\u{b8}\u{8f}"@),
        weather_condition_spec(95) == ("F\u{c4}\u{b1}rt\u{c4}\u{b1}na"@, "\u{e2}\u{203a}\u{2c6}\u{ef}\u{b8}\u{8f}"@),
        code != 0 && code != 1 && code != 2 && code != 3 && code != 45 && code != 51 && code != 61 && code != 63 && code != 65 && code != 71 && code != 73 && code != 75 && code != 95 ==> weather_condition_spec(code) == (
            "Bilinmiyor"@,
            "\u{e2}\u{9d}\u{201c}"@,
        ),
{
}

} // verus!
