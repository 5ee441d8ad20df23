//! The settings store: a JSON object of named settings with defaults.
//!
//! The store keeps the JSON document in memory; reading and writing the
//! configuration file is left to the caller, which hands the file's text to
//! [`Store::new`] and writes [`Store::data`] back after each change.
use vstd::prelude::*;
use crate::json::{
    json_as_bool, json_as_i64, json_as_str, json_bool, json_check_null, json_check_object,
    json_empty_object, json_from_bool, json_from_i64, json_from_string, json_from_u64, json_get,
    json_i64, json_is_null, json_is_object, json_member, json_null, json_object_clone, json_u64,
    json_parse, json_parse_list, json_parse_list_text, json_parse_text, json_set, json_str, json_str_array, json_string_array,
};
use crate::text::{
    ends_with_str, eq_str, has_prefix, has_suffix, starts_with_str, strip_prefixes,
    strip_suffixes, trim_end_matches_str, trim_start_matches_str,
};

verus! {

pub struct Store {
    data: serde_json::Value,
}

/// The string setting `key` of `doc`, or `default` when it is missing or no
/// string.
pub open spec fn str_setting(doc: serde_json::Value, key: Seq<char>, default: Seq<char>) -> Seq<
    char,
> {
    match json_member(doc, key) {
        Some(v) => match json_str(v) {
            Some(s) => s,
            None => default,
        },
        None => default,
    }
}

/// The boolean setting `key` of `doc`, or `default`.
pub open spec fn bool_setting(doc: serde_json::Value, key: Seq<char>, default: bool) -> bool {
    match json_member(doc, key) {
        Some(v) => match json_bool(v) {
            Some(b) => b,
            None => default,
        },
        None => default,
    }
}

/// The integer setting `key` of `doc`, or `default`.
pub open spec fn int_setting(doc: serde_json::Value, key: Seq<char>, default: i64) -> i64 {
    match json_member(doc, key) {
        Some(v) => match json_i64(v) {
            Some(n) => n,
            None => default,
        },
        None => default,
    }
}

/// The entry for `app` in the app-to-desktop map of `doc`, when the map is
/// an object that has one.
pub open spec fn app_entry(doc: serde_json::Value, app: Seq<char>) -> Option<serde_json::Value> {
    match json_member(doc, "appDesktopMap"@) {
        Some(m) => if json_is_object(m) {
            json_member(m, app)
        } else {
            None
        },
        None => None,
    }
}

/// The desktop that the app-to-desktop map of `doc` names for `app`, as an
/// integer when it is one.
pub open spec fn app_target(doc: serde_json::Value, app: Seq<char>) -> Option<i64> {
    match app_entry(doc, app) {
        Some(v) => json_i64(v),
        None => None,
    }
}

/// `r` is what reading setting `key` of `doc` gives: the member, or the
/// null value when there is none.
pub open spec fn reads_setting(doc: serde_json::Value, key: Seq<char>, r: serde_json::Value) -> bool {
    match json_member(doc, key) {
        Some(v) => r == v,
        None => {
            &&& json_is_null(r)
            &&& forall|k: Seq<char>| json_member(r, k) is None
            &&& forall|v: serde_json::Value| json_is_null(v) ==> v == r
        },
    }
}

/// `after` is `before` with setting `key` set to `value` and every other
/// setting as it was.
pub open spec fn setting_written(
    before: serde_json::Value,
    after: serde_json::Value,
    key: Seq<char>,
    value: serde_json::Value,
) -> bool {
    &&& json_is_object(after)
    &&& json_member(after, key) == Some(value)
    &&& forall|k: Seq<char>| k != key ==> json_member(after, k) == json_member(before, k)
}

/// The items that have a member named `key`, in order.
pub open spec fn with_member(items: Seq<serde_json::Value>, key: Seq<char>) -> Seq<serde_json::Value>
    decreases items.len(),
{
    if items.len() == 0 {
        items
    } else if json_member(items.last(), key) is Some {
        with_member(items.drop_last(), key).push(items.last())
    } else {
        with_member(items.drop_last(), key)
    }
}

/// The items that have a member named `key`; the others (records without
/// it, or values that are no objects) are dropped.
pub fn entries_with_member(items: Vec<serde_json::Value>, key: &str) -> (r: Vec<serde_json::Value>)
    ensures
        r@ == with_member(items@, key@),
{
    let ghost all = items@;
    let total = items.len();
    let mut rest = items;
    let mut kept: Vec<serde_json::Value> = Vec::new();
    let mut k: usize = 0;
    while rest.len() > 0
        invariant
            k <= all.len(),
            total == all.len(),
            rest@ == all.skip(k as int),
            kept@ == with_member(all.take(k as int), key@),
        decreases rest@.len(),
    {
        let item = rest.remove(0);
        assert(item == all[k as int]);
        assert(all.take(k + 1).drop_last() =~= all.take(k as int));
        assert(all.skip(k as int).drop_first() =~= all.skip(k + 1));
        if json_get(&item, key).is_some() {
            kept.push(item);
        }
        k = k + 1;
    }
    assert(all.take(k as int) =~= all);
    kept
}

/// The records that a command printed as a JSON array: its elements when
/// the text is one, none otherwise.
pub open spec fn listed_records(text: Seq<char>) -> Seq<serde_json::Value> {
    match json_parse_list(text) {
        Some(items) => items,
        None => Seq::empty(),
    }
}

/// The records in a command's output `stdout` (a JSON array; anything else
/// counts as no records) that have a member named `key`, in order.
pub fn entries_from_output(stdout: &str, key: &str) -> (r: Vec<serde_json::Value>)
    ensures
        r@ == with_member(listed_records(stdout@), key@),
{
    let items = match json_parse_list_text(stdout) {
        Some(items) => items,
        None => Vec::new(),
    };
    entries_with_member(items, key)
}

/// The keys of the default configuration.
pub open spec fn is_default_key(k: Seq<char>) -> bool {
    ||| k == "theme"@
    ||| k == "accentColor"@
    ||| k == "taskbarPosition"@
    ||| k == "taskbarHeight"@
    ||| k == "widgetPositions"@
    ||| k == "enabledWidgets"@
    ||| k == "launcherPinnedApps"@
    ||| k == "weatherCity"@
    ||| k == "wallpaperPath"@
    ||| k == "wallpaperVolume"@
    ||| k == "opacity"@
    ||| k == "autoAssignWindows"@
    ||| k == "appDesktopMap"@
}

pub open spec fn empty_object_member(doc: serde_json::Value, key: Seq<char>) -> bool {
    &&& json_member(doc, key) is Some
    &&& json_is_object(json_member(doc, key)->0)
    &&& forall|k: Seq<char>| json_member(json_member(doc, key)->0, k) is None
}

/// What the default configuration holds, setting by setting, and that it
/// holds nothing else.
pub open spec fn is_default_config(doc: serde_json::Value) -> bool {
    &&& json_is_object(doc)
    &&& json_member(doc, "theme"@) is Some
    &&& json_str(json_member(doc, "theme"@)->0) == Some("dark"@)
    &&& json_member(doc, "accentColor"@) is Some
    &&& json_str(json_member(doc, "accentColor"@)->0) == Some("#00d4ff"@)
    &&& json_member(doc, "taskbarPosition"@) is Some
    &&& json_str(json_member(doc, "taskbarPosition"@)->0) == Some("bottom"@)
    &&& json_member(doc, "taskbarHeight"@) is Some
    &&& json_i64(json_member(doc, "taskbarHeight"@)->0) == Some(48i64)
    &&& empty_object_member(doc, "widgetPositions"@)
    &&& json_member(doc, "enabledWidgets"@) is Some
    &&& json_str_array(json_member(doc, "enabledWidgets"@)->0) == Some(
        seq!["clock"@, "system-monitor"@],
    )
    &&& json_member(doc, "launcherPinnedApps"@) is Some
    &&& json_str_array(json_member(doc, "launcherPinnedApps"@)->0) == Some(Seq::<Seq<char>>::empty())
    &&& json_member(doc, "weatherCity"@) is Some
    &&& json_str(json_member(doc, "weatherCity"@)->0) == Some("Istanbul"@)
    &&& json_member(doc, "wallpaperPath"@) is Some
    &&& json_str(json_member(doc, "wallpaperPath"@)->0) == Some(""@)
    &&& json_member(doc, "wallpaperVolume"@) is Some
    &&& json_i64(json_member(doc, "wallpaperVolume"@)->0) == Some(0i64)
    &&& json_member(doc, "opacity"@) is Some
    &&& json_i64(json_member(doc, "opacity"@)->0) == Some(88i64)
    &&& json_member(doc, "autoAssignWindows"@) is Some
    &&& json_bool(json_member(doc, "autoAssignWindows"@)->0) == Some(true)
    &&& empty_object_member(doc, "appDesktopMap"@)
    &&& forall|k: Seq<char>| !is_default_key(k) ==> json_member(doc, k) is None
}

/// The lengths and first two characters of the default setting keys, which
/// tell them apart.
proof fn lemma_default_keys()
    ensures
        "theme"@.len() == 5,
        "theme"@[0] == 't',
        "theme"@[1] == 'h',
        "accentColor"@.len() == 11,
        "accentColor"@[0] == 'a',
        "accentColor"@[1] == 'c',
        "taskbarPosition"@.len() == 15,
        "taskbarPosition"@[0] == 't',
        "taskbarPosition"@[1] == 'a',
        "taskbarHeight"@.len() == 13,
        "taskbarHeight"@[0] == 't',
        "taskbarHeight"@[1] == 'a',
        "widgetPositions"@.len() == 15,
        "widgetPositions"@[0] == 'w',
        "widgetPositions"@[1] == 'i',
        "enabledWidgets"@.len() == 14,
        "enabledWidgets"@[0] == 'e',
        "enabledWidgets"@[1] == 'n',
        "launcherPinnedApps"@.len() == 18,
        "launcherPinnedApps"@[0] == 'l',
        "launcherPinnedApps"@[1] == 'a',
        "weatherCity"@.len() == 11,
        "weatherCity"@[0] == 'w',
        "weatherCity"@[1] == 'e',
        "wallpaperPath"@.len() == 13,
        "wallpaperPath"@[0] == 'w',
        "wallpaperPath"@[1] == 'a',
        "wallpaperVolume"@.len() == 15,
        "wallpaperVolume"@[0] == 'w',
        "wallpaperVolume"@[1] == 'a',
        "opacity"@.len() == 7,
        "opacity"@[0] == 'o',
        "opacity"@[1] == 'p',
        "autoAssignWindows"@.len() == 17,
        "autoAssignWindows"@[0] == 'a',
        "autoAssignWindows"@[1] == 'u',
        "appDesktopMap"@.len() == 13,
        "appDesktopMap"@[0] == 'a',
        "appDesktopMap"@[1] == 'p',
{
    reveal_strlit("theme");
    reveal_strlit("accentColor");
    reveal_strlit("taskbarPosition");
    reveal_strlit("taskbarHeight");
    reveal_strlit("widgetPositions");
    reveal_strlit("enabledWidgets");
    reveal_strlit("launcherPinnedApps");
    reveal_strlit("weatherCity");
    reveal_strlit("wallpaperPath");
    reveal_strlit("wallpaperVolume");
    reveal_strlit("opacity");
    reveal_strlit("autoAssignWindows");
    reveal_strlit("appDesktopMap");
}

/// What a change of setting `key` makes known to the rest of the desktop.
pub enum SettingEffect {
    /// The taskbar's position or height changed.
    TaskbarLayout,
    /// The visibility of the widget with this id changed.
    WidgetVisibility(String),
    /// Nothing else needs to know.
    Nothing,
}

/// The widget id in a key of the form `widget_<id>_visible`.
pub open spec fn widget_id_of_key(key: Seq<char>) -> Seq<char> {
    strip_suffixes(strip_prefixes(key, "widget_"@), "_visible"@)
}

pub open spec fn setting_effect_spec(key: Seq<char>, e: SettingEffect) -> bool {
    if key == "taskbarPosition"@ || key == "taskbarHeight"@ {
        e is TaskbarLayout
    } else if has_prefix(key, "widget_"@) && has_suffix(key, "_visible"@) {
        e matches SettingEffect::WidgetVisibility(id) && id@ == widget_id_of_key(key)
    } else {
        e is Nothing
    }
}

/// Which part of the desktop a change of setting `key` concerns.
pub fn setting_effect(key: &str) -> (e: SettingEffect)
    ensures
        setting_effect_spec(key@, e),
{
    if eq_str(key, "taskbarPosition") || eq_str(key, "taskbarHeight") {
        SettingEffect::TaskbarLayout
    } else if starts_with_str(key, "widget_") && ends_with_str(key, "_visible") {
        let inner = trim_start_matches_str(key, "widget_");
        let id = trim_end_matches_str(inner.as_str(), "_visible");
        SettingEffect::WidgetVisibility(id)
    } else {
        SettingEffect::Nothing
    }
}

impl Store {
    /// The JSON document the store holds.
    pub closed spec fn doc(&self) -> serde_json::Value {
        self.data
    }

    /// Whether a setting can be written: the document is an object, or null
    /// (which a write turns into an object).
    pub open spec fn writable(&self) -> bool {
        json_is_object(self.doc()) || json_is_null(self.doc())
    }

    /// The default configuration.
    pub fn defaults() -> (r: serde_json::Value)
        ensures
            is_default_config(r),
    {
        let mut d = json_empty_object();
        json_set(&mut d, "theme", json_from_string("dark".to_owned()));
        json_set(&mut d, "accentColor", json_from_string("#00d4ff".to_owned()));
        json_set(&mut d, "taskbarPosition", json_from_string("bottom".to_owned()));
        json_set(&mut d, "taskbarHeight", json_from_i64(48));
        json_set(&mut d, "widgetPositions", json_empty_object());
        let mut widgets: Vec<String> = Vec::new();
        widgets.push("clock".to_owned());
        widgets.push("system-monitor".to_owned());
        let ghost w = widgets@;
        let none: Vec<String> = Vec::new();
        let ghost n = none@;
        let widget_list = json_string_array(widgets);
        assert(w.map_values(|s: String| s@) =~= seq!["clock"@, "system-monitor"@]);
        json_set(&mut d, "enabledWidgets", widget_list);
        let pinned_list = json_string_array(none);
        assert(n.map_values(|s: String| s@) =~= Seq::<Seq<char>>::empty());
        json_set(&mut d, "launcherPinnedApps", pinned_list);
        json_set(&mut d, "weatherCity", json_from_string("Istanbul".to_owned()));
        json_set(&mut d, "wallpaperPath", json_from_string("".to_owned()));
        json_set(&mut d, "wallpaperVolume", json_from_i64(0));
        json_set(&mut d, "opacity", json_from_i64(88));
        json_set(&mut d, "autoAssignWindows", json_from_bool(true));
        json_set(&mut d, "appDesktopMap", json_empty_object());
        proof {
            lemma_default_keys();
        }
        d
    }

    /// A store for the configuration file's text: the parsed document when
    /// the text is there and parses, the defaults otherwise.
    pub fn new(config_text: Option<&str>) -> (r: Store)
        ensures
            match config_text {
                Some(t) => match json_parse(t@) {
                    Some(v) => r.doc() == v,
                    None => is_default_config(r.doc()),
                },
                None => is_default_config(r.doc()),
            },
    {
        let data = match config_text {
            Some(t) => match json_parse_text(t) {
                Some(v) => v,
                None => Store::defaults(),
            },
            None => Store::defaults(),
        };
        Store { data }
    }

    /// The document, for writing it back to the configuration file.
    pub fn data(&self) -> (r: &serde_json::Value)
        ensures
            *r == self.doc(),
    {
        &self.data
    }

    /// Whether [`Store::set`] may be called.
    pub fn is_writable(&self) -> (r: bool)
        ensures
            r == self.writable(),
    {
        json_check_object(&self.data) || json_check_null(&self.data)
    }

    /// The setting `key`, or JSON null when there is none.
    pub fn get(&self, key: &str) -> (r: serde_json::Value)
        ensures
            reads_setting(self.doc(), key@, r),
    {
        match json_get(&self.data, key) {
            Some(v) => v,
            None => json_null(),
        }
    }

    /// Sets `key` to `value`; every other setting stays as it was (a null
    /// document becomes the object holding `key` alone).
    pub fn set(&mut self, key: &str, value: serde_json::Value)
        requires
            old(self).writable(),
        ensures
            setting_written(old(self).doc(), final(self).doc(), key@, value),
            json_is_null(old(self).doc()) ==> forall|k: Seq<char>|
                k != key@ ==> json_member(final(self).doc(), k) is None,
            final(self).writable(),
    {
        json_set(&mut self.data, key, value);
    }

    /// Records whether widget `id` is shown.
    pub fn set_widget_visibility(&mut self, id: &str, visible: bool)
        requires
            old(self).writable(),
        ensures
            final(self).writable(),
            bool_setting(final(self).doc(), "widget_"@ + id@ + "_visible"@, !visible) == visible,
            forall|k: Seq<char>|
                k != "widget_"@ + id@ + "_visible"@ ==> json_member(final(self).doc(), k)
                    == json_member(old(self).doc(), k),
    {
        let key = crate::widgets::widget_visibility_key(id);
        self.set(key.as_str(), json_from_bool(visible));
    }

    /// The string setting `key`, or `default`.
    fn str_value(&self, key: &str, default: &str) -> (r: String)
        ensures
            r@ == str_setting(self.doc(), key@, default@),
    {
        match json_get(&self.data, key) {
            Some(v) => match json_as_str(&v) {
                Some(s) => s,
                None => default.to_owned(),
            },
            None => default.to_owned(),
        }
    }

    /// The colour theme; `"dark"` unless set.
    pub fn theme(&self) -> (r: String)
        ensures
            r@ == str_setting(self.doc(), "theme"@, "dark"@),
    {
        self.str_value("theme", "dark")
    }

    /// The accent colour; `"#00d4ff"` unless set.
    pub fn accent_color(&self) -> (r: String)
        ensures
            r@ == str_setting(self.doc(), "accentColor"@, "#00d4ff"@),
    {
        self.str_value("accentColor", "#00d4ff")
    }

    /// Where the taskbar sits; `"bottom"` unless set.
    pub fn taskbar_position(&self) -> (r: String)
        ensures
            r@ == str_setting(self.doc(), "taskbarPosition"@, "bottom"@),
    {
        self.str_value("taskbarPosition", "bottom")
    }

    /// The taskbar height setting; 48 unless set to an integer.
    pub fn taskbar_height_setting(&self) -> (r: i64)
        ensures
            r == int_setting(self.doc(), "taskbarHeight"@, 48),
    {
        match json_get(&self.data, "taskbarHeight") {
            Some(v) => match json_as_i64(&v) {
                Some(n) => n,
                None => 48,
            },
            None => 48,
        }
    }

    /// The taskbar height in pixels, the setting truncated to an `i32`.
    pub fn taskbar_height(&self) -> (r: i32)
        ensures
            r == int_setting(self.doc(), "taskbarHeight"@, 48) as i32,
    {
        self.taskbar_height_setting() as i32
    }

    /// Whether new windows go to the current desktop; on unless set.
    pub fn auto_assign_windows(&self) -> (r: bool)
        ensures
            r == bool_setting(self.doc(), "autoAssignWindows"@, true),
    {
        match json_get(&self.data, "autoAssignWindows") {
            Some(v) => match json_as_bool(&v) {
                Some(b) => b,
                None => true,
            },
            None => true,
        }
    }

    /// The desktop remembered for the application `app`, when there is one.
    pub fn app_desktop_target(&self, app: &str) -> (r: Option<i64>)
        ensures
            r == app_target(self.doc(), app@),
    {
        let stored = self.get("appDesktopMap");
        let map = match json_object_clone(&stored) {
            Some(m) => m,
            None => json_empty_object(),
        };
        match json_get(&map, app) {
            Some(v) => json_as_i64(&v),
            None => None,
        }
    }

    /// Sets the colour theme.
    pub fn set_theme(&mut self, theme: String)
        requires
            old(self).writable(),
        ensures
            final(self).writable(),
            str_setting(final(self).doc(), "theme"@, "dark"@) == theme@,
            json_member(final(self).doc(), "theme"@) matches Some(v) && json_str(v) == Some(theme@),
            forall|k: Seq<char>|
                k != "theme"@ ==> json_member(final(self).doc(), k) == json_member(
                    old(self).doc(),
                    k,
                ),
    {
        self.set("theme", json_from_string(theme));
    }

    /// Sets the accent colour.
    pub fn set_accent_color(&mut self, color: String)
        requires
            old(self).writable(),
        ensures
            final(self).writable(),
            str_setting(final(self).doc(), "accentColor"@, "#00d4ff"@) == color@,
            json_member(final(self).doc(), "accentColor"@) matches Some(v) && json_str(v) == Some(
                color@,
            ),
            forall|k: Seq<char>|
                k != "accentColor"@ ==> json_member(final(self).doc(), k) == json_member(
                    old(self).doc(),
                    k,
                ),
    {
        self.set("accentColor", json_from_string(color));
    }

    /// Turns placing new windows on the current desktop on or off.
    pub fn set_auto_assign_windows(&mut self, value: bool)
        requires
            old(self).writable(),
        ensures
            final(self).writable(),
            bool_setting(final(self).doc(), "autoAssignWindows"@, true) == value,
            json_member(final(self).doc(), "autoAssignWindows"@) matches Some(v) && json_bool(v)
                == Some(value),
            forall|k: Seq<char>|
                k != "autoAssignWindows"@ ==> json_member(final(self).doc(), k) == json_member(
                    old(self).doc(),
                    k,
                ),
    {
        self.set("autoAssignWindows", json_from_bool(value));
    }

    /// Remembers that windows of the application `app` belong on desktop
    /// `desktop_id`; the other remembered applications stay as they were.
    pub fn remember_app_desktop(&mut self, app: String, desktop_id: usize)
        requires
            old(self).writable(),
        ensures
            final(self).writable(),
            app_target(final(self).doc(), app@) == (if desktop_id <= i64::MAX {
                Some(desktop_id as i64)
            } else {
                None
            }),
            app_entry(final(self).doc(), app@) matches Some(v) && json_u64(v) == Some(
                desktop_id as u64,
            ),
            json_member(final(self).doc(), "appDesktopMap"@) is Some,
            json_is_object(json_member(final(self).doc(), "appDesktopMap"@)->0),
            forall|other: Seq<char>|
                other != app@ ==> app_entry(final(self).doc(), other) == app_entry(
                    old(self).doc(),
                    other,
                ),
            forall|k: Seq<char>|
                k != "appDesktopMap"@ ==> json_member(final(self).doc(), k) == json_member(
                    old(self).doc(),
                    k,
                ),
    {
        let ghost old_doc = self.doc();
        let stored = self.get("appDesktopMap");
        let mut map = match json_object_clone(&stored) {
            Some(m) => m,
            None => json_empty_object(),
        };
        let ghost old_map = map;
        json_set(&mut map, app.as_str(), json_from_u64(desktop_id as u64));
        self.set("appDesktopMap", map);
        proof {
            assert(json_member(self.doc(), "appDesktopMap"@) == Some(map));
            assert forall|other: Seq<char>| other != app@ implies app_entry(self.doc(), other)
                == app_entry(old_doc, other) by {
                assert(json_member(map, other) == json_member(old_map, other));
                match json_member(old_doc, "appDesktopMap"@) {
                    Some(m) => {
                        assert(json_member(old_map, other) == (if json_is_object(m) {
                            json_member(m, other)
                        } else {
                            None
                        }));
                    },
                    None => {},
                }
            }
        }
    }

    /// Records that a window of the application `app` was put on desktop
    /// `desktop_id`: the application is remembered there and new windows are
    /// placed automatically from then on.
    pub fn record_window_assignment(&mut self, app: String, desktop_id: usize)
        requires
            old(self).writable(),
        ensures
            final(self).writable(),
            app_target(final(self).doc(), app@) == (if desktop_id <= i64::MAX {
                Some(desktop_id as i64)
            } else {
                None
            }),
            bool_setting(final(self).doc(), "autoAssignWindows"@, true),
            json_member(final(self).doc(), "autoAssignWindows"@) matches Some(v) && json_bool(v)
                == Some(true),
            app_entry(final(self).doc(), app@) matches Some(v) && json_u64(v) == Some(
                desktop_id as u64,
            ),
            json_member(final(self).doc(), "appDesktopMap"@) is Some,
            json_is_object(json_member(final(self).doc(), "appDesktopMap"@)->0),
            forall|other: Seq<char>|
                other != app@ ==> app_entry(final(self).doc(), other) == app_entry(
                    old(self).doc(),
                    other,
                ),
            forall|k: Seq<char>|
                k != "appDesktopMap"@ && k != "autoAssignWindows"@ ==> json_member(
                    final(self).doc(),
                    k,
                ) == json_member(old(self).doc(), k),
    {
        let ghost mid_app = app@;
        self.remember_app_desktop(app, desktop_id);
        let ghost mid = self.doc();
        self.set_auto_assign_windows(true);
        proof {
            lemma_default_keys();
            assert(json_member(self.doc(), "appDesktopMap"@) == json_member(mid, "appDesktopMap"@));
        }
    }
}


/// Reading a setting gives back what was last written to it; writing one
/// setting leaves every other as it was.
pub proof fn law_read_after_write(
    before: Store,
    after: Store,
    key: Seq<char>,
    value: serde_json::Value,
    other: Seq<char>,
)
    requires
        setting_written(before.doc(), after.doc(), key, value),
    ensures
        json_member(after.doc(), key) == Some(value),
        other != key ==> json_member(after.doc(), other) == json_member(before.doc(), other),
{
}

/// Reading a setting after a write gives the written value for the written
/// key and, for every other key, what reading it gave before the write,
/// whether the setting is there or not.
pub proof fn law_get_after_set(
    before: Store,
    after: Store,
    key: Seq<char>,
    value: serde_json::Value,
    other: Seq<char>,
    read_key: serde_json::Value,
    read_before: serde_json::Value,
    read_after: serde_json::Value,
)
    requires
        setting_written(before.doc(), after.doc(), key, value),
        reads_setting(after.doc(), key, read_key),
        reads_setting(before.doc(), other, read_before),
        reads_setting(after.doc(), other, read_after),
        other != key,
    ensures
        read_key == value,
        read_after == read_before,
{
}

/// Changing the theme makes it read back, and leaves the accent colour, the
/// taskbar settings and automatic placement as they were.
pub proof fn law_theme_change_keeps_other_settings(before: Store, after: Store, theme: Seq<char>)
    requires
        str_setting(after.doc(), "theme"@, "dark"@) == theme,
        forall|k: Seq<char>|
            k != "theme"@ ==> json_member(after.doc(), k) == json_member(before.doc(), k),
    ensures
        str_setting(after.doc(), "theme"@, "dark"@) == theme,
        str_setting(after.doc(), "accentColor"@, "#00d4ff"@) == str_setting(
            before.doc(),
            "accentColor"@,
            "#00d4ff"@,
        ),
        str_setting(after.doc(), "taskbarPosition"@, "bottom"@) == str_setting(
            before.doc(),
            "taskbarPosition"@,
            "bottom"@,
        ),
        int_setting(after.doc(), "taskbarHeight"@, 48) == int_setting(
            before.doc(),
            "taskbarHeight"@,
            48,
        ),
        bool_setting(after.doc(), "autoAssignWindows"@, true) == bool_setting(
            before.doc(),
            "autoAssignWindows"@,
            true,
        ),
{
    lemma_default_keys();
    assert(json_member(after.doc(), "accentColor"@) == json_member(before.doc(), "accentColor"@));
    assert(json_member(after.doc(), "taskbarPosition"@) == json_member(
        before.doc(),
        "taskbarPosition"@,
    ));
    assert(json_member(after.doc(), "taskbarHeight"@) == json_member(before.doc(), "taskbarHeight"@));
    assert(json_member(after.doc(), "autoAssignWindows"@) == json_member(
        before.doc(),
        "autoAssignWindows"@,
    ));
}

/// The default configuration reads as the dark theme with the cyan accent,
/// a 48-pixel taskbar at the bottom, automatic placement on, and no
/// application remembered on any desktop.
pub proof fn law_default_settings(doc: serde_json::Value)
    requires
        is_default_config(doc),
    ensures
        str_setting(doc, "theme"@, "dark"@) == "dark"@,
        str_setting(doc, "accentColor"@, "#00d4ff"@) == "#00d4ff"@,
        str_setting(doc, "taskbarPosition"@, "bottom"@) == "bottom"@,
        int_setting(doc, "taskbarHeight"@, 48) == 48,
        bool_setting(doc, "autoAssignWindows"@, true),
        forall|app: Seq<char>| app_target(doc, app) is None,
{
}

/// The visibility setting of a widget is recognised as such and names the
/// widget again, as long as the id does not itself look like the key's
/// prefix or suffix.
pub proof fn law_widget_key_names_widget(id: Seq<char>)
    requires
        !has_prefix(id + "_visible"@, "widget_"@),
        !has_suffix(id, "_visible"@),
    ensures
        ({
            let key = "widget_"@ + id + "_visible"@;
            &&& key != "taskbarPosition"@
            &&& key != "taskbarHeight"@
            &&& has_prefix(key, "widget_"@)
            &&& has_suffix(key, "_visible"@)
            &&& widget_id_of_key(key) == id
        }),
{
    lemma_default_keys();
    reveal_strlit("widget_");
    reveal_strlit("_visible");
    let key = "widget_"@ + id + "_visible"@;
    assert(key[0] == 'w');
    assert(key.subrange(0, 7) =~= "widget_"@);
    assert(key.subrange(key.len() - 8, key.len() as int) =~= "_visible"@);
    assert(key.skip(7) =~= id + "_visible"@);
    assert(strip_prefixes(key.skip(7), "widget_"@) == id + "_visible"@);
    assert((id + "_visible"@).subrange(id.len() as int, id.len() + 8int) =~= "_visible"@);
    assert((id + "_visible"@).take(id.len() as int) =~= id);
    assert(strip_suffixes(id, "_visible"@) == id);
}

/// Keeping the records that have a member named `key` keeps every such
/// record, in order, and drops exactly the others: it is the sequence
/// filtered by "has the member".
pub proof fn law_records_with_member_are_all_kept(items: Seq<serde_json::Value>, key: Seq<char>)
    ensures
        with_member(items, key) == items.filter(|v: serde_json::Value| json_member(v, key) is Some),
        forall|i: int|
            0 <= i < items.len() && json_member(items[i], key) is Some ==> with_member(
                items,
                key,
            ).contains(#[trigger] items[i]),
        forall|i: int|
            0 <= i < with_member(items, key).len() ==> json_member(
                #[trigger] with_member(items, key)[i],
                key,
            ) is Some,
    decreases items.len(),
{
    let pred = |v: serde_json::Value| json_member(v, key) is Some;
    reveal(Seq::filter);
    if items.len() > 0 {
        law_records_with_member_are_all_kept(items.drop_last(), key);
    }
    assert(with_member(items, key) =~= items.filter(pred));
    assert forall|i: int| 0 <= i < items.len() && json_member(items[i], key) is Some implies with_member(
        items,
        key,
    ).contains(#[trigger] items[i]) by {
        items.lemma_filter_contains(pred, i);
    }
    assert forall|i: int| 0 <= i < with_member(items, key).len() implies json_member(
        #[trigger] with_member(items, key)[i],
        key,
    ) is Some by {
        items.lemma_filter_pred(pred, i);
    }
}

} // verus!
