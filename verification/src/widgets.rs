//! The desktop widgets: their window sizes and pages, their window labels
//! and settings keys, and where a new widget window appears.
use vstd::prelude::*;
use vstd::string::StringSliceAdditionalSpecFns;
use crate::text::push_str;
use crate::tiling::trunc_div;

verus! {

/// The window size and page of the widget with this id, when there is one.
pub open spec fn widget_config_spec(id: Seq<char>) -> Option<(u32, u32, Seq<char>)> {
    if id == "clock"@ {
        Some((250u32, 250u32, "widgets/clock/index.html"@))
    } else if id == "system-monitor"@ {
        Some((300u32, 350u32, "widgets/system-monitor/index.html"@))
    } else if id == "weather"@ {
        Some((280u32, 320u32, "widgets/weather/index.html"@))
    } else if id == "notes"@ {
        Some((350u32, 400u32, "widgets/notes/index.html"@))
    } else if id == "music-player"@ {
        Some((380u32, 280u32, "widgets/music-player/index.html"@))
    } else {
        None
    }
}

/// The sum of the bytes.
pub open spec fn byte_sum(b: Seq<u8>) -> int
    decreases b.len(),
{
    if b.len() == 0 {
        0
    } else {
        byte_sum(b.drop_last()) + b.last()
    }
}

/// The sum of each byte times its position.
pub open spec fn weighted_byte_sum(b: Seq<u8>) -> int
    decreases b.len(),
{
    if b.len() == 0 {
        0
    } else {
        weighted_byte_sum(b.drop_last()) + (b.len() - 1) * b.last()
    }
}

proof fn lemma_sums_grow(b: Seq<u8>, k: int)
    requires
        0 <= k <= b.len(),
    ensures
        0 <= byte_sum(b.take(k)) <= byte_sum(b),
        0 <= weighted_byte_sum(b.take(k)) <= weighted_byte_sum(b),
    decreases b.len(),
{
    if k < b.len() {
        assert(b.drop_last().take(k) =~= b.take(k));
        lemma_sums_grow(b.drop_last(), k);
        assert((b.len() - 1) * b.last() >= 0) by (nonlinear_arith)
            requires
                b.len() >= 1,
                b.last() >= 0,
        ;
    } else {
        assert(b.take(k) =~= b);
        lemma_sums_nonneg(b);
    }
}

proof fn lemma_sums_nonneg(b: Seq<u8>)
    ensures
        byte_sum(b) >= 0,
        weighted_byte_sum(b) >= 0,
    decreases b.len(),
{
    if b.len() > 0 {
        lemma_sums_nonneg(b.drop_last());
        assert((b.len() - 1) * b.last() >= 0) by (nonlinear_arith)
            requires
                b.len() >= 1,
                b.last() >= 0,
        ;
    }
}

/// The window size and page of the widget `id`.
pub fn widget_config(id: &str) -> (r: Option<(u32, u32, &'static str)>)
    ensures
        match r {
            Some((w, h, url)) => widget_config_spec(id@) == Some((w, h, url@)),
            None => widget_config_spec(id@) is None,
        },
{
    if crate::text::eq_str(id, "clock") {
        Some((250, 250, "widgets/clock/index.html"))
    } else if crate::text::eq_str(id, "system-monitor") {
        Some((300, 350, "widgets/system-monitor/index.html"))
    } else if crate::text::eq_str(id, "weather") {
        Some((280, 320, "widgets/weather/index.html"))
    } else if crate::text::eq_str(id, "notes") {
        Some((350, 400, "widgets/notes/index.html"))
    } else if crate::text::eq_str(id, "music-player") {
        Some((380, 280, "widgets/music-player/index.html"))
    } else {
        None
    }
}

/// The ids of all widgets, in the order the widget list shows them.
pub fn known_widgets() -> (r: Vec<&'static str>)
    ensures
        r@.map_values(|s: &str| s@) == seq![
            "clock"@,
            "system-monitor"@,
            "weather"@,
            "notes"@,
            "music-player"@,
        ],
{
    let mut r: Vec<&'static str> = Vec::new();
    r.push("clock");
    r.push("system-monitor");
    r.push("weather");
    r.push("notes");
    r.push("music-player");
    assert(r@.map_values(|s: &str| s@) =~= seq![
        "clock"@,
        "system-monitor"@,
        "weather"@,
        "notes"@,
        "music-player"@,
    ]);
    r
}

/// The label of the window that shows widget `id`.
pub fn widget_label(id: &str) -> (r: String)
    ensures
        r@ == "widget-"@ + id@,
{
    let mut r = String::new();
    push_str(&mut r, "widget-");
    push_str(&mut r, id);
    r
}

/// The setting that records whether widget `id` is shown.
pub fn widget_visibility_key(id: &str) -> (r: String)
    ensures
        r@ == "widget_"@ + id@ + "_visible"@,
{
    let mut r = String::new();
    push_str(&mut r, "widget_");
    push_str(&mut r, id);
    push_str(&mut r, "_visible");
    r
}

/// The error for a widget id that names no widget.
pub fn unknown_widget_error(id: &str) -> (r: String)
    ensures
        r@ == "Unknown widget: "@ + id@,
{
    let mut r = String::new();
    push_str(&mut r, "Unknown widget: ");
    push_str(&mut r, id);
    r
}

/// A horizontal offset between -100 and 99 derived from the bytes of `id`,
/// so that different widgets open at different places.
pub fn rand_offset(id: &str) -> (r: i32)
    requires
        byte_sum(id.spec_bytes()) <= i32::MAX,
    ensures
        r == byte_sum(id.spec_bytes()) % 200 - 100,
{
    let bytes = id.as_bytes();
    let mut hash: u64 = 0;
    let mut i: usize = 0;
    while i < bytes.len()
        invariant
            i <= bytes@.len(),
            bytes@ == id.spec_bytes(),
            byte_sum(bytes@) <= i32::MAX,
            hash == byte_sum(bytes@.take(i as int)),
        decreases bytes@.len() - i,
    {
        assert(bytes@.take(i + 1).drop_last() =~= bytes@.take(i as int));
        proof {
            lemma_sums_grow(bytes@, i + 1);
        }
        hash = hash + bytes[i] as u64;
        i = i + 1;
    }
    assert(bytes@.take(i as int) =~= bytes@);
    ((hash % 200) as i32) - 100
}

/// A vertical offset between -75 and 74 derived from the bytes of `id` and
/// their positions.
pub fn rand_offset2(id: &str) -> (r: i32)
    requires
        weighted_byte_sum(id.spec_bytes()) <= i32::MAX,
    ensures
        r == weighted_byte_sum(id.spec_bytes()) % 150 - 75,
{
    let bytes = id.as_bytes();
    let mut hash: u64 = 0;
    let mut i: usize = 0;
    while i < bytes.len()
        invariant
            i <= bytes@.len(),
            bytes@ == id.spec_bytes(),
            weighted_byte_sum(bytes@) <= i32::MAX,
            hash == weighted_byte_sum(bytes@.take(i as int)),
        decreases bytes@.len() - i,
    {
        let ghost t = bytes@.take(i + 1);
        assert(t.drop_last() =~= bytes@.take(i as int));
        proof {
            lemma_sums_grow(bytes@, i + 1);
            lemma_sums_nonneg(bytes@.take(i as int));
            assert(weighted_byte_sum(t) == hash + i * bytes@[i as int]);
        }
        assert((i as int) * (bytes@[i as int] as int) <= i32::MAX);
        hash = hash + (i as u64) * (bytes[i] as u64);
        i = i + 1;
    }
    assert(bytes@.take(i as int) =~= bytes@);
    ((hash % 150) as i32) - 75
}

/// Where the window of widget `id`, `width` by `height` pixels, opens on a
/// screen of `screen_w` by `screen_h` pixels: centred, then shifted by the
/// widget's two offsets.
pub fn widget_position(screen_w: i32, screen_h: i32, width: u32, height: u32, id: &str) -> (r: (
    i32,
    i32,
))
    requires
        width <= i32::MAX,
        height <= i32::MAX,
        i32::MIN <= screen_w - width,
        i32::MIN <= screen_h - height,
        byte_sum(id.spec_bytes()) <= i32::MAX,
        weighted_byte_sum(id.spec_bytes()) <= i32::MAX,
        i32::MIN <= trunc_div(screen_w - width, 2) + byte_sum(id.spec_bytes()) % 200 - 100
            <= i32::MAX,
        i32::MIN <= trunc_div(screen_h - height, 2) + weighted_byte_sum(id.spec_bytes()) % 150
            - 75 <= i32::MAX,
    ensures
        r.0 == trunc_div(screen_w - width, 2) + byte_sum(id.spec_bytes()) % 200 - 100,
        r.1 == trunc_div(screen_h - height, 2) + weighted_byte_sum(id.spec_bytes()) % 150 - 75,
{
    let dx = screen_w - width as i32;
    let dy = screen_h - height as i32;
    let cx = match dx.checked_div(2) {
        Some(q) => q,
        None => 0,
    };
    let cy = match dy.checked_div(2) {
        Some(q) => q,
        None => 0,
    };
    (cx + rand_offset(id), cy + rand_offset2(id))
}

/// Whether both byte sums of `bytes` fit in an `i32`.
fn sums_fit(bytes: &[u8]) -> (r: bool)
    ensures
        r == (byte_sum(bytes@) <= i32::MAX && weighted_byte_sum(bytes@) <= i32::MAX),
{
    let mut plain: u64 = 0;
    let mut weighted: u64 = 0;
    let mut i: usize = 0;
    while i < bytes.len()
        invariant
            i <= bytes@.len(),
            plain == byte_sum(bytes@.take(i as int)),
            weighted == weighted_byte_sum(bytes@.take(i as int)),
            plain <= i32::MAX,
            weighted <= i32::MAX,
        decreases bytes@.len() - i,
    {
        let ghost t = bytes@.take(i + 1);
        assert(t.drop_last() =~= bytes@.take(i as int));
        proof {
            lemma_sums_grow(bytes@, i + 1);
        }
        let b = bytes[i];
        if b > 0 && i > 0x7fff_ffff {
            assert((i as int) * (b as int) >= i as int) by (nonlinear_arith)
                requires
                    b >= 1,
                    i >= 0,
            ;
            proof {
                lemma_sums_nonneg(bytes@.take(i as int));
            }
            return false;
        }
        assert((i as int) * (b as int) <= 0x7fff_ffff * 255) by (nonlinear_arith)
            requires
                b == 0 || i <= 0x7fff_ffff,
                b <= 255,
                i >= 0,
        ;
        let next_plain = plain + b as u64;
        let next_weighted = weighted + (i as u64) * (b as u64);
        assert(weighted_byte_sum(t) == weighted + i * b);
        if next_plain > 0x7fff_ffff || next_weighted > 0x7fff_ffff {
            return false;
        }
        plain = next_plain;
        weighted = next_weighted;
        i = i + 1;
    }
    assert(bytes@.take(i as int) =~= bytes@);
    true
}

/// Where the window of widget `id` opens, as [`widget_position`] computes
/// it; `None` when that computation would leave the range of an `i32`.
pub fn widget_position_checked(screen_w: i32, screen_h: i32, width: u32, height: u32, id: &str) -> (r:
    Option<(i32, i32)>)
    ensures
        r is Some <==> {
            &&& width <= i32::MAX
            &&& height <= i32::MAX
            &&& i32::MIN <= screen_w - width
            &&& i32::MIN <= screen_h - height
            &&& byte_sum(id.spec_bytes()) <= i32::MAX
            &&& weighted_byte_sum(id.spec_bytes()) <= i32::MAX
            &&& i32::MIN <= trunc_div(screen_w - width, 2) + byte_sum(id.spec_bytes()) % 200 - 100
                <= i32::MAX
            &&& i32::MIN <= trunc_div(screen_h - height, 2) + weighted_byte_sum(id.spec_bytes())
                % 150 - 75 <= i32::MAX
        },
        r matches Some(p) ==> {
            &&& p.0 == trunc_div(screen_w - width, 2) + byte_sum(id.spec_bytes()) % 200 - 100
            &&& p.1 == trunc_div(screen_h - height, 2) + weighted_byte_sum(id.spec_bytes()) % 150
                - 75
        },
{
    if width > 0x7fff_ffff || height > 0x7fff_ffff {
        return None;
    }
    let dx = match screen_w.checked_sub(width as i32) {
        Some(d) => d,
        None => return None,
    };
    let dy = match screen_h.checked_sub(height as i32) {
        Some(d) => d,
        None => return None,
    };
    if !sums_fit(id.as_bytes()) {
        return None;
    }
    let cx = match dx.checked_div(2) {
        Some(q) => q,
        None => 0,
    };
    let cy = match dy.checked_div(2) {
        Some(q) => q,
        None => 0,
    };
    let ox = rand_offset(id);
    let oy = rand_offset2(id);
    if cx.checked_add(ox).is_none() || cy.checked_add(oy).is_none() {
        return None;
    }
    Some(widget_position(screen_w, screen_h, width, height, id))
}

} // verus!
