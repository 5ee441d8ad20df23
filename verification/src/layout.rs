//! Screen geometry of the desktop's own windows: the taskbar's frame and
//! the monitor's work area.
use vstd::prelude::*;
use crate::json::{json_as_i64, json_get, json_i64, json_member, json_parse, json_parse_text};
use crate::text::{eq_str, trim_str, trim_ws};
use crate::tiling::trunc_div;

verus! {

/// The taskbar's frame `(width, height, x, y)` for a placement on a monitor
/// of `mw` by `mh` pixels: a 48-pixel column along the left or right edge,
/// or a bar at most 700 pixels wide and `height` high, centred at the top or
/// (for any other placement) at the bottom.
pub open spec fn taskbar_geometry_spec(position: Seq<char>, mw: int, mh: int, height: int) -> (
    int,
    int,
    int,
    int,
) {
    if position == "left"@ {
        (48, mh, 0, 0)
    } else if position == "right"@ {
        (48, mh, mw - 48, 0)
    } else {
        let w = if mw < 700 {
            mw
        } else {
            700
        };
        if position == "top"@ {
            (w, height, trunc_div(mw - w, 2), 0)
        } else {
            (w, height, trunc_div(mw - w, 2), mh - height)
        }
    }
}

/// The taskbar's frame for `position` on a monitor of `monitor_w` by
/// `monitor_h` pixels.
pub fn taskbar_geometry(position: &str, monitor_w: i32, monitor_h: i32, height: i32) -> (r: (
    i32,
    i32,
    i32,
    i32,
))
    requires
        position@ == "right"@ ==> monitor_w - 48 >= i32::MIN,
        position@ != "left"@ && position@ != "right"@ && position@ != "top"@ ==> i32::MIN
            <= monitor_h - height <= i32::MAX,
    ensures
        (r.0 as int, r.1 as int, r.2 as int, r.3 as int) == taskbar_geometry_spec(
            position@,
            monitor_w as int,
            monitor_h as int,
            height as int,
        ),
{
    if eq_str(position, "left") {
        (48, monitor_h, 0, 0)
    } else if eq_str(position, "right") {
        (48, monitor_h, monitor_w - 48, 0)
    } else {
        let w: i32 = if monitor_w < 700 {
            monitor_w
        } else {
            700
        };
        let x = match (monitor_w - w).checked_div(2) {
            Some(q) => q,
            None => 0,
        };
        if eq_str(position, "top") {
            (w, height, x, 0)
        } else {
            (w, height, x, monitor_h - height)
        }
    }
}

/// Where the taskbar first appears on a screen of `screen_w` by `screen_h`
/// pixels at scale factor `scale`: a 700-unit bar centred 48 units above the
/// bottom edge.
pub fn taskbar_initial_position(screen_w: i32, screen_h: i32, scale: i32) -> (r: (i32, i32))
    requires
        i32::MIN <= 700 * scale <= i32::MAX,
        i32::MIN <= screen_w - 700 * scale <= i32::MAX,
        i32::MIN <= 48 * scale <= i32::MAX,
        i32::MIN <= screen_h - 48 * scale <= i32::MAX,
    ensures
        r.0 == trunc_div(screen_w - 700 * scale, 2),
        r.1 == screen_h - 48 * scale,
{
    let dx = screen_w - 700 * scale;
    let x = match dx.checked_div(2) {
        Some(q) => q,
        None => 0,
    };
    (x, screen_h - 48 * scale)
}

/// The monitor's size and work area.
pub struct ScreenGeometry {
    pub x: i64,
    pub y: i64,
    pub width: i64,
    pub height: i64,
}

/// The monitor geometry for the edges that the system reported; a missing
/// edge counts as 0 (left, top), 1920 (right) or 1080 (bottom).
pub fn screen_geometry(left: Option<i64>, top: Option<i64>, right: Option<i64>, bottom: Option<
    i64,
>) -> (r: ScreenGeometry)
    requires
        i64::MIN <= right.unwrap_or(1920) - left.unwrap_or(0) <= i64::MAX,
        i64::MIN <= bottom.unwrap_or(1080) - top.unwrap_or(0) <= i64::MAX,
    ensures
        r.x == left.unwrap_or(0),
        r.y == top.unwrap_or(0),
        r.width == right.unwrap_or(1920) - left.unwrap_or(0),
        r.height == bottom.unwrap_or(1080) - top.unwrap_or(0),
{
    let l = match left {
        Some(v) => v,
        None => 0,
    };
    let t = match top {
        Some(v) => v,
        None => 0,
    };
    let rt = match right {
        Some(v) => v,
        None => 1920,
    };
    let b = match bottom {
        Some(v) => v,
        None => 1080,
    };
    ScreenGeometry { x: l, y: t, width: rt - l, height: b - t }
}

/// The edge `key` of the rectangle that a command printed as JSON: its
/// integer member `key`, when the text parses and has one.
pub open spec fn rect_edge(text: Seq<char>, key: Seq<char>) -> Option<i64> {
    match json_parse(text) {
        Some(v) => match json_member(v, key) {
            Some(m) => json_i64(m),
            None => None,
        },
        None => None,
    }
}

/// The integer member `key` of `v`, when there is one.
fn edge_of(v: &Option<serde_json::Value>, key: &str) -> (r: Option<i64>)
    ensures
        r == match *v {
            Some(x) => match json_member(x, key@) {
                Some(m) => json_i64(m),
                None => None,
            },
            None => None,
        },
{
    match v {
        Some(x) => match json_get(x, key) {
            Some(m) => json_as_i64(&m),
            None => None,
        },
        None => None,
    }
}

/// The monitor geometry from the JSON rectangle (`Left`, `Top`, `Right`,
/// `Bottom`) that a command printed, surrounded by white space; an edge
/// that is missing, or text that does not parse, counts as in
/// [`screen_geometry`]. `None` when the width or height does not fit in an
/// `i64`.
pub fn screen_geometry_from_output(stdout: &str) -> (r: Option<ScreenGeometry>)
    ensures
        ({
            let text = trim_ws(stdout@);
            let l = rect_edge(text, "Left"@).unwrap_or(0);
            let t = rect_edge(text, "Top"@).unwrap_or(0);
            let rt = rect_edge(text, "Right"@).unwrap_or(1920);
            let b = rect_edge(text, "Bottom"@).unwrap_or(1080);
            let fits = i64::MIN <= rt - l <= i64::MAX && i64::MIN <= b - t <= i64::MAX;
            &&& (r is Some <==> fits)
            &&& (r matches Some(g) ==> g.x == l && g.y == t && g.width == rt - l && g.height == b - t)
        }),
{
    let text = trim_str(stdout);
    let parsed = json_parse_text(text.as_str());
    let left = edge_of(&parsed, "Left");
    let top = edge_of(&parsed, "Top");
    let right = edge_of(&parsed, "Right");
    let bottom = edge_of(&parsed, "Bottom");
    let l = match left {
        Some(v) => v,
        None => 0,
    };
    let t = match top {
        Some(v) => v,
        None => 0,
    };
    let rt = match right {
        Some(v) => v,
        None => 1920,
    };
    let b = match bottom {
        Some(v) => v,
        None => 1080,
    };
    if rt.checked_sub(l).is_none() || b.checked_sub(t).is_none() {
        return None;
    }
    Some(screen_geometry(left, top, right, bottom))
}

/// The taskbar hugs the edge it is placed on: on the left it starts at the
/// monitor's left edge, on the right it ends at the monitor's right edge,
/// both as 48-pixel columns of the monitor's height; at the top it starts
/// at the top edge, at the bottom it ends at the bottom edge; a horizontal
/// bar is at most 700 pixels wide, as wide as the monitor when that is
/// narrower, and centred (the space left over split in two halves that
/// differ by at most one pixel).
pub proof fn law_taskbar_touches_its_edge(position: Seq<char>, mw: int, mh: int, height: int)
    ensures
        position == "left"@ ==> taskbar_geometry_spec(position, mw, mh, height) == (48int, mh, 0int, 0int),
        position == "right"@ ==> {
            let g = taskbar_geometry_spec(position, mw, mh, height);
            &&& g.0 == 48
            &&& g.1 == mh
            &&& g.2 + g.0 == mw
            &&& g.3 == 0
        },
        position != "left"@ && position != "right"@ ==> {
            let g = taskbar_geometry_spec(position, mw, mh, height);
            &&& g.0 == (if mw < 700 { mw } else { 700 })
            &&& g.1 == height
            &&& 0 <= mw - g.0 - 2 * g.2 <= 1
            &&& (position == "top"@ ==> g.3 == 0)
            &&& (position != "top"@ ==> g.3 + g.1 == mh)
        },
{
    reveal_strlit("left");
    reveal_strlit("right");
    reveal_strlit("top");
    assert("left"@[0] != "right"@[0]);
}

} // verus!
