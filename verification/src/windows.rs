//! Which of the system's top-level windows the desktop cares about, and the
//! drag-to-edge gesture that moves a window to a neighbouring desktop.
use vstd::prelude::*;
use crate::text::{contains_str, has_substring};

verus! {

/// A top-level window as the system reports it.
pub struct WindowInfo {
    pub hwnd: isize,
    pub title: String,
    pub class: String,
    pub pid: u32,
    pub visible: bool,
}

/// The right and bottom edges of a window's rectangle (zero when the system
/// could not report it).
pub struct WindowExtent {
    pub right: i32,
    pub bottom: i32,
}

/// A window that the window list shows: visible, titled, not one of the
/// desktop's own windows and not part of the shell.
pub open spec fn listed(title: Seq<char>, class: Seq<char>, visible: bool) -> bool {
    &&& visible
    &&& title.len() > 0
    &&& !has_substring(title, "detbar"@)
    &&& !has_substring(class, "Windows.UI.Core"@)
    &&& class != "Progman"@
    &&& class != "WorkerW"@
}

/// A window that may have been opened by a launched application.
pub open spec fn launch_candidate(w: WindowInfo) -> bool {
    &&& !has_substring(w.title@, "detbar"@)
    &&& w.title@.len() > 0
    &&& !has_substring(w.class@, "WorkerW"@)
    &&& !has_substring(w.class@, "Progman"@)
}

/// One of the desktop's own full-screen windows, kept at the bottom.
pub open spec fn background_window(w: WindowInfo) -> bool {
    has_substring(w.title@, "detbar Desktop"@) || has_substring(w.title@, "detbar Wallpaper"@)
}

/// A window that a drag to the screen edge may move to another desktop.
pub open spec fn transferable(w: WindowInfo, e: WindowExtent) -> bool {
    &&& !has_substring(w.title@, "detbar"@)
    &&& w.title@.len() > 0
    &&& !has_substring(w.class@, "WorkerW"@)
    &&& !has_substring(w.class@, "Progman"@)
    &&& !has_substring(w.class@, "Shell"@)
    &&& e.right > 0
    &&& e.bottom > 0
}

/// The handles of the windows in `ws` that are not in `exclude`, in order.
pub open spec fn hidden_hwnds(ws: Seq<WindowInfo>, exclude: Seq<isize>) -> Seq<isize>
    decreases ws.len(),
{
    if ws.len() == 0 {
        Seq::empty()
    } else if exclude.contains(ws.last().hwnd) {
        hidden_hwnds(ws.drop_last(), exclude)
    } else {
        hidden_hwnds(ws.drop_last(), exclude).push(ws.last().hwnd)
    }
}

/// The handles of the launch candidates in `ws`, in order.
pub open spec fn candidate_hwnds(ws: Seq<WindowInfo>) -> Seq<isize>
    decreases ws.len(),
{
    if ws.len() == 0 {
        Seq::empty()
    } else if launch_candidate(ws.last()) {
        candidate_hwnds(ws.drop_last()).push(ws.last().hwnd)
    } else {
        candidate_hwnds(ws.drop_last())
    }
}

/// The handles of the background windows in `ws`, in order.
pub open spec fn background_hwnds(ws: Seq<WindowInfo>) -> Seq<isize>
    decreases ws.len(),
{
    if ws.len() == 0 {
        Seq::empty()
    } else if background_window(ws.last()) {
        background_hwnds(ws.drop_last()).push(ws.last().hwnd)
    } else {
        background_hwnds(ws.drop_last())
    }
}

/// The position of the first transferable window, or `ws.len()`.
pub open spec fn first_transferable(ws: Seq<WindowInfo>, es: Seq<WindowExtent>) -> int
    decreases ws.len(),
{
    if ws.len() == 0 || es.len() == 0 {
        0
    } else if transferable(ws[0], es[0]) {
        0
    } else {
        1 + first_transferable(ws.drop_first(), es.drop_first())
    }
}

/// Which way a drag at `x` goes: to the next desktop at the right edge, to
/// the previous one at the left edge (within two pixels), nowhere else.
pub open spec fn edge_direction_spec(screen_w: int, x: int) -> i32 {
    if x >= screen_w - 2 {
        1i32
    } else if x <= 2 {
        -1i32
    } else {
        0i32
    }
}

/// Whether the window list shows a window with this title, class and
/// visibility.
pub fn is_listed_window(title: &str, class: &str, visible: bool) -> (r: bool)
    ensures
        r == listed(title@, class@, visible),
{
    visible && title.unicode_len() > 0 && !contains_str(title, "detbar") && !contains_str(
        class,
        "Windows.UI.Core",
    ) && !crate::text::eq_str(class, "Progman") && !crate::text::eq_str(class, "WorkerW")
}

/// The windows to hide when only `exclude` should stay visible.
pub fn windows_to_hide(all: &[WindowInfo], exclude: &[isize]) -> (r: Vec<isize>)
    ensures
        r@ == hidden_hwnds(all@, exclude@),
{
    let mut r: Vec<isize> = Vec::new();
    let mut i: usize = 0;
    while i < all.len()
        invariant
            i <= all@.len(),
            r@ == hidden_hwnds(all@.take(i as int), exclude@),
        decreases all@.len() - i,
    {
        assert(all@.take(i + 1).drop_last() =~= all@.take(i as int));
        if !crate::desktop::contains_hwnd(exclude, all[i].hwnd) {
            r.push(all[i].hwnd);
        }
        i = i + 1;
    }
    assert(all@.take(i as int) =~= all@);
    r
}

fn is_launch_candidate(w: &WindowInfo) -> (r: bool)
    ensures
        r == launch_candidate(*w),
{
    !contains_str(w.title.as_str(), "detbar") && w.title.as_str().unicode_len() > 0
        && !contains_str(w.class.as_str(), "WorkerW") && !contains_str(
        w.class.as_str(),
        "Progman",
    )
}

/// The windows that a freshly launched application may have opened.
pub fn launch_candidates(wins: &[WindowInfo]) -> (r: Vec<isize>)
    ensures
        r@ == candidate_hwnds(wins@),
{
    let mut r: Vec<isize> = Vec::new();
    let mut i: usize = 0;
    while i < wins.len()
        invariant
            i <= wins@.len(),
            r@ == candidate_hwnds(wins@.take(i as int)),
        decreases wins@.len() - i,
    {
        assert(wins@.take(i + 1).drop_last() =~= wins@.take(i as int));
        if is_launch_candidate(&wins[i]) {
            r.push(wins[i].hwnd);
        }
        i = i + 1;
    }
    assert(wins@.take(i as int) =~= wins@);
    r
}

/// The desktop's own background windows among `wins`.
pub fn background_windows(wins: &[WindowInfo]) -> (r: Vec<isize>)
    ensures
        r@ == background_hwnds(wins@),
{
    let mut r: Vec<isize> = Vec::new();
    let mut i: usize = 0;
    while i < wins.len()
        invariant
            i <= wins@.len(),
            r@ == background_hwnds(wins@.take(i as int)),
        decreases wins@.len() - i,
    {
        assert(wins@.take(i + 1).drop_last() =~= wins@.take(i as int));
        if contains_str(wins[i].title.as_str(), "detbar Desktop") || contains_str(
            wins[i].title.as_str(),
            "detbar Wallpaper",
        ) {
            r.push(wins[i].hwnd);
        }
        i = i + 1;
    }
    assert(wins@.take(i as int) =~= wins@);
    r
}

/// Which way a drag with the cursor at `cursor_x` moves a window.
pub fn edge_direction(screen_w: i32, cursor_x: i32) -> (r: i32)
    requires
        screen_w - 2 >= i32::MIN,
    ensures
        r == edge_direction_spec(screen_w as int, cursor_x as int),
{
    let threshold: i32 = 2;
    if cursor_x >= screen_w - threshold {
        1
    } else if cursor_x <= threshold {
        -1
    } else {
        0
    }
}

fn is_transferable(w: &WindowInfo, e: &WindowExtent) -> (r: bool)
    ensures
        r == transferable(*w, *e),
{
    !contains_str(w.title.as_str(), "detbar") && w.title.as_str().unicode_len() > 0
        && !contains_str(w.class.as_str(), "WorkerW") && !contains_str(
        w.class.as_str(),
        "Progman",
    ) && !contains_str(w.class.as_str(), "Shell") && e.right > 0 && e.bottom > 0
}

/// The window transfer that a drag to the screen edge asks for: while the
/// left button is held (`dragging`) and the cursor position is known and at
/// an edge, the first transferable window of `windows` (whose rectangles are
/// `extents`) goes one desktop that way. At most one transfer comes back.
pub fn check_edge_transfer(
    screen_w: i32,
    _screen_h: i32,
    _taskbar_h: i32,
    dragging: bool,
    cursor_x: Option<i32>,
    windows: &[WindowInfo],
    extents: &[WindowExtent],
) -> (r: Vec<(isize, i32)>)
    requires
        screen_w - 2 >= i32::MIN,
        extents@.len() == windows@.len(),
    ensures
        !dragging || cursor_x is None || edge_direction_spec(screen_w as int, cursor_x->0 as int)
            == 0 ==> r@.len() == 0,
        dragging && cursor_x is Some && edge_direction_spec(screen_w as int, cursor_x->0 as int)
            != 0 ==> {
            let k = first_transferable(windows@, extents@);
            if k < windows@.len() {
                r@ == seq![(windows@[k].hwnd, edge_direction_spec(screen_w as int, cursor_x->0 as int))]
            } else {
                r@.len() == 0
            }
        },
{
    let mut transfers: Vec<(isize, i32)> = Vec::new();
    if !dragging {
        return transfers;
    }
    let x = match cursor_x {
        Some(x) => x,
        None => {
            return transfers;
        },
    };
    let direction = edge_direction(screen_w, x);
    if direction == 0 {
        return transfers;
    }
    let mut i: usize = 0;
    assert(windows@.skip(0) =~= windows@);
    assert(extents@.skip(0) =~= extents@);
    while i < windows.len()
        invariant
            i <= windows@.len(),
            extents@.len() == windows@.len(),
            transfers@.len() == 0,
            dragging,
            cursor_x == Some(x),
            direction == edge_direction_spec(screen_w as int, x as int),
            direction != 0,
            first_transferable(windows@, extents@) == i + first_transferable(
                windows@.skip(i as int),
                extents@.skip(i as int),
            ),
        decreases windows@.len() - i,
    {
        assert(windows@.skip(i as int)[0] == windows@[i as int]);
        assert(extents@.skip(i as int)[0] == extents@[i as int]);
        if is_transferable(&windows[i], &extents[i]) {
            transfers.push((windows[i].hwnd, direction));
            assert(transfers@ =~= seq![(windows@[i as int].hwnd, direction)]);
            return transfers;
        }
        assert(windows@.skip(i as int).drop_first() =~= windows@.skip(i + 1));
        assert(extents@.skip(i as int).drop_first() =~= extents@.skip(i + 1));
        i = i + 1;
    }
    transfers
}

/// The desktop that a transfer by `delta` from desktop `current` (taken
/// as an `i32`, truncated) aims at, never below the first one. It may lie
/// past the last desktop; moving a window there takes it off every desktop.
pub fn edge_target_desktop(current: usize, delta: i32) -> (r: usize)
    requires
        i32::MIN <= (current as i32) + delta <= i32::MAX,
    ensures
        r == (if (current as i32) + delta < 0 {
            0
        } else {
            (current as i32) + delta
        }),
{
    let sum = (current as i32) + delta;
    if sum < 0 {
        0
    } else {
        sum as usize
    }
}

} // verus!
