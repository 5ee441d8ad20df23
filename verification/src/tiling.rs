//! Master-stack tiling of a desktop's windows, and the order that decides
//! which window is the master.
use vstd::prelude::*;

verus! {

/// Where one window goes on the screen.
pub struct WindowPlacement {
    pub hwnd: isize,
    pub x: i32,
    pub y: i32,
    pub width: i32,
    pub height: i32,
}

/// The screen size that tiling assumes.
pub open spec fn screen_size() -> (i32, i32) {
    (1920, 1080)
}

/// The width of the master column: 60% of the 1920-pixel screen.
pub open spec fn master_width() -> int {
    1920int * 3 / 5
}

/// Integer division rounding toward zero, as `i32` division does.
pub open spec fn trunc_div(a: int, b: int) -> int {
    if a >= 0 {
        a / b
    } else {
        -((-a) / b)
    }
}

/// The height of each stack row when `n` windows share a screen of height
/// `height`.
pub open spec fn stack_height(height: int, n: int) -> int {
    if n > 2 {
        trunc_div(height, n - 1)
    } else {
        height
    }
}

/// Where window `i` of `n` goes on a work area of height `height`: the
/// first window alone fills the screen, or takes the master column on the
/// left; the others are stacked in rows on the right, the last row taking
/// what is left, and no window is made lower than 100 pixels.
pub open spec fn tile_geometry(i: int, n: int, height: int) -> (int, int, int, int) {
    if n == 1 {
        (0, 0, 1920, height)
    } else if i == 0 {
        (0, 0, master_width(), height)
    } else {
        let sh = stack_height(height, n);
        let y = (i - 1) * sh;
        let h = if i >= n - 1 {
            height - y
        } else {
            sh
        };
        (master_width(), y, 1920 - master_width(), if h < 100 {
            100
        } else {
            h
        })
    }
}

/// The position of the first `h` in `s`, or `s.len()` when there is none.
pub open spec fn first_position(s: Seq<isize>, h: isize) -> int
    decreases s.len(),
{
    if s.len() == 0 {
        0
    } else if s[0] == h {
        0
    } else {
        1 + first_position(s.drop_first(), h)
    }
}

/// `s` with its first `h` moved to the front; `s` itself when `h` is not in
/// it or already first.
pub open spec fn promoted(s: Seq<isize>, h: isize) -> Seq<isize> {
    let p = first_position(s, h);
    if 0 < p < s.len() {
        seq![h] + s.remove(p)
    } else {
        s
    }
}

proof fn lemma_first_position(s: Seq<isize>, h: isize, i: int)
    requires
        0 <= i <= s.len(),
        forall|q: int| 0 <= q < i ==> s[q] != h,
        i < s.len() ==> s[i] == h,
    ensures
        first_position(s, h) == i,
    decreases i,
{
    if i > 0 {
        assert forall|q: int| 0 <= q < i - 1 implies s.drop_first()[q] != h by {
            assert(s.drop_first()[q] == s[q + 1]);
        }
        lemma_first_position(s.drop_first(), h, i - 1);
    }
}

/// The screen size: 1920 by 1080 pixels.
pub fn get_screen_size() -> (r: (i32, i32))
    ensures
        r == screen_size(),
{
    (1920, 1080)
}

/// The part of the screen above a taskbar of height `taskbar_height`, as
/// `(x, y, width, height)`.
pub fn get_screen_work_area(taskbar_height: i32) -> (r: (i32, i32, i32, i32))
    requires
        1080 - taskbar_height <= i32::MAX,
    ensures
        r == (0i32, 0i32, 1920i32, (1080 - taskbar_height) as i32),
{
    let (sw, sh) = get_screen_size();
    (0, 0, sw, sh - taskbar_height)
}

proof fn lemma_stack_rows(height: int, d: int, row: int)
    requires
        d >= 1,
        0 <= row <= d - 1,
    ensures
        height >= 0 ==> 0 <= row * trunc_div(height, d) <= height,
        height < 0 ==> height <= row * trunc_div(height, d) <= 0,
{
    if height >= 0 {
        let q = height / d;
        assert(q * d <= height && q >= 0) by (nonlinear_arith)
            requires
                d >= 1,
                height >= 0,
                q == height / d,
        ;
        assert(0 <= row * q <= height) by (nonlinear_arith)
            requires
                q * d <= height,
                q >= 0,
                0 <= row <= d - 1,
        ;
    } else {
        let q = (-height) / d;
        assert(q * d <= -height && q >= 0) by (nonlinear_arith)
            requires
                d >= 1,
                -height > 0,
                q == (-height) / d,
        ;
        assert(0 <= row * q <= -height) by (nonlinear_arith)
            requires
                q * d <= -height,
                q >= 0,
                0 <= row <= d - 1,
        ;
        assert(row * (-q) == -(row * q)) by (nonlinear_arith);
    }
}

/// Master-stack tiling of `hwnds` above a taskbar of height
/// `taskbar_height`: the first window is the master. Returns where each
/// window goes, in the order of `hwnds`.
pub fn tile_desktop_windows(hwnds: &[isize], taskbar_height: i32) -> (r: Vec<WindowPlacement>)
    requires
        hwnds@.len() > 0 ==> 1080 - taskbar_height <= i32::MAX,
        hwnds@.len() - 1 <= i32::MAX,
    ensures
        r@.len() == hwnds@.len(),
        forall|i: int|
            0 <= i < hwnds@.len() ==> (#[trigger] r@[i]).hwnd == hwnds@[i] && (
                r@[i].x as int,
                r@[i].y as int,
                r@[i].width as int,
                r@[i].height as int,
            ) == tile_geometry(i, hwnds@.len() as int, 1080 - taskbar_height),
{
    let mut r: Vec<WindowPlacement> = Vec::new();
    if hwnds.len() == 0 {
        return r;
    }
    let screen = get_screen_work_area(taskbar_height);
    let n = hwnds.len();
    let height = screen.3;
    if n == 1 {
        r.push(WindowPlacement { hwnd: hwnds[0], x: screen.0, y: screen.1, width: screen.2, height });
        return r;
    }
    let master_w = screen.2 * 3 / 5;
    let stack_w = screen.2 - master_w;
    let stack_h: i32 = if n > 2 {
        let d = (n - 1) as i32;
        match height.checked_div(d) {
            Some(q) => q,
            None => height,
        }
    } else {
        height
    };
    assert(stack_h as int == stack_height(height as int, n as int));
    r.push(WindowPlacement { hwnd: hwnds[0], x: screen.0, y: screen.1, width: master_w, height });
    let mut i: usize = 1;
    while i < n
        invariant
            1 <= i <= n,
            n == hwnds@.len(),
            n >= 2,
            n - 1 <= i32::MAX,
            height as int == 1080 - taskbar_height,
            master_w == 1152,
            stack_w == 768,
            stack_h as int == stack_height(height as int, n as int),
            r@.len() == i,
            forall|k: int|
                0 <= k < i ==> (#[trigger] r@[k]).hwnd == hwnds@[k] && (
                    r@[k].x as int,
                    r@[k].y as int,
                    r@[k].width as int,
                    r@[k].height as int,
                ) == tile_geometry(k, n as int, height as int),
        decreases n - i,
    {
        let row = (i - 1) as i32;
        assert(row as int == i - 1);
        proof {
            if n > 2 {
                lemma_stack_rows(height as int, n - 1, row as int);
                assert(stack_h as int == trunc_div(height as int, n - 1));
                assert(height >= 0 ==> 0 <= (row as int) * (stack_h as int) <= height);
                assert(height < 0 ==> height <= (row as int) * (stack_h as int) <= 0);
            } else {
                assert(row == 0);
                assert((row as int) * (stack_h as int) == 0) by (nonlinear_arith)
                    requires
                        row == 0,
                ;
            }
        }
        let y = row * stack_h;
        let h = if i >= n - 1 {
            height - y
        } else {
            stack_h
        };
        let h = if h < 100 {
            100
        } else {
            h
        };
        r.push(WindowPlacement { hwnd: hwnds[i], x: master_w, y, width: stack_w, height: h });
        i = i + 1;
    }
    r
}

/// Moves window `hwnd` to the front of `desktop_list`, making it the master;
/// nothing happens when it is not in the list or already first.
pub fn promote_to_master(desktop_list: &mut Vec<isize>, hwnd: isize)
    ensures
        final(desktop_list)@ == promoted(old(desktop_list)@, hwnd),
{
    let mut i: usize = 0;
    while i < desktop_list.len()
        invariant
            i <= desktop_list@.len(),
            desktop_list@ == old(desktop_list)@,
            forall|q: int| 0 <= q < i ==> desktop_list@[q] != hwnd,
        decreases desktop_list@.len() - i,
    {
        if desktop_list[i] == hwnd {
            proof {
                lemma_first_position(desktop_list@, hwnd, i as int);
            }
            if i > 0 {
                let ghost before = desktop_list@;
                desktop_list.remove(i);
                desktop_list.insert(0, hwnd);
                assert(desktop_list@ =~= seq![hwnd] + before.remove(i as int));
            }
            return;
        }
        i = i + 1;
    }
    proof {
        lemma_first_position(desktop_list@, hwnd, i as int);
    }
}


/// `first_position` finds the first occurrence, or runs off the end when
/// there is none.
pub proof fn lemma_first_position_props(s: Seq<isize>, h: isize)
    ensures
        0 <= first_position(s, h) <= s.len(),
        first_position(s, h) < s.len() ==> s[first_position(s, h)] == h,
        first_position(s, h) == s.len() ==> !s.contains(h),
    decreases s.len(),
{
    if s.len() > 0 && s[0] != h {
        lemma_first_position_props(s.drop_first(), h);
        if first_position(s, h) == s.len() && s.contains(h) {
            let k = choose|k: int| 0 <= k < s.len() && s[k] == h;
            assert(s.drop_first()[k - 1] == h);
        }
    }
}

/// Promoting a window only reorders the list.
pub proof fn law_promote_is_permutation(s: Seq<isize>, h: isize)
    ensures
        promoted(s, h).to_multiset() == s.to_multiset(),
{
    broadcast use vstd::seq_lib::group_to_multiset_ensures;

    lemma_first_position_props(s, h);
    let p = first_position(s, h);
    if 0 < p < s.len() {
        let rest = s.remove(p);
        assert(rest.to_multiset() == s.to_multiset().remove(s[p]));
        vstd::seq_lib::lemma_multiset_commutative(seq![h], rest);
        assert(seq![h].to_multiset() =~= vstd::multiset::Multiset::singleton(h)) by {
            assert(seq![h] =~= Seq::<isize>::empty().push(h));
        }
        assert(s.to_multiset().contains(h));
        assert(promoted(s, h).to_multiset() =~= s.to_multiset());
    }
}

/// A promoted window that is in the list ends up first.
pub proof fn law_promoted_window_is_master(s: Seq<isize>, h: isize)
    requires
        s.contains(h),
    ensures
        promoted(s, h)[0] == h,
{
    lemma_first_position_props(s, h);
}

/// Promoting the same window twice does what promoting it once does.
pub proof fn law_promote_idempotent(s: Seq<isize>, h: isize)
    ensures
        promoted(promoted(s, h), h) == promoted(s, h),
{
    lemma_first_position_props(s, h);
    let t = promoted(s, h);
    let p = first_position(s, h);
    if 0 < p < s.len() {
        assert(t[0] == h);
        assert(first_position(t, h) == 0);
    }
}

/// With two or more windows the master takes 60% of the screen width on the
/// left and the stack the other 40% on the right.
pub proof fn law_master_stack_split(n: int, height: int)
    requires
        n >= 2,
    ensures
        tile_geometry(0, n, height).0 == 0,
        tile_geometry(0, n, height).2 * 5 == 1920 * 3,
        tile_geometry(1, n, height).0 == tile_geometry(0, n, height).2,
        tile_geometry(1, n, height).2 * 5 == 1920 * 2,
        tile_geometry(1, n, height).0 + tile_geometry(1, n, height).2 == 1920,
{
}

/// Each stack row starts where the one above it ends, unless rows are
/// stretched to the 100-pixel minimum.
pub proof fn law_stack_rows_are_contiguous(i: int, n: int, height: int)
    requires
        1 <= i < n - 1,
        stack_height(height, n) >= 100,
    ensures
        tile_geometry(i + 1, n, height).1 == tile_geometry(i, n, height).1 + tile_geometry(
            i,
            n,
            height,
        ).3,
{
    let sh = stack_height(height, n);
    assert(i * sh == (i - 1) * sh + sh) by (nonlinear_arith);
}

/// The last stack row reaches the bottom of the work area, unless it is
/// stretched to the 100-pixel minimum.
pub proof fn law_last_row_reaches_bottom(n: int, height: int)
    requires
        n >= 2,
        height - (n - 2) * stack_height(height, n) >= 100,
    ensures
        tile_geometry(n - 1, n, height).1 + tile_geometry(n - 1, n, height).3 == height,
{
}

/// With more than two windows the stack windows share the work area
/// equally: every stack row but the last is the work-area height divided
/// by the number of stack windows, rounded toward zero, and starts that many
/// rows down (as long as that height is not raised to the 100-pixel
/// minimum). For a work area of non-negative height this means `n - 1` rows
/// fit in it and `n - 1` rows one pixel taller do not.
pub proof fn law_stack_rows_share_the_height(i: int, n: int, height: int)
    requires
        n > 2,
        1 <= i < n - 1,
        trunc_div(height, n - 1) >= 100,
    ensures
        tile_geometry(i, n, height).3 == trunc_div(height, n - 1),
        tile_geometry(i, n, height).1 == (i - 1) * trunc_div(height, n - 1),
        tile_geometry(i, n, height).0 == master_width(),
        height >= 0 ==> (n - 1) * tile_geometry(i, n, height).3 <= height < (n - 1) * (
        tile_geometry(i, n, height).3 + 1),
{
    if height >= 0 {
        let h = tile_geometry(i, n, height).3;
        let d = n - 1;
        assert(h == height / d);
        vstd::arithmetic::div_mod::lemma_fundamental_div_mod(height, d);
        assert(0 <= height % d < d);
        assert(d * h <= height < d * (h + 1)) by (nonlinear_arith)
            requires
                height == d * (height / d) + height % d,
                0 <= height % d < d,
                h == height / d,
        ;
    }
}

} // verus!
