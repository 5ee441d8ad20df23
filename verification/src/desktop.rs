//! Virtual desktops: which windows, shortcuts and widgets belong to which
//! desktop, and what switching between them does.
//!
//! Showing, hiding and moving real windows is the caller's work: the
//! operations here change the model and say which windows to act on.
use vstd::prelude::*;
use crate::tiling::{promote_to_master, promoted};

verus! {

/// Where a desktop shortcut sits.
pub enum ShortcutPosition {
    /// A cell of the six-column grid that new shortcuts are placed on; its
    /// pixel position is `(40 + 90 * column, 40 + 100 * row)`.
    Grid { column: usize, row: usize },
    /// A position chosen by the user, as the bit patterns of its two `f64`
    /// coordinates.
    Free { x_bits: u64, y_bits: u64 },
}

pub struct Shortcut {
    pub name: String,
    pub path: String,
    pub icon: String,
    pub position: ShortcutPosition,
}

pub struct Desktop {
    pub id: usize,
    pub name: String,
    pub shortcuts: Vec<Shortcut>,
    pub widget_ids: Vec<String>,
    pub window_hwnds: Vec<isize>,
}

pub struct DesktopManager {
    pub desktops: Vec<Desktop>,
    pub current: usize,
}

/// The windows to act on when switching desktops.
pub struct SwitchPlan {
    /// Windows of the desktop that is left, to be minimised.
    pub minimize: Vec<isize>,
    /// Windows of the desktop that is entered, to be restored and shown.
    pub restore: Vec<isize>,
}

/// `s` without the entries equal to `h`, in order.
pub open spec fn without(s: Seq<isize>, h: isize) -> Seq<isize>
    decreases s.len(),
{
    if s.len() == 0 {
        s
    } else if s.last() == h {
        without(s.drop_last(), h)
    } else {
        without(s.drop_last(), h).push(s.last())
    }
}

/// The entries of `s` that occur in `live`, in order.
pub open spec fn keep_live(s: Seq<isize>, live: Seq<isize>) -> Seq<isize>
    decreases s.len(),
{
    if s.len() == 0 {
        s
    } else if live.contains(s.last()) {
        keep_live(s.drop_last(), live).push(s.last())
    } else {
        keep_live(s.drop_last(), live)
    }
}

/// The window lists of all desktops, one after the other.
pub open spec fn all_windows(lists: Seq<Seq<isize>>) -> Seq<isize>
    decreases lists.len(),
{
    if lists.len() == 0 {
        Seq::empty()
    } else {
        all_windows(lists.drop_last()) + lists.last()
    }
}

/// Where a newly opened window goes: to the desktop remembered for its
/// application when that names one, else to the current desktop when
/// automatic placement is on, else nowhere.
pub open spec fn launch_destination(target: Option<i64>, count: nat, auto_assign: bool, current: int) -> Option<int> {
    if target is Some && ((target->0 as usize) as int) < count {
        Some((target->0 as usize) as int)
    } else if auto_assign {
        Some(current)
    } else {
        None
    }
}

/// The window lists after placing the new windows `hwnds` one by one; a
/// window that some desktop held before is left alone.
pub open spec fn place_all(
    lists: Seq<Seq<isize>>,
    existing: Seq<isize>,
    hwnds: Seq<isize>,
    targets: Seq<Option<i64>>,
    auto_assign: bool,
    current: int,
) -> Seq<Seq<isize>>
    decreases hwnds.len(),
{
    if hwnds.len() == 0 {
        lists
    } else {
        let prev = place_all(
            lists,
            existing,
            hwnds.drop_last(),
            targets.drop_last(),
            auto_assign,
            current,
        );
        if existing.contains(hwnds.last()) {
            prev
        } else {
            match launch_destination(targets.last(), lists.len(), auto_assign, current) {
                Some(d) => prev.update(d, prev[d].push(hwnds.last())),
                None => prev,
            }
        }
    }
}

/// Two desktops that differ at most in their windows.
pub open spec fn same_but_windows(a: Desktop, b: Desktop) -> bool {
    &&& a.id == b.id
    &&& a.name == b.name
    &&& a.shortcuts == b.shortcuts
    &&& a.widget_ids == b.widget_ids
}

/// Two desktops that differ at most in their id.
pub open spec fn same_but_id(a: Desktop, b: Desktop) -> bool {
    &&& a.name == b.name
    &&& a.shortcuts == b.shortcuts
    &&& a.widget_ids == b.widget_ids
    &&& a.window_hwnds == b.window_hwnds
}

/// Two desktops that differ at most in their shortcuts.
pub open spec fn same_but_shortcuts(a: Desktop, b: Desktop) -> bool {
    &&& a.id == b.id
    &&& a.name == b.name
    &&& a.widget_ids == b.widget_ids
    &&& a.window_hwnds == b.window_hwnds
}

/// The grid cell of the shortcut that is placed after `count` others.
pub open spec fn grid_cell(count: nat) -> ShortcutPosition {
    ShortcutPosition::Grid { column: (count % 6) as usize, row: (count / 6) as usize }
}

/// `after` is `before` with window `hwnd` taken off every desktop; the
/// other windows keep their order.
pub open spec fn window_removed(before: DesktopManager, after: DesktopManager, hwnd: isize) -> bool {
    &&& after.current == before.current
    &&& after.desktops@.len() == before.desktops@.len()
    &&& forall|j: int|
        0 <= j < before.desktops@.len() ==> same_but_windows(
            #[trigger] after.desktops@[j],
            before.desktops@[j],
        ) && after.windows(j) == without(before.windows(j), hwnd)
}

/// `after` is `before` with window `hwnd` moved to the end of desktop
/// `to_id`'s windows, and off every other desktop.
pub open spec fn window_moved(
    before: DesktopManager,
    after: DesktopManager,
    hwnd: isize,
    to_id: usize,
) -> bool {
    &&& after.current == before.current
    &&& after.desktops@.len() == before.desktops@.len()
    &&& forall|j: int|
        0 <= j < before.desktops@.len() ==> same_but_windows(
            #[trigger] after.desktops@[j],
            before.desktops@[j],
        ) && after.windows(j) == (if j == to_id {
            without(before.windows(j), hwnd).push(hwnd)
        } else {
            without(before.windows(j), hwnd)
        })
}

/// `after` is `before` with window `hwnd` added at the end of the current
/// desktop's windows, unless it was there already.
pub open spec fn window_assigned(before: DesktopManager, after: DesktopManager, hwnd: isize) -> bool {
    let cur = before.current as int;
    &&& after.current == before.current
    &&& before.windows(cur).contains(hwnd) ==> after == before
    &&& !before.windows(cur).contains(hwnd) ==> {
        &&& after.desktops@ == before.desktops@.update(
            cur,
            Desktop { window_hwnds: after.desktops@[cur].window_hwnds, ..before.desktops@[cur] },
        )
        &&& after.windows(cur) == before.windows(cur).push(hwnd)
    }
}

/// `after` is `before` with an empty desktop named `name` added at the end.
pub open spec fn desktop_created(before: DesktopManager, after: DesktopManager, name: String) -> bool {
    &&& after.current == before.current
    &&& after.desktops@.len() == before.desktops@.len() + 1
    &&& forall|j: int|
        0 <= j < before.desktops@.len() ==> #[trigger] after.desktops@[j] == before.desktops@[j]
    &&& after.desktops@.last().id == before.desktops@.len()
    &&& after.desktops@.last().name == name
    &&& after.desktops@.last().shortcuts@.len() == 0
    &&& after.desktops@.last().widget_ids@.len() == 0
    &&& after.desktops@.last().window_hwnds@.len() == 0
}

/// `after` is `before` without desktop `id`: the later desktops move down
/// one place and are renumbered, and the current index follows.
pub open spec fn desktop_deleted(before: DesktopManager, after: DesktopManager, id: usize) -> bool {
    let n = (before.desktops@.len() - 1) as int;
    &&& after.desktops@.len() == n
    &&& forall|i: int|
        0 <= i < n ==> (#[trigger] after.desktops@[i]).id == i && same_but_id(
            after.desktops@[i],
            before.desktops@[if i < id {
                i
            } else {
                i + 1
            }],
        )
    &&& after.current == (if before.current >= n {
        n - 1
    } else if before.current > id {
        before.current - 1
    } else {
        before.current as int
    })
}

/// `after` is `before` switched to desktop `id`, each desktop keeping only
/// the windows in `live`.
pub open spec fn desktops_switched(
    before: DesktopManager,
    after: DesktopManager,
    id: usize,
    live: Seq<isize>,
) -> bool {
    &&& after.current == id
    &&& after.desktops@.len() == before.desktops@.len()
    &&& forall|j: int|
        0 <= j < before.desktops@.len() ==> same_but_windows(
            #[trigger] after.desktops@[j],
            before.desktops@[j],
        ) && after.windows(j) == keep_live(before.windows(j), live)
}

/// Whether `h` occurs in `s`.
pub fn contains_hwnd(s: &[isize], h: isize) -> (r: bool)
    ensures
        r == s@.contains(h),
{
    let mut i: usize = 0;
    while i < s.len()
        invariant
            i <= s@.len(),
            forall|k: int| 0 <= k < i ==> s@[k] != h,
        decreases s@.len() - i,
    {
        if s[i] == h {
            assert(s@[i as int] == h);
            return true;
        }
        i = i + 1;
    }
    false
}

/// `s` without the entries equal to `h`.
pub fn without_hwnd(s: &Vec<isize>, h: isize) -> (r: Vec<isize>)
    ensures
        r@ == without(s@, h),
{
    let mut r: Vec<isize> = Vec::new();
    let mut i: usize = 0;
    while i < s.len()
        invariant
            i <= s@.len(),
            r@ == without(s@.take(i as int), h),
        decreases s@.len() - i,
    {
        assert(s@.take(i + 1).drop_last() =~= s@.take(i as int));
        if s[i] != h {
            r.push(s[i]);
        }
        i = i + 1;
    }
    assert(s@.take(i as int) =~= s@);
    r
}

/// The entries of `s` that occur in `live`.
pub fn only_live(s: &Vec<isize>, live: &[isize]) -> (r: Vec<isize>)
    ensures
        r@ == keep_live(s@, live@),
{
    let mut r: Vec<isize> = Vec::new();
    let mut i: usize = 0;
    while i < s.len()
        invariant
            i <= s@.len(),
            r@ == keep_live(s@.take(i as int), live@),
        decreases s@.len() - i,
    {
        assert(s@.take(i + 1).drop_last() =~= s@.take(i as int));
        if contains_hwnd(live, s[i]) {
            r.push(s[i]);
        }
        i = i + 1;
    }
    assert(s@.take(i as int) =~= s@);
    r
}

/// A copy of `s`.
pub fn copy_hwnds(s: &Vec<isize>) -> (r: Vec<isize>)
    ensures
        r@ == s@,
{
    let mut r: Vec<isize> = Vec::new();
    let mut i: usize = 0;
    while i < s.len()
        invariant
            i <= s@.len(),
            r@ == s@.take(i as int),
        decreases s@.len() - i,
    {
        r.push(s[i]);
        i = i + 1;
        assert(r@ =~= s@.take(i as int));
    }
    assert(s@.take(i as int) =~= s@);
    r
}

impl DesktopManager {
    /// The windows of desktop `i`.
    pub open spec fn windows(&self, i: int) -> Seq<isize> {
        self.desktops@[i].window_hwnds@
    }

    /// The window lists of all desktops.
    pub open spec fn window_lists(&self) -> Seq<Seq<isize>> {
        Seq::new(self.desktops@.len(), |i: int| self.desktops@[i].window_hwnds@)
    }

    /// The current desktop exists, and every desktop's id is its position.
    pub open spec fn wf(&self) -> bool {
        &&& self.current < self.desktops@.len()
        &&& forall|i: int| 0 <= i < self.desktops@.len() ==> #[trigger] self.desktops@[i].id == i
    }

    /// The three desktops the environment starts with: "Ana" with the clock
    /// and system monitor, "İş" with notes, "Eğlence" with the music player
    /// and weather; no windows or shortcuts; the first is current.
    pub fn new() -> (r: DesktopManager)
        ensures
            r.wf(),
            r.current == 0,
            r.desktops@.len() == 3,
            r.desktops@[0].name@ == "Ana"@,
            r.desktops@[1].name@ == "İş"@,
            r.desktops@[2].name@ == "Eğlence"@,
            r.desktops@[0].widget_ids@.map_values(|s: String| s@) == seq![
                "clock"@,
                "system-monitor"@,
            ],
            r.desktops@[1].widget_ids@.map_values(|s: String| s@) == seq!["notes"@],
            r.desktops@[2].widget_ids@.map_values(|s: String| s@) == seq![
                "music-player"@,
                "weather"@,
            ],
            forall|i: int|
                0 <= i < 3 ==> (#[trigger] r.desktops@[i]).window_hwnds@.len() == 0
                    && r.desktops@[i].shortcuts@.len() == 0,
    {
        let mut w0: Vec<String> = Vec::new();
        w0.push("clock".to_owned());
        w0.push("system-monitor".to_owned());
        let mut w1: Vec<String> = Vec::new();
        w1.push("notes".to_owned());
        let mut w2: Vec<String> = Vec::new();
        w2.push("music-player".to_owned());
        w2.push("weather".to_owned());
        let mut desktops: Vec<Desktop> = Vec::new();
        desktops.push(
            Desktop {
                id: 0,
                name: "Ana".to_owned(),
                shortcuts: Vec::new(),
                widget_ids: w0,
                window_hwnds: Vec::new(),
            },
        );
        desktops.push(
            Desktop {
                id: 1,
                name: "İş".to_owned(),
                shortcuts: Vec::new(),
                widget_ids: w1,
                window_hwnds: Vec::new(),
            },
        );
        desktops.push(
            Desktop {
                id: 2,
                name: "Eğlence".to_owned(),
                shortcuts: Vec::new(),
                widget_ids: w2,
                window_hwnds: Vec::new(),
            },
        );
        let r = DesktopManager { desktops, current: 0 };
        assert(r.desktops@[0].widget_ids@.map_values(|s: String| s@) =~= seq![
            "clock"@,
            "system-monitor"@,
        ]);
        assert(r.desktops@[1].widget_ids@.map_values(|s: String| s@) =~= seq!["notes"@]);
        assert(r.desktops@[2].widget_ids@.map_values(|s: String| s@) =~= seq![
            "music-player"@,
            "weather"@,
        ]);
        r
    }

    /// Makes desktop `id` current. Nothing happens when `id` is not a
    /// desktop or already current. Otherwise the windows of the desktop left
    /// behind are to be minimised and those of the new one restored, as far
    /// as they are still open (in `all_hwnds`), and every desktop forgets the
    /// windows that are no longer open.
    pub fn switch_to(&mut self, id: usize, all_hwnds: &[isize], taskbar_h: i32) -> (plan: SwitchPlan)
        requires
            id < old(self).desktops@.len() && id != old(self).current ==> old(self).current < old(self).desktops@.len(),
        ensures
            id >= old(self).desktops@.len() || id == old(self).current ==> {
                &&& *final(self) == *old(self)
                &&& plan.minimize@.len() == 0
                &&& plan.restore@.len() == 0
            },
            id < old(self).desktops@.len() && id != old(self).current ==> {
                &&& desktops_switched(*old(self), *final(self), id, all_hwnds@)
                &&& plan.minimize@ == keep_live(old(self).windows(old(self).current as int), all_hwnds@)
                &&& plan.restore@ == keep_live(old(self).windows(id as int), all_hwnds@)
            },
            old(self).wf() ==> final(self).wf(),
    {
        if id >= self.desktops.len() || id == self.current {
            return SwitchPlan { minimize: Vec::new(), restore: Vec::new() };
        }
        let previous = self.current;
        self.current = id;
        let minimize = only_live(&self.desktops[previous].window_hwnds, all_hwnds);
        let restore = only_live(&self.desktops[id].window_hwnds, all_hwnds);
        let ghost before = self.desktops@;
        let n = self.desktops.len();
        let mut j: usize = 0;
        while j < n
            invariant
                n == self.desktops@.len(),
                n == before.len(),
                j <= n,
                before == old(self).desktops@,
                self.current == id,
                forall|k: int|
                    0 <= k < n ==> same_but_windows(#[trigger] self.desktops@[k], before[k]),
                forall|k: int|
                    0 <= k < j ==> #[trigger] self.desktops@[k].window_hwnds@ == keep_live(
                        before[k].window_hwnds@,
                        all_hwnds@,
                    ),
                forall|k: int| j <= k < n ==> #[trigger] self.desktops@[k] == before[k],
            decreases n - j,
        {
            let live = only_live(&self.desktops[j].window_hwnds, all_hwnds);
            self.desktops[j].window_hwnds = live;
            j = j + 1;
        }
        SwitchPlan { minimize, restore }
    }

    /// Puts window `hwnd` on the current desktop unless it is there already.
    pub fn assign_window(&mut self, hwnd: isize, _title: &str)
        requires
            old(self).current < old(self).desktops@.len(),
        ensures
            window_assigned(*old(self), *final(self), hwnd),
            old(self).wf() ==> final(self).wf(),
    {
        let cur = self.current;
        if !contains_hwnd(self.desktops[cur].window_hwnds.as_slice(), hwnd) {
            self.desktops[cur].window_hwnds.push(hwnd);
        }
    }

    /// Takes window `hwnd` off every desktop.
    pub fn remove_window(&mut self, hwnd: isize)
        ensures
            window_removed(*old(self), *final(self), hwnd),
            old(self).wf() ==> final(self).wf(),
    {
        let ghost before = self.desktops@;
        let n = self.desktops.len();
        let mut j: usize = 0;
        while j < n
            invariant
                n == self.desktops@.len(),
                n == before.len(),
                j <= n,
                self.current == old(self).current,
                before == old(self).desktops@,
                forall|k: int|
                    0 <= k < n ==> same_but_windows(#[trigger] self.desktops@[k], before[k]),
                forall|k: int|
                    0 <= k < j ==> #[trigger] self.desktops@[k].window_hwnds@ == without(
                        before[k].window_hwnds@,
                        hwnd,
                    ),
                forall|k: int| j <= k < n ==> #[trigger] self.desktops@[k] == before[k],
            decreases n - j,
        {
            let rest = without_hwnd(&self.desktops[j].window_hwnds, hwnd);
            self.desktops[j].window_hwnds = rest;
            j = j + 1;
        }
    }

    /// Adds an empty desktop named `name` at the end.
    pub fn create_desktop(&mut self, name: String)
        ensures
            desktop_created(*old(self), *final(self), name),
            old(self).wf() ==> final(self).wf(),
    {
        let id = self.desktops.len();
        self.desktops.push(
            Desktop {
                id,
                name,
                shortcuts: Vec::new(),
                widget_ids: Vec::new(),
                window_hwnds: Vec::new(),
            },
        );
    }

    /// Deletes desktop `id`. The last desktop cannot be deleted, and `id` must
    /// name a desktop; otherwise nothing changes and the reason comes back.
    /// The desktops after `id` move down one place and take their new
    /// positions as ids; the current desktop stays the same one when it is
    /// not the deleted one.
    pub fn delete_desktop(&mut self, id: usize) -> (r: Result<(), String>)
        ensures
            old(self).desktops@.len() <= 1 ==> (r matches Err(e) && e@ == "Son masaüstü silinemez"@
                && *final(self) == *old(self)),
            old(self).desktops@.len() > 1 && id >= old(self).desktops@.len() ==> (r matches Err(e)
                && e@ == "Geçersiz masaüstü"@ && *final(self) == *old(self)),
            old(self).desktops@.len() > 1 && id < old(self).desktops@.len() ==> {
                &&& r is Ok
                &&& desktop_deleted(*old(self), *final(self), id)
                &&& final(self).wf()
            },
            old(self).wf() ==> final(self).wf(),
    {
        if self.desktops.len() <= 1 {
            return Err("Son masaüstü silinemez".to_owned());
        }
        if id >= self.desktops.len() {
            return Err("Geçersiz masaüstü".to_owned());
        }
        let ghost before = self.desktops@;
        let _removed = self.desktops.remove(id);
        let n = self.desktops.len();
        let mut i: usize = 0;
        while i < n
            invariant
                n == self.desktops@.len(),
                n == before.len() - 1,
                i <= n,
                id < before.len(),
                before == old(self).desktops@,
                self.current == old(self).current,
                forall|k: int|
                    0 <= k < n ==> same_but_id(
                        #[trigger] self.desktops@[k],
                        before[if k < id {
                            k
                        } else {
                            k + 1
                        }],
                    ),
                forall|k: int| 0 <= k < i ==> (#[trigger] self.desktops@[k]).id == k,
            decreases n - i,
        {
            self.desktops[i].id = i;
            i = i + 1;
        }
        if self.current >= n {
            self.current = n - 1;
        } else if self.current > id {
            self.current = self.current - 1;
        }
        Ok(())
    }

    /// Renames desktop `id`; nothing happens when there is no such desktop.
    pub fn rename_desktop(&mut self, id: usize, name: String)
        ensures
            final(self).current == old(self).current,
            id >= old(self).desktops@.len() ==> *final(self) == *old(self),
            id < old(self).desktops@.len() ==> final(self).desktops@ == old(self).desktops@.update(
                id as int,
                Desktop { name: name, ..old(self).desktops@[id as int] },
            ),
            old(self).wf() ==> final(self).wf(),
    {
        if id < self.desktops.len() {
            self.desktops[id].name = name;
        }
    }

    /// Adds a shortcut to desktop `desktop_id`, in the next free cell of the
    /// six-column grid; nothing happens when there is no such desktop.
    pub fn add_shortcut(&mut self, desktop_id: usize, name: String, path: String, icon: String)
        ensures
            final(self).current == old(self).current,
            desktop_id >= old(self).desktops@.len() ==> *final(self) == *old(self),
            desktop_id < old(self).desktops@.len() ==> {
                let d = old(self).desktops@[desktop_id as int];
                &&& final(self).desktops@.len() == old(self).desktops@.len()
                &&& forall|j: int|
                    0 <= j < old(self).desktops@.len() && j != desktop_id ==> #[trigger] final(self).desktops@[j] == old(self).desktops@[j]
                &&& same_but_shortcuts(final(self).desktops@[desktop_id as int], d)
                &&& final(self).desktops@[desktop_id as int].shortcuts@ == d.shortcuts@.push(
                    Shortcut {
                        name: name,
                        path: path,
                        icon: icon,
                        position: grid_cell(d.shortcuts@.len()),
                    },
                )
            },
            old(self).wf() ==> final(self).wf(),
    {
        if desktop_id < self.desktops.len() {
            let count = self.desktops[desktop_id].shortcuts.len();
            let position = ShortcutPosition::Grid { column: count % 6, row: count / 6 };
            self.desktops[desktop_id].shortcuts.push(Shortcut { name, path, icon, position });
        }
    }

    /// Moves shortcut `index` of desktop `desktop_id` to the position whose
    /// `f64` coordinates have the bit patterns `x_bits` and `y_bits`; nothing
    /// happens when there is no such shortcut.
    pub fn update_shortcut_position(
        &mut self,
        desktop_id: usize,
        index: usize,
        x_bits: u64,
        y_bits: u64,
    )
        ensures
            final(self).current == old(self).current,
            !(desktop_id < old(self).desktops@.len() && index < old(self).desktops@[
                desktop_id as int
            ].shortcuts@.len()) ==> *final(self) == *old(self),
            desktop_id < old(self).desktops@.len() && index < old(self).desktops@[
                desktop_id as int
            ].shortcuts@.len() ==> {
                let d = old(self).desktops@[desktop_id as int];
                &&& final(self).desktops@.len() == old(self).desktops@.len()
                &&& forall|j: int|
                    0 <= j < old(self).desktops@.len() && j != desktop_id ==> #[trigger] final(self).desktops@[j] == old(self).desktops@[j]
                &&& same_but_shortcuts(final(self).desktops@[desktop_id as int], d)
                &&& final(self).desktops@[desktop_id as int].shortcuts@ == d.shortcuts@.update(
                    index as int,
                    Shortcut {
                        position: ShortcutPosition::Free { x_bits, y_bits },
                        ..d.shortcuts@[index as int]
                    },
                )
            },
            old(self).wf() ==> final(self).wf(),
    {
        if desktop_id < self.desktops.len() && index < self.desktops[desktop_id].shortcuts.len() {
            self.desktops[desktop_id].shortcuts[index].position = ShortcutPosition::Free {
                x_bits,
                y_bits,
            };
        }
    }

    /// Deletes shortcut `index` of desktop `desktop_id`; nothing happens when
    /// there is no such shortcut.
    pub fn delete_shortcut(&mut self, desktop_id: usize, index: usize)
        ensures
            final(self).current == old(self).current,
            !(desktop_id < old(self).desktops@.len() && index < old(self).desktops@[
                desktop_id as int
            ].shortcuts@.len()) ==> *final(self) == *old(self),
            desktop_id < old(self).desktops@.len() && index < old(self).desktops@[
                desktop_id as int
            ].shortcuts@.len() ==> {
                let d = old(self).desktops@[desktop_id as int];
                &&& final(self).desktops@.len() == old(self).desktops@.len()
                &&& forall|j: int|
                    0 <= j < old(self).desktops@.len() && j != desktop_id ==> #[trigger] final(self).desktops@[j] == old(self).desktops@[j]
                &&& same_but_shortcuts(final(self).desktops@[desktop_id as int], d)
                &&& final(self).desktops@[desktop_id as int].shortcuts@ == d.shortcuts@.remove(
                    index as int,
                )
            },
            old(self).wf() ==> final(self).wf(),
    {
        if desktop_id < self.desktops.len() && index < self.desktops[desktop_id].shortcuts.len() {
            let _removed = self.desktops[desktop_id].shortcuts.remove(index);
        }
    }

    /// Moves window `hwnd` to desktop `to_id`: it leaves every desktop, then
    /// joins the end of `to_id`'s windows when that desktop exists.
    pub fn move_window_to_desktop(&mut self, hwnd: isize, to_id: usize)
        ensures
            window_moved(*old(self), *final(self), hwnd, to_id),
            old(self).wf() ==> final(self).wf(),
    {
        self.remove_window(hwnd);
        if to_id < self.desktops.len() {
            self.desktops[to_id].window_hwnds.push(hwnd);
        }
    }

    /// Makes window `hwnd` the master of the current desktop's tiling.
    pub fn promote_master(&mut self, hwnd: isize)
        requires
            old(self).current < old(self).desktops@.len(),
        ensures
            final(self).current == old(self).current,
            final(self).desktops@.len() == old(self).desktops@.len(),
            forall|j: int|
                0 <= j < old(self).desktops@.len() && j != old(self).current ==> #[trigger] final(self).desktops@[j] == old(self).desktops@[j],
            same_but_windows(
                final(self).desktops@[old(self).current as int],
                old(self).desktops@[old(self).current as int],
            ),
            final(self).windows(old(self).current as int) == promoted(
                old(self).windows(old(self).current as int),
                hwnd,
            ),
            old(self).wf() ==> final(self).wf(),
    {
        let cur = self.current;
        promote_to_master(&mut self.desktops[cur].window_hwnds, hwnd);
    }

    /// The current desktop's windows that are still open, in order.
    pub fn windows_to_tile(&self, open: &[isize]) -> (r: Vec<isize>)
        requires
            self.current < self.desktops@.len(),
        ensures
            r@ == keep_live(self.windows(self.current as int), open@),
    {
        only_live(&self.desktops[self.current].window_hwnds, open)
    }

    /// The windows of all desktops, one desktop after the other.
    fn collect_windows(&self) -> (r: Vec<isize>)
        ensures
            r@ == all_windows(self.window_lists()),
    {
        let mut r: Vec<isize> = Vec::new();
        let mut i: usize = 0;
        while i < self.desktops.len()
            invariant
                i <= self.desktops@.len(),
                r@ == all_windows(self.window_lists().take(i as int)),
            decreases self.desktops@.len() - i,
        {
            assert(self.window_lists().take(i + 1).drop_last() =~= self.window_lists().take(
                i as int,
            ));
            let mut k: usize = 0;
            let ghost start = r@;
            while k < self.desktops[i].window_hwnds.len()
                invariant
                    i < self.desktops@.len(),
                    k <= self.desktops@[i as int].window_hwnds@.len(),
                    r@ == start + self.desktops@[i as int].window_hwnds@.take(k as int),
                decreases self.desktops@[i as int].window_hwnds@.len() - k,
            {
                r.push(self.desktops[i].window_hwnds[k]);
                k = k + 1;
                assert(r@ =~= start + self.desktops@[i as int].window_hwnds@.take(k as int));
            }
            assert(self.desktops@[i as int].window_hwnds@.take(k as int)
                =~= self.desktops@[i as int].window_hwnds@);
            i = i + 1;
        }
        assert(self.window_lists().take(i as int) =~= self.window_lists());
        r
    }

    /// Places the windows that an application just opened. A window that
    /// some desktop already holds is left alone. Otherwise `targets` gives,
    /// for each window, the desktop remembered for its application; the
    /// window goes there when that is a desktop, else to the current desktop
    /// when `auto_assign` is on. Returns the current desktop's windows
    /// afterwards, for tiling.
    pub fn place_new_windows(
        &mut self,
        new_hwnds: &[isize],
        targets: &[Option<i64>],
        auto_assign: bool,
    ) -> (r: Vec<isize>)
        requires
            old(self).current < old(self).desktops@.len(),
            targets@.len() == new_hwnds@.len(),
        ensures
            final(self).current == old(self).current,
            final(self).desktops@.len() == old(self).desktops@.len(),
            forall|j: int|
                0 <= j < old(self).desktops@.len() ==> same_but_windows(
                    #[trigger] final(self).desktops@[j],
                    old(self).desktops@[j],
                ),
            final(self).window_lists() == place_all(
                old(self).window_lists(),
                all_windows(old(self).window_lists()),
                new_hwnds@,
                targets@,
                auto_assign,
                old(self).current as int,
            ),
            r@ == final(self).windows(old(self).current as int),
            old(self).wf() ==> final(self).wf(),
    {
        let existing = self.collect_windows();
        let ghost lists0 = self.window_lists();
        let ghost before = self.desktops@;
        let cur = self.current;
        let n = self.desktops.len();
        let mut i: usize = 0;
        while i < new_hwnds.len()
            invariant
                i <= new_hwnds@.len(),
                targets@.len() == new_hwnds@.len(),
                n == self.desktops@.len(),
                n == before.len(),
                cur == self.current,
                cur < n,
                existing@ == all_windows(lists0),
                lists0.len() == n,
                forall|j: int|
                    0 <= j < n ==> same_but_windows(#[trigger] self.desktops@[j], before[j]),
                self.window_lists() == place_all(
                    lists0,
                    existing@,
                    new_hwnds@.take(i as int),
                    targets@.take(i as int),
                    auto_assign,
                    cur as int,
                ),
            decreases new_hwnds@.len() - i,
        {
            let h = new_hwnds[i];
            let ghost prev = self.window_lists();
            assert(new_hwnds@.take(i + 1).drop_last() =~= new_hwnds@.take(i as int));
            assert(targets@.take(i + 1).drop_last() =~= targets@.take(i as int));
            if !contains_hwnd(existing.as_slice(), h) {
                let mut dest: Option<usize> = if auto_assign {
                    Some(cur)
                } else {
                    None
                };
                if let Some(t) = targets[i] {
                    if (t as usize) < n {
                        dest = Some(t as usize);
                    }
                }
                match dest {
                    Some(d) => {
                        self.desktops[d].window_hwnds.push(h);
                        assert(self.window_lists() =~= prev.update(
                            d as int,
                            prev[d as int].push(h),
                        ));
                    },
                    None => {},
                }
            }
            i = i + 1;
        }
        assert(new_hwnds@.take(i as int) =~= new_hwnds@);
        assert(targets@.take(i as int) =~= targets@);
        copy_hwnds(&self.desktops[cur].window_hwnds)
    }
}


/// Removing `h` leaves no `h` behind, keeps every other entry, and changes
/// nothing when `h` was not there.
pub proof fn lemma_without(s: Seq<isize>, h: isize)
    ensures
        !without(s, h).contains(h),
        forall|x: isize| x != h ==> (s.contains(x) <==> #[trigger] without(s, h).contains(x)),
        !s.contains(h) ==> without(s, h) == s,
    decreases s.len(),
{
    if s.len() > 0 {
        lemma_without(s.drop_last(), h);
        assert(s =~= s.drop_last().push(s.last()));
        let w = without(s.drop_last(), h);
        assert forall|x: isize| x != h implies (s.contains(x) <==> #[trigger] without(
            s,
            h,
        ).contains(x)) by {
            assert(s.drop_last().contains(x) <==> w.contains(x));
            if s.last() == h {
                assert(without(s, h) == w);
                if s.contains(x) {
                    let k = choose|k: int| 0 <= k < s.len() && s[k] == x;
                    assert(s.drop_last()[k] == x);
                }
                if w.contains(x) {
                    let k = choose|k: int| 0 <= k < s.drop_last().len() && s.drop_last()[k] == x;
                    assert(s[k] == x);
                }
            } else {
                assert(without(s, h) == w.push(s.last()));
                if s.contains(x) {
                    let k = choose|k: int| 0 <= k < s.len() && s[k] == x;
                    if k < s.len() - 1 {
                        assert(s.drop_last()[k] == x);
                        let m = choose|m: int| 0 <= m < w.len() && w[m] == x;
                        assert(w.push(s.last())[m] == x);
                    } else {
                        assert(w.push(s.last())[w.len() as int] == x);
                    }
                }
                if w.push(s.last()).contains(x) {
                    let m = choose|m: int| 0 <= m < w.len() + 1 && w.push(s.last())[m] == x;
                    if m == w.len() {
                        assert(s[s.len() - 1] == x);
                    } else {
                        assert(w[m] == x);
                        let k = choose|k: int| 0 <= k < s.drop_last().len() && s.drop_last()[k] == x;
                        assert(s[k] == x);
                    }
                }
            }
        }
        if !s.contains(h) {
            assert(!s.drop_last().contains(h)) by {
                if s.drop_last().contains(h) {
                    let k = choose|k: int| 0 <= k < s.drop_last().len() && s.drop_last()[k] == h;
                    assert(s[k] == h);
                }
            }
            assert(s.last() != h);
        }
    }
}

/// What `keep_live` keeps is open and was there before.
pub proof fn lemma_keep_live(s: Seq<isize>, live: Seq<isize>)
    ensures
        forall|x: isize| #[trigger] keep_live(s, live).contains(x) ==> live.contains(x) && s.contains(x),
    decreases s.len(),
{
    if s.len() > 0 {
        lemma_keep_live(s.drop_last(), live);
        assert forall|x: isize| #[trigger] keep_live(s, live).contains(x) implies live.contains(x)
            && s.contains(x) by {
            if keep_live(s.drop_last(), live).contains(x) {
                let k = choose|k: int| 0 <= k < s.drop_last().len() && s.drop_last()[k] == x;
                assert(s[k] == x);
            } else {
                assert(x == s.last());
                assert(s[s.len() - 1] == x);
            }
        }
    }
}

/// A window that has been removed is on no desktop.
pub proof fn law_removed_window_is_gone(before: DesktopManager, after: DesktopManager, hwnd: isize)
    requires
        window_removed(before, after, hwnd),
    ensures
        forall|j: int| 0 <= j < after.desktops@.len() ==> !(#[trigger] after.windows(j)).contains(hwnd),
{
    assert forall|j: int| 0 <= j < after.desktops@.len() implies !(#[trigger] after.windows(
        j,
    )).contains(hwnd) by {
        lemma_without(before.windows(j), hwnd);
    }
}

/// A window that has been moved to a desktop is on that desktop once, as
/// its last window, and on no other desktop.
pub proof fn law_moved_window_is_on_one_desktop(
    before: DesktopManager,
    after: DesktopManager,
    hwnd: isize,
    to_id: usize,
)
    requires
        window_moved(before, after, hwnd, to_id),
    ensures
        forall|j: int|
            0 <= j < after.desktops@.len() && j != to_id ==> !(#[trigger] after.windows(
                j,
            )).contains(hwnd),
        to_id < after.desktops@.len() ==> after.windows(to_id as int).last() == hwnd
            && !after.windows(to_id as int).drop_last().contains(hwnd),
{
    assert forall|j: int| 0 <= j < after.desktops@.len() && j != to_id implies !(
    #[trigger] after.windows(j)).contains(hwnd) by {
        lemma_without(before.windows(j), hwnd);
    }
    if to_id < after.desktops@.len() {
        lemma_without(before.windows(to_id as int), hwnd);
        assert(after.windows(to_id as int).drop_last() =~= without(
            before.windows(to_id as int),
            hwnd,
        ));
    }
}

/// Assigning a window to the current desktop twice does what assigning it
/// once does.
pub proof fn law_assign_window_idempotent(
    first: DesktopManager,
    second: DesktopManager,
    third: DesktopManager,
    hwnd: isize,
)
    requires
        first.current < first.desktops@.len(),
        window_assigned(first, second, hwnd),
        window_assigned(second, third, hwnd),
    ensures
        third == second,
{
    let cur = first.current as int;
    if !first.windows(cur).contains(hwnd) {
        assert(second.windows(cur)[second.windows(cur).len() - 1] == hwnd);
    }
}

/// After a switch, no desktop holds a window that is no longer open.
pub proof fn law_switch_forgets_closed_windows(
    before: DesktopManager,
    after: DesktopManager,
    id: usize,
    live: Seq<isize>,
)
    requires
        desktops_switched(before, after, id, live),
    ensures
        forall|j: int, x: isize|
            0 <= j < after.desktops@.len() && #[trigger] after.windows(j).contains(x)
                ==> live.contains(x),
{
    assert forall|j: int, x: isize|
        0 <= j < after.desktops@.len() && #[trigger] after.windows(j).contains(x) implies live.contains(
        x,
    ) by {
        lemma_keep_live(before.windows(j), live);
    }
}

/// Deleting a desktop other than the current one keeps the same desktop
/// current.
pub proof fn law_delete_keeps_current_desktop(
    before: DesktopManager,
    after: DesktopManager,
    id: usize,
)
    requires
        before.wf(),
        before.desktops@.len() > 1,
        id < before.desktops@.len(),
        id != before.current,
        desktop_deleted(before, after, id),
    ensures
        same_but_id(after.desktops@[after.current as int], before.desktops@[before.current as int]),
{
    let n = before.desktops@.len() - 1;
    if before.current > id {
        assert(after.current == before.current - 1);
    } else {
        assert(after.current == before.current);
        assert(before.current < n);
    }
}

/// Deleting the desktop that was just created gives back the desktops as
/// they were.
pub proof fn law_delete_undoes_create(
    start: DesktopManager,
    created: DesktopManager,
    deleted: DesktopManager,
    name: String,
)
    requires
        start.wf(),
        desktop_created(start, created, name),
        desktop_deleted(created, deleted, start.desktops@.len() as usize),
    ensures
        deleted.current == start.current,
        deleted.desktops@ == start.desktops@,
{
    let n = start.desktops@.len();
    assert forall|i: int| 0 <= i < n implies #[trigger] deleted.desktops@[i] == start.desktops@[i] by {
        assert(deleted.desktops@[i].id == i);
        assert(start.desktops@[i].id == i);
    }
    assert(deleted.desktops@ =~= start.desktops@);
}

/// Every operation keeps the manager well formed: the current desktop
/// exists and each desktop's id is its position. The three starting
/// desktops are well formed; the operations' own contracts carry the rest.
pub proof fn law_initial_desktops_well_formed(m: DesktopManager)
    requires
        m.desktops@.len() == 3,
        m.current == 0,
        forall|i: int| 0 <= i < 3 ==> #[trigger] m.desktops@[i].id == i,
    ensures
        m.wf(),
{
}

/// A window whose application was remembered on desktop `d` goes to `d`
/// when it opens, whatever automatic placement says.
pub proof fn law_remembered_desktop_wins(d: usize, count: nat, auto_assign: bool, current: int)
    requires
        d < count,
        d <= i64::MAX,
    ensures
        launch_destination(Some(d as i64), count, auto_assign, current) == Some(d as int),
{
}

/// A window whose application has no remembered desktop (or one that is
/// not a desktop) joins the current desktop when automatic placement is on,
/// at the end of its windows, and no other desktop changes; with automatic
/// placement off it stays on no desktop.
pub proof fn law_unremembered_window_joins_current(
    lists: Seq<Seq<isize>>,
    existing: Seq<isize>,
    h: isize,
    target: Option<i64>,
    current: int,
)
    requires
        0 <= current < lists.len(),
        lists.len() <= usize::MAX,
        !existing.contains(h),
        match target {
            None => true,
            Some(t) => lists.len() <= t && t <= usize::MAX,
        },
    ensures
        launch_destination(target, lists.len(), true, current) == Some(current),
        launch_destination(target, lists.len(), false, current) is None,
        place_all(lists, existing, seq![h], seq![target], true, current).len() == lists.len(),
        place_all(lists, existing, seq![h], seq![target], true, current)[current] == lists[current].push(h),
        forall|j: int|
            0 <= j < lists.len() && j != current ==> #[trigger] place_all(
                lists,
                existing,
                seq![h],
                seq![target],
                true,
                current,
            )[j] == lists[j],
        place_all(lists, existing, seq![h], seq![target], false, current) == lists,
{
    assert(seq![h].drop_last() =~= Seq::<isize>::empty());
    assert(seq![target].drop_last() =~= Seq::<Option<i64>>::empty());
    assert(seq![h].last() == h);
    assert(seq![target].last() == target);
    assert(place_all(lists, existing, Seq::<isize>::empty(), Seq::<Option<i64>>::empty(), true, current) == lists);
    assert(place_all(lists, existing, Seq::<isize>::empty(), Seq::<Option<i64>>::empty(), false, current) == lists);
    match target {
        None => {},
        Some(t) => {
            assert((t as usize) as int == t);
        },
    }
}

} // verus!
