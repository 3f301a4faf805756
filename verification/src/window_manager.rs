//! Window stacking order and click-to-focus.
//!
//! Z-order: the back of the vector is the top of the stack; focusing a window
//! raises it. Alt+Tab cycles focus through the stack.
use vstd::prelude::*;
use crate::window::AEWindow;

verus! {

/// Index of the first window with handle `h` at index `k` or later.
pub open spec fn index_from(s: Seq<AEWindow>, h: u64, k: int) -> Option<int>
    decreases s.len() - k,
{
    if 0 <= k && k < s.len() {
        if s[k].handle == h { Some(k) } else { index_from(s, h, k + 1) }
    } else {
        None
    }
}

/// Index of the window with handle `h`.
pub open spec fn index_of(s: Seq<AEWindow>, h: u64) -> Option<int> {
    index_from(s, h, 0)
}

pub open spec fn with_focus(w: AEWindow, b: bool) -> AEWindow {
    AEWindow { is_focused: b, ..w }
}

pub open spec fn with_minimized(w: AEWindow, b: bool) -> AEWindow {
    AEWindow { is_minimized: b, ..w }
}

/// Clears the focus flag of the window with handle `h`, if there is one.
pub open spec fn unfocus_handle(s: Seq<AEWindow>, h: u64) -> Seq<AEWindow> {
    match index_of(s, h) {
        Some(i) => s.update(i, with_focus(s[i], false)),
        None => s,
    }
}

/// Moves entry `i` to the top of the stack.
pub open spec fn to_top(s: Seq<AEWindow>, i: int) -> Seq<AEWindow> {
    s.remove(i).push(s[i])
}

/// Moves entry `i` to the bottom of the stack.
pub open spec fn to_bottom(s: Seq<AEWindow>, i: int) -> Seq<AEWindow> {
    seq![s[i]] + s.remove(i)
}

/// The stack after click-to-focus on `h` while `cur` was focused.
pub open spec fn focus_windows(s: Seq<AEWindow>, cur: u64, h: u64) -> Seq<AEWindow> {
    let u = unfocus_handle(s, cur);
    match index_of(s, h) {
        Some(i) => to_top(u.update(i, with_focus(u[i], true)), i),
        None => u,
    }
}

/// The focused handle after click-to-focus on `h` while `cur` was focused.
pub open spec fn focus_handle_after(s: Seq<AEWindow>, cur: u64, h: u64) -> u64 {
    if index_of(s, h) is Some { h } else { cur }
}

/// A window after `enter_fullscreen`.
pub open spec fn fullscreen_entered(w: AEWindow) -> AEWindow {
    if w.is_fullscreen_active { w } else { AEWindow { is_fullscreen_active: true, is_visible: true, ..w } }
}

/// A window after `exit_fullscreen`.
pub open spec fn fullscreen_exited(w: AEWindow) -> AEWindow {
    AEWindow { is_fullscreen_active: false, ..w }
}

/// The stack with the window of handle `h`, if any, replaced by `f` of it.
pub open spec fn update_handle(s: Seq<AEWindow>, h: u64, f: spec_fn(AEWindow) -> AEWindow) -> Seq<AEWindow> {
    match index_of(s, h) {
        Some(i) => s.update(i, f(s[i])),
        None => s,
    }
}

/// Edge snapping zones for a dragged window.
#[derive(PartialEq, Eq, Structural, Clone, Copy, Debug)]
pub enum SnapZone {
    NoZone,
    Left,
    Right,
    Top,
    TopLeft,
    TopRight,
    BottomLeft,
    BottomRight,
    Maximize,
}

/// The snap zone of a drag position, from which screen edges it is near:
/// corners first, then the top edge (maximize), then the sides.
pub open spec fn snap_zone_of(near_left: bool, near_right: bool, near_top: bool, near_bottom: bool) -> SnapZone {
    if near_top && near_left {
        SnapZone::TopLeft
    } else if near_top && near_right {
        SnapZone::TopRight
    } else if near_bottom && near_left {
        SnapZone::BottomLeft
    } else if near_bottom && near_right {
        SnapZone::BottomRight
    } else if near_top {
        SnapZone::Maximize
    } else if near_left {
        SnapZone::Left
    } else if near_right {
        SnapZone::Right
    } else {
        SnapZone::NoZone
    }
}

/// The snap zone for a drag near the given screen edges (the caller
/// compares the pointer with the edges, within the snap threshold).
pub fn detect_snap_zone(near_left: bool, near_right: bool, near_top: bool, near_bottom: bool) -> (z: SnapZone)
    ensures
        z == snap_zone_of(near_left, near_right, near_top, near_bottom),
{
    if near_top && near_left {
        SnapZone::TopLeft
    } else if near_top && near_right {
        SnapZone::TopRight
    } else if near_bottom && near_left {
        SnapZone::BottomLeft
    } else if near_bottom && near_right {
        SnapZone::BottomRight
    } else if near_top {
        SnapZone::Maximize
    } else if near_left {
        SnapZone::Left
    } else if near_right {
        SnapZone::Right
    } else {
        SnapZone::NoZone
    }
}

/// The stack with every window's minimized flag set to `b`.
pub open spec fn all_minimized(s: Seq<AEWindow>, b: bool) -> Seq<AEWindow> {
    s.map_values(|w: AEWindow| with_minimized(w, b))
}

/// Number of windows that are visible and not minimized.
pub open spec fn count_visible(s: Seq<AEWindow>) -> nat
    decreases s.len(),
{
    if s.len() == 0 {
        0
    } else {
        count_visible(s.drop_last()) + if s.last().is_visible && !s.last().is_minimized { 1nat } else { 0nat }
    }
}

/// No two windows share a handle.
pub open spec fn unique_handles(s: Seq<AEWindow>) -> bool {
    forall|a: int, b: int| 0 <= a < b < s.len() ==> s[a].handle != s[b].handle
}

proof fn lemma_index_from(s: Seq<AEWindow>, h: u64, k: int)
    requires
        0 <= k <= s.len(),
    ensures
        index_from(s, h, k) matches Some(i) ==> k <= i < s.len() && s[i].handle == h && forall|j: int|
            k <= j < i ==> s[j].handle != h,
        index_from(s, h, k) is None ==> forall|j: int| k <= j < s.len() ==> s[j].handle != h,
    decreases s.len() - k,
{
    if k < s.len() {
        lemma_index_from(s, h, k + 1);
    }
}

proof fn lemma_index_of(s: Seq<AEWindow>, h: u64)
    ensures
        index_of(s, h) matches Some(i) ==> 0 <= i < s.len() && s[i].handle == h,
        index_of(s, h) is None ==> forall|j: int| 0 <= j < s.len() ==> s[j].handle != h,
        unique_handles(s) ==> forall|j: int| 0 <= j < s.len() && s[j].handle == h ==> index_of(s, h) == Some(j),
{
    lemma_index_from(s, h, 0);
}

proof fn lemma_index_same_handles(s: Seq<AEWindow>, t: Seq<AEWindow>, h: u64)
    requires
        s.len() == t.len(),
        forall|j: int| 0 <= j < s.len() ==> s[j].handle == t[j].handle,
    ensures
        index_of(s, h) == index_of(t, h),
{
    lemma_index_from_same(s, t, h, 0);
}

proof fn lemma_index_from_same(s: Seq<AEWindow>, t: Seq<AEWindow>, h: u64, k: int)
    requires
        s.len() == t.len(),
        forall|j: int| 0 <= j < s.len() ==> s[j].handle == t[j].handle,
    ensures
        index_from(s, h, k) == index_from(t, h, k),
    decreases s.len() - k,
{
    if 0 <= k < s.len() {
        lemma_index_from_same(s, t, h, k + 1);
    }
}

proof fn lemma_to_top_unique(s: Seq<AEWindow>, i: int)
    requires
        unique_handles(s),
        0 <= i < s.len(),
    ensures
        unique_handles(to_top(s, i)),
        to_top(s, i).len() == s.len(),
        forall|j: int| 0 <= j < s.len() ==> exists|k: int| 0 <= k < s.len() && #[trigger] to_top(s, i)[j] == s[k],
{
    let t = to_top(s, i);
    assert forall|j: int| 0 <= j < s.len() implies exists|k: int| 0 <= k < s.len() && #[trigger] t[j] == s[k] by {
        if j < i {
            assert(t[j] == s[j]);
        } else if j < s.len() - 1 {
            assert(t[j] == s[j + 1]);
        } else {
            assert(t[j] == s[i]);
        }
    }
    assert forall|a: int, b: int| 0 <= a < b < t.len() implies t[a].handle != t[b].handle by {
        let oa = if a < i { a } else if a < s.len() - 1 { a + 1 } else { i };
        let ob = if b < i { b } else if b < s.len() - 1 { b + 1 } else { i };
        assert(t[a] == s[oa]);
        assert(t[b] == s[ob]);
    }
}

proof fn lemma_to_bottom_unique(s: Seq<AEWindow>, i: int)
    requires
        unique_handles(s),
        0 <= i < s.len(),
    ensures
        unique_handles(to_bottom(s, i)),
        to_bottom(s, i).len() == s.len(),
        forall|j: int| 0 <= j < s.len() ==> exists|k: int| 0 <= k < s.len() && #[trigger] to_bottom(s, i)[j] == s[k],
{
    let t = to_bottom(s, i);
    assert forall|j: int| 0 <= j < s.len() implies exists|k: int| 0 <= k < s.len() && #[trigger] t[j] == s[k] by {
        if j == 0 {
            assert(t[j] == s[i]);
        } else if j <= i {
            assert(t[j] == s[j - 1]);
        } else {
            assert(t[j] == s[j]);
        }
    }
    assert forall|a: int, b: int| 0 <= a < b < t.len() implies t[a].handle != t[b].handle by {
        let oa = if a == 0 { i } else if a <= i { a - 1 } else { a };
        let ob = if b == 0 { i } else if b <= i { b - 1 } else { b };
        assert(t[a] == s[oa]);
        assert(t[b] == s[ob]);
    }
}

proof fn lemma_count_visible_prefix(s: Seq<AEWindow>, i: int)
    requires
        0 <= i < s.len(),
    ensures
        count_visible(s.subrange(0, i + 1)) == count_visible(s.subrange(0, i)) + if s[i].is_visible
            && !s[i].is_minimized { 1nat } else { 0nat },
{
    assert(s.subrange(0, i + 1).drop_last() =~= s.subrange(0, i));
}

/// Minimizing every window leaves none visible.
pub proof fn lemma_all_minimized_invisible(s: Seq<AEWindow>)
    ensures
        count_visible(all_minimized(s, true)) == 0,
    decreases s.len(),
{
    if s.len() > 0 {
        lemma_all_minimized_invisible(s.drop_last());
        assert(all_minimized(s, true).drop_last() =~= all_minimized(s.drop_last(), true));
    }
}

/// Show Desktop twice gives every window back as it was, when none was
/// minimized before.
pub proof fn show_desktop_round_trip(s: Seq<AEWindow>)
    requires
        forall|i: int| 0 <= i < s.len() ==> !(#[trigger] s[i]).is_minimized,
    ensures
        count_visible(all_minimized(s, true)) == 0,
        all_minimized(all_minimized(s, true), false) == s,
{
    lemma_all_minimized_invisible(s);
    assert(all_minimized(all_minimized(s, true), false) =~= s);
}

/// Raising or lowering a window reorders the stack without adding or
/// losing a window.
pub proof fn restack_keeps_windows(s: Seq<AEWindow>, i: int)
    requires
        0 <= i < s.len(),
    ensures
        to_top(s, i).to_multiset() == s.to_multiset(),
        to_bottom(s, i).to_multiset() == s.to_multiset(),
{
    broadcast use vstd::seq_lib::group_to_multiset_ensures;
    let r = s.remove(i);
    assert(r.to_multiset() =~= s.to_multiset().remove(s[i]));
    assert(r.push(s[i]).to_multiset() =~= r.to_multiset().insert(s[i]));
    assert(s.to_multiset().contains(s[i])) by {
        assert(s.contains(s[i]));
    }
    assert(s.to_multiset().remove(s[i]).insert(s[i]) =~= s.to_multiset());
    vstd::seq_lib::lemma_seq_union_to_multiset_commutative(seq![s[i]], r);
    vstd::seq_lib::lemma_multiset_commutative(seq![s[i]], r);
    assert(seq![s[i]].to_multiset() =~= vstd::multiset::Multiset::empty().insert(s[i])) by {
        assert(seq![s[i]] =~= Seq::<AEWindow>::empty().push(s[i]));
    }
}

/// Click-to-focus on a window puts it on top of the stack, marked focused,
/// and keeps every window.
pub proof fn focus_raises(s: Seq<AEWindow>, cur: u64, h: u64)
    requires
        unique_handles(s),
        index_of(s, h) is Some,
    ensures
        focus_windows(s, cur, h).len() == s.len(),
        focus_windows(s, cur, h).last().handle == h,
        focus_windows(s, cur, h).last().is_focused,
        focus_handle_after(s, cur, h) == h,
{
    lemma_index_of(s, h);
    lemma_index_of(s, cur);
    let u = unfocus_handle(s, cur);
    assert(u.len() == s.len());
}

/// A window that can cover the Dock: shown, not minimized, not fullscreen
/// (a fullscreen window hides the Dock anyway).
pub open spec fn may_cover_dock(w: AEWindow) -> bool {
    w.is_visible && !w.is_minimized && !w.is_fullscreen_active
}

fn contains_handle(v: &Vec<u64>, h: u64) -> (b: bool)
    ensures
        b == v@.contains(h),
{
    let mut k: usize = 0;
    while k < v.len()
        invariant
            0 <= k <= v@.len(),
            forall|m: int| 0 <= m < k ==> v@[m] != h,
        decreases v@.len() - k,
    {
        if v[k] == h {
            assert(v@[k as int] == h);
            return true;
        }
        k = k + 1;
    }
    false
}

/// The window manager.
pub struct WindowManager {
    windows: Vec<AEWindow>,
    focused_handle: u64,
    next_handle: u64,
}

/// `b` is `a` after `remove_window(h)`: the window goes; if it had focus,
/// the window on top of the stack gets it.
pub open spec fn wm_after_remove(a: WindowManager, b: WindowManager, h: u64) -> bool {
    let kept = match index_of(a.stack(), h) {
        Some(i) => a.stack().remove(i),
        None => a.stack(),
    };
    &&& b.next() == a.next()
    &&& if a.focused_id() == h {
        if kept.len() > 0 {
            &&& b.stack() == kept.update(kept.len() - 1, with_focus(kept.last(), true))
            &&& b.focused_id() == kept.last().handle
        } else {
            &&& b.stack() == kept
            &&& b.focused_id() == 0
        }
    } else {
        &&& b.stack() == kept
        &&& b.focused_id() == a.focused_id()
    }
}

/// `b` is `a` after `focus(h)`.
pub open spec fn wm_after_focus(a: WindowManager, b: WindowManager, h: u64) -> bool {
    &&& b.next() == a.next()
    &&& b.stack() == focus_windows(a.stack(), a.focused_id(), h)
    &&& b.focused_id() == focus_handle_after(a.stack(), a.focused_id(), h)
}

/// `b` is `a` with the window of handle `h` replaced by `f` of it.
pub open spec fn wm_after_update(a: WindowManager, b: WindowManager, h: u64, f: spec_fn(AEWindow) -> AEWindow) -> bool {
    &&& b.next() == a.next()
    &&& b.focused_id() == a.focused_id()
    &&& b.stack() == update_handle(a.stack(), h, f)
}

/// `b` is `a` with every window minimized (`m`) or restored.
pub open spec fn wm_after_all_minimized(a: WindowManager, b: WindowManager, m: bool) -> bool {
    &&& b.next() == a.next()
    &&& b.focused_id() == a.focused_id()
    &&& b.stack() == all_minimized(a.stack(), m)
}

/// `b` is `a` after Alt+Tab: with fewer than two windows nothing changes;
/// otherwise the window above the focused one (wrapping to the bottom; the
/// bottom one when none has focus) is focused.
pub open spec fn wm_after_cycle_next(a: WindowManager, b: WindowManager) -> bool {
    if a.stack().len() < 2 {
        b == a
    } else {
        let cur = match index_of(a.stack(), a.focused_id()) {
            Some(i) => i,
            None => 0,
        };
        wm_after_focus(a, b, a.stack()[(cur + 1) % (a.stack().len() as int)].handle)
    }
}

impl WindowManager {
    /// Windows in z-order (first = bottom, last = top).
    pub closed spec fn stack(&self) -> Seq<AEWindow> {
        self.windows@
    }

    /// Handle of the focused window, 0 when none.
    pub closed spec fn focused_id(&self) -> u64 {
        self.focused_handle
    }

    /// The handle the next window will get.
    pub closed spec fn next(&self) -> u64 {
        self.next_handle
    }

    /// Handles are unique, nonzero and below the next handle, and a window
    /// marked focused is the one the manager reports as focused (so at most
    /// one window is marked focused).
    pub closed spec fn wf(&self) -> bool {
        &&& unique_handles(self.windows@)
        &&& forall|i: int| 0 <= i < self.windows@.len() ==> 0 < #[trigger] self.windows@[i].handle < self.next_handle
        &&& forall|i: int| 0 <= i < self.windows@.len() && #[trigger] self.windows@[i].is_focused
            ==> self.windows@[i].handle == self.focused_handle
        &&& self.next_handle >= 1
    }

    /// No two windows of a well-formed manager share a handle.
    pub proof fn wf_handles_unique(&self)
        requires
            self.wf(),
        ensures
            unique_handles(self.stack()),
    {
    }

    /// Click-to-focus on a window the manager holds makes it the focused
    /// window, raises it to the top of the stack marked focused and leaves
    /// no other window marked focused; the windows below it keep their
    /// relative order.
    pub proof fn focus_law(&self, h: u64)
        requires
            self.wf(),
            index_of(self.stack(), h) is Some,
        ensures
            ({
                let s = self.stack();
                let t = focus_windows(s, self.focused_id(), h);
                let i = index_of(s, h)->0;
                &&& focus_handle_after(s, self.focused_id(), h) == h
                &&& t.len() == s.len()
                &&& t.last().handle == h
                &&& t.last().is_focused
                &&& forall|j: int| 0 <= j < s.len() - 1 ==> #[trigger] t[j].handle == s.remove(i)[j].handle
                &&& forall|j: int| 0 <= j < s.len() - 1 ==> !(#[trigger] t[j]).is_focused
            }),
    {
        let s = self.windows@;
        let cur = self.focused_handle;
        lemma_index_of(s, h);
        lemma_index_of(s, cur);
        let i = index_of(s, h)->0;
        let u = unfocus_handle(s, cur);
        let v = u.update(i, with_focus(u[i], true));
        let t = focus_windows(s, cur, h);
        assert(t == to_top(v, i));
        assert forall|j: int| 0 <= j < s.len() - 1 implies #[trigger] t[j].handle == s.remove(i)[j].handle
            && !t[j].is_focused by {
            let k = if j < i { j } else { j + 1 };
            assert(t[j] == v[k]);
            assert(k != i);
            if s[k].is_focused {
                assert(s[k].handle == cur);
                assert(index_of(s, cur) == Some(k));
            }
        }
    }

    pub fn new() -> (wm: Self)
        ensures
            wm.wf(),
            wm.stack().len() == 0,
            wm.focused_id() == 0,
            wm.next() == 1,
    {
        WindowManager { windows: Vec::new(), focused_handle: 0, next_handle: 1 }
    }

    fn position(&self, handle: u64) -> (r: Option<usize>)
        ensures
            r matches Some(i) ==> index_of(self.windows@, handle) == Some(i as int) && i < self.windows@.len(),
            r is None ==> index_of(self.windows@, handle) is None,
    {
        let mut i: usize = 0;
        while i < self.windows.len()
            invariant
                0 <= i <= self.windows@.len(),
                index_of(self.windows@, handle) == index_from(self.windows@, handle, i as int),
            decreases self.windows@.len() - i,
        {
            if self.windows[i].handle == handle {
                return Some(i);
            }
            i = i + 1;
        }
        None
    }

    /// Registers a new window on top of the stack and focuses it.
    pub fn create_window(&mut self, title: &str, app_id: &str) -> (handle: u64)
        requires
            old(self).wf(),
            old(self).next() < u64::MAX,
        ensures
            final(self).wf(),
            handle == old(self).next(),
            final(self).next() == old(self).next() + 1,
            final(self).focused_id() == handle,
            final(self).stack().len() == old(self).stack().len() + 1,
            forall|i: int| 0 <= i < old(self).stack().len() ==> #[trigger] final(self).stack()[i] == with_focus(
                old(self).stack()[i],
                false,
            ),
            final(self).stack().last().handle == handle,
            final(self).stack().last().title@ == title@,
            final(self).stack().last().app_id@ == app_id@,
            final(self).stack().last().is_focused,
            final(self).stack().last().is_visible,
            !final(self).stack().last().is_minimized,
            !final(self).stack().last().is_fullscreen_active,
    {
        let handle = self.next_handle;
        self.next_handle = self.next_handle + 1;
        let win = AEWindow::new(handle, title, app_id);
        let mut i: usize = 0;
        while i < self.windows.len()
            invariant
                0 <= i <= self.windows@.len(),
                self.windows@.len() == old(self).windows@.len(),
                forall|j: int| 0 <= j < i ==> #[trigger] self.windows@[j] == with_focus(old(self).windows@[j], false),
                forall|j: int| i <= j < self.windows@.len() ==> #[trigger] self.windows@[j] == old(self).windows@[j],
                self.next_handle == old(self).next_handle + 1,
                handle == old(self).next_handle,
            decreases self.windows@.len() - i,
        {
            self.windows[i].is_focused = false;
            i = i + 1;
        }
        self.focused_handle = handle;
        self.windows.push(win);
        handle
    }

    /// Removes the window with `handle`; if it had focus, the top window gets it.
    pub fn remove_window(&mut self, handle: u64)
        requires
            old(self).wf(),
        ensures
            final(self).wf(),
            final(self).next() == old(self).next(),
            ({
                let kept = match index_of(old(self).stack(), handle) {
                    Some(i) => old(self).stack().remove(i),
                    None => old(self).stack(),
                };
                if old(self).focused_id() == handle {
                    if kept.len() > 0 {
                        &&& final(self).stack() == kept.update(kept.len() - 1, with_focus(kept.last(), true))
                        &&& final(self).focused_id() == kept.last().handle
                    } else {
                        &&& final(self).stack() == kept
                        &&& final(self).focused_id() == 0
                    }
                } else {
                    &&& final(self).stack() == kept
                    &&& final(self).focused_id() == old(self).focused_id()
                }
            }),
    {
        proof {
            lemma_index_of(self.windows@, handle);
        }
        if let Some(i) = self.position(handle) {
            self.windows.remove(i);
        }
        let ghost kept = self.windows@;
        assert(forall|j: int| 0 <= j < kept.len() ==> #[trigger] kept[j].handle != handle) by {
            assert forall|j: int| 0 <= j < kept.len() implies #[trigger] kept[j].handle != handle by {
                match index_of(old(self).windows@, handle) {
                    Some(i) => {
                        if j < i {
                            assert(kept[j] == old(self).windows@[j]);
                        } else {
                            assert(kept[j] == old(self).windows@[j + 1]);
                        }
                    },
                    None => {},
                }
            }
        }
        if self.focused_handle == handle {
            let n = self.windows.len();
            if n > 0 {
                self.focused_handle = self.windows[n - 1].handle;
                self.windows[n - 1].is_focused = true;
            } else {
                self.focused_handle = 0;
            }
        }
    }

    /// The window with `handle`, if any.
    pub fn get_window(&self, handle: u64) -> (r: Option<&AEWindow>)
        ensures
            r matches Some(w) ==> index_of(self.stack(), handle) matches Some(i) && *w == self.stack()[i],
            r is None ==> index_of(self.stack(), handle) is None,
    {
        match self.position(handle) {
            Some(i) => Some(&self.windows[i]),
            None => None,
        }
    }

    /// All windows in z-order (first = bottom).
    pub fn windows(&self) -> (s: &[AEWindow])
        ensures
            s@ == self.stack(),
    {
        self.windows.as_slice()
    }

    /// The focused window, if any.
    pub fn focused(&self) -> (r: Option<&AEWindow>)
        ensures
            r matches Some(w) ==> index_of(self.stack(), self.focused_id()) matches Some(i) && *w == self.stack()[i],
            r is None ==> index_of(self.stack(), self.focused_id()) is None,
    {
        self.get_window(self.focused_handle)
    }

    pub fn focused_handle(&self) -> (h: u64)
        ensures
            h == self.focused_id(),
    {
        self.focused_handle
    }

    /// Click-to-focus: the window gets focus and moves to the top of the stack.
    pub fn focus(&mut self, handle: u64)
        requires
            old(self).wf(),
        ensures
            final(self).wf(),
            final(self).next() == old(self).next(),
            final(self).stack() == focus_windows(old(self).stack(), old(self).focused_id(), handle),
            final(self).focused_id() == focus_handle_after(old(self).stack(), old(self).focused_id(), handle),
    {
        let ghost s0 = self.windows@;
        proof {
            lemma_index_of(s0, self.focused_handle);
            lemma_index_of(s0, handle);
        }
        if let Some(ci) = self.position(self.focused_handle) {
            self.windows[ci].is_focused = false;
        }
        let ghost u = self.windows@;
        assert(u == unfocus_handle(s0, old(self).focused_handle));
        proof {
            lemma_index_same_handles(s0, u, handle);
            lemma_index_of(u, handle);
        }
        if let Some(hi) = self.position(handle) {
            self.windows[hi].is_focused = true;
            self.focused_handle = handle;
            let ghost v = self.windows@;
            proof {
                lemma_to_top_unique(v, hi as int);
            }
            let w = self.windows.remove(hi);
            self.windows.push(w);
            assert(self.windows@ =~= to_top(v, hi as int));
            assert forall|j: int| 0 <= j < self.windows@.len() && #[trigger] self.windows@[j].is_focused implies
                self.windows@[j].handle == self.focused_handle by {
                let k = choose|k: int| 0 <= k < v.len() && to_top(v, hi as int)[j] == v[k];
                if k != hi {
                    if v[k].handle == old(self).focused_handle {
                        assert(u[k].is_focused == false);
                    }
                }
            }
            assert forall|j: int| 0 <= j < self.windows@.len() implies 0 < #[trigger] self.windows@[j].handle < self.next_handle by {
                let k = choose|k: int| 0 <= k < v.len() && to_top(v, hi as int)[j] == v[k];
                assert(v[k].handle == s0[k].handle);
            }
        } else {
            assert forall|j: int| 0 <= j < self.windows@.len() && #[trigger] self.windows@[j].is_focused implies
                self.windows@[j].handle == self.focused_handle by {
                if s0[j].handle == old(self).focused_handle {
                    assert(u[j].is_focused == false);
                }
            }
        }
    }

    /// Raises a window to the top of the stack (focus unchanged).
    pub fn raise(&mut self, handle: u64)
        requires
            old(self).wf(),
        ensures
            final(self).wf(),
            final(self).next() == old(self).next(),
            final(self).focused_id() == old(self).focused_id(),
            final(self).stack() == (match index_of(old(self).stack(), handle) {
                Some(i) => to_top(old(self).stack(), i),
                None => old(self).stack(),
            }),
    {
        if let Some(i) = self.position(handle) {
            let ghost v = self.windows@;
            proof {
                lemma_to_top_unique(v, i as int);
            }
            let w = self.windows.remove(i);
            self.windows.push(w);
            assert(self.windows@ =~= to_top(v, i as int));
            assert forall|j: int| 0 <= j < self.windows@.len() && #[trigger] self.windows@[j].is_focused implies
                self.windows@[j].handle == self.focused_handle by {
                let k = choose|k: int| 0 <= k < v.len() && to_top(v, i as int)[j] == v[k];
            }
            assert forall|j: int| 0 <= j < self.windows@.len() implies 0 < #[trigger] self.windows@[j].handle < self.next_handle by {
                let k = choose|k: int| 0 <= k < v.len() && to_top(v, i as int)[j] == v[k];
            }
        }
    }

    /// Lowers a window to the bottom of the stack (focus unchanged).
    pub fn lower(&mut self, handle: u64)
        requires
            old(self).wf(),
        ensures
            final(self).wf(),
            final(self).next() == old(self).next(),
            final(self).focused_id() == old(self).focused_id(),
            final(self).stack() == (match index_of(old(self).stack(), handle) {
                Some(i) => to_bottom(old(self).stack(), i),
                None => old(self).stack(),
            }),
    {
        if let Some(i) = self.position(handle) {
            let ghost v = self.windows@;
            proof {
                lemma_to_bottom_unique(v, i as int);
            }
            let w = self.windows.remove(i);
            self.windows.insert(0, w);
            assert(self.windows@ =~= to_bottom(v, i as int));
            assert forall|j: int| 0 <= j < self.windows@.len() && #[trigger] self.windows@[j].is_focused implies
                self.windows@[j].handle == self.focused_handle by {
                let k = choose|k: int| 0 <= k < v.len() && to_bottom(v, i as int)[j] == v[k];
            }
            assert forall|j: int| 0 <= j < self.windows@.len() implies 0 < #[trigger] self.windows@[j].handle < self.next_handle by {
                let k = choose|k: int| 0 <= k < v.len() && to_bottom(v, i as int)[j] == v[k];
            }
        }
    }

    /// Alt+Tab: focuses the window above the focused one, wrapping to the bottom.
    pub fn cycle_focus_next(&mut self)
        requires
            old(self).wf(),
        ensures
            final(self).wf(),
            final(self).next() == old(self).next(),
            old(self).stack().len() < 2 ==> *final(self) == *old(self),
            old(self).stack().len() >= 2 ==> {
                let cur = match index_of(old(self).stack(), old(self).focused_id()) {
                    Some(i) => i,
                    None => 0,
                };
                let h = old(self).stack()[(cur + 1) % (old(self).stack().len() as int)].handle;
                &&& final(self).stack() == focus_windows(old(self).stack(), old(self).focused_id(), h)
                &&& final(self).focused_id() == focus_handle_after(old(self).stack(), old(self).focused_id(), h)
            },
    {
        let n = self.windows.len();
        if n < 2 {
            return;
        }
        let current = match self.position(self.focused_handle) {
            Some(i) => i,
            None => 0,
        };
        let next_idx = (current + 1) % n;
        let next_handle = self.windows[next_idx].handle;
        self.focus(next_handle);
    }

    /// Shift+Alt+Tab: focuses the window below the focused one, wrapping to the top.
    pub fn cycle_focus_prev(&mut self)
        requires
            old(self).wf(),
        ensures
            final(self).wf(),
            final(self).next() == old(self).next(),
            old(self).stack().len() < 2 ==> *final(self) == *old(self),
            old(self).stack().len() >= 2 ==> {
                let cur = match index_of(old(self).stack(), old(self).focused_id()) {
                    Some(i) => i,
                    None => 0,
                };
                let p = if cur == 0 { old(self).stack().len() - 1 } else { cur - 1 };
                let h = old(self).stack()[p].handle;
                &&& final(self).stack() == focus_windows(old(self).stack(), old(self).focused_id(), h)
                &&& final(self).focused_id() == focus_handle_after(old(self).stack(), old(self).focused_id(), h)
            },
    {
        let n = self.windows.len();
        if n < 2 {
            return;
        }
        let current = match self.position(self.focused_handle) {
            Some(i) => i,
            None => 0,
        };
        let prev_idx = if current == 0 { n - 1 } else { current - 1 };
        let prev_handle = self.windows[prev_idx].handle;
        self.focus(prev_handle);
    }

    /// Show Desktop: minimizes every window.
    pub fn minimize_all(&mut self)
        requires
            old(self).wf(),
        ensures
            final(self).wf(),
            final(self).next() == old(self).next(),
            final(self).focused_id() == old(self).focused_id(),
            final(self).stack() == all_minimized(old(self).stack(), true),
    {
        let mut i: usize = 0;
        while i < self.windows.len()
            invariant
                0 <= i <= self.windows@.len(),
                self.windows@.len() == old(self).windows@.len(),
                forall|j: int| 0 <= j < i ==> #[trigger] self.windows@[j] == with_minimized(old(self).windows@[j], true),
                forall|j: int| i <= j < self.windows@.len() ==> #[trigger] self.windows@[j] == old(self).windows@[j],
                self.focused_handle == old(self).focused_handle,
                self.next_handle == old(self).next_handle,
            decreases self.windows@.len() - i,
        {
            if !self.windows[i].is_minimized {
                self.windows[i].minimize();
            }
            i = i + 1;
        }
        assert(self.windows@ =~= all_minimized(old(self).windows@, true));
    }

    /// Show Desktop toggled off: restores every minimized window.
    pub fn restore_all(&mut self)
        requires
            old(self).wf(),
        ensures
            final(self).wf(),
            final(self).next() == old(self).next(),
            final(self).focused_id() == old(self).focused_id(),
            final(self).stack() == all_minimized(old(self).stack(), false),
    {
        let mut i: usize = 0;
        while i < self.windows.len()
            invariant
                0 <= i <= self.windows@.len(),
                self.windows@.len() == old(self).windows@.len(),
                forall|j: int| 0 <= j < i ==> #[trigger] self.windows@[j] == with_minimized(old(self).windows@[j], false),
                forall|j: int| i <= j < self.windows@.len() ==> #[trigger] self.windows@[j] == old(self).windows@[j],
                self.focused_handle == old(self).focused_handle,
                self.next_handle == old(self).next_handle,
            decreases self.windows@.len() - i,
        {
            if self.windows[i].is_minimized {
                self.windows[i].restore();
            }
            i = i + 1;
        }
        assert(self.windows@ =~= all_minimized(old(self).windows@, false));
    }

    /// Minimizes the window with `handle` (it springs toward the Dock).
    pub fn minimize_window(&mut self, handle: u64)
        requires
            old(self).wf(),
        ensures
            final(self).wf(),
            final(self).next() == old(self).next(),
            final(self).focused_id() == old(self).focused_id(),
            final(self).stack() == update_handle(old(self).stack(), handle, |w: AEWindow| with_minimized(w, true)),
    {
        if let Some(i) = self.position(handle) {
            self.windows[i].minimize();
        }
    }

    /// Restores the minimized window with `handle`.
    pub fn restore_window(&mut self, handle: u64)
        requires
            old(self).wf(),
        ensures
            final(self).wf(),
            final(self).next() == old(self).next(),
            final(self).focused_id() == old(self).focused_id(),
            final(self).stack() == update_handle(old(self).stack(), handle, |w: AEWindow| with_minimized(w, false)),
    {
        if let Some(i) = self.position(handle) {
            self.windows[i].restore();
        }
    }

    /// The window with `handle` enters (`on`) or leaves fullscreen.
    pub fn set_window_fullscreen(&mut self, handle: u64, on: bool)
        requires
            old(self).wf(),
        ensures
            final(self).wf(),
            final(self).next() == old(self).next(),
            final(self).focused_id() == old(self).focused_id(),
            final(self).stack() == update_handle(
                old(self).stack(),
                handle,
                |w: AEWindow| if on { fullscreen_entered(w) } else { fullscreen_exited(w) },
            ),
    {
        if let Some(i) = self.position(handle) {
            if on {
                self.windows[i].enter_fullscreen();
            } else {
                self.windows[i].exit_fullscreen();
            }
        }
    }

    /// Applies a snap zone to the window with `handle`: true when there is
    /// such a window and the zone is not `None` (the caller then moves and
    /// resizes it to the zone's geometry).
    pub fn snap_window(&self, handle: u64, zone: SnapZone) -> (snapped: bool)
        ensures
            snapped == (zone != SnapZone::NoZone && index_of(self.stack(), handle) is Some),
    {
        if zone == SnapZone::NoZone {
            return false;
        }
        self.position(handle).is_some()
    }

    /// Number of visible, non-minimized windows.
    pub fn visible_window_count(&self) -> (c: usize)
        ensures
            c == count_visible(self.stack()),
    {
        let mut c: usize = 0;
        let mut i: usize = 0;
        while i < self.windows.len()
            invariant
                0 <= i <= self.windows@.len(),
                c == count_visible(self.windows@.subrange(0, i as int)),
                c <= i,
            decreases self.windows@.len() - i,
        {
            proof {
                lemma_count_visible_prefix(self.windows@, i as int);
            }
            if self.windows[i].is_visible && !self.windows[i].is_minimized {
                c = c + 1;
            }
            i = i + 1;
        }
        assert(self.windows@.subrange(0, i as int) =~= self.windows@);
        c
    }

    /// Whether a window keeps the Dock from auto-hiding: some shown,
    /// non-minimized, non-fullscreen window whose handle is in `reaching`
    /// (the windows whose frames reach down into the Dock's area across the
    /// screen, as the caller's geometry found them).
    pub fn any_window_overlaps_dock(&self, reaching: &Vec<u64>) -> (b: bool)
        ensures
            b == exists|i: int|
                0 <= i < self.stack().len() && may_cover_dock(#[trigger] self.stack()[i]) && reaching@.contains(
                    self.stack()[i].handle,
                ),
    {
        let mut i: usize = 0;
        while i < self.windows.len()
            invariant
                0 <= i <= self.windows@.len(),
                forall|j: int|
                    0 <= j < i ==> !(may_cover_dock(#[trigger] self.windows@[j]) && reaching@.contains(
                        self.windows@[j].handle,
                    )),
            decreases self.windows@.len() - i,
        {
            let w = &self.windows[i];
            if w.is_visible && !w.is_minimized && !w.is_fullscreen_active && contains_handle(reaching, w.handle) {
                assert(may_cover_dock(self.stack()[i as int]) && reaching@.contains(self.stack()[i as int].handle));
                return true;
            }
            i = i + 1;
        }
        false
    }

    /// Total number of windows.
    pub fn window_count(&self) -> (n: usize)
        ensures
            n == self.stack().len(),
    {
        self.windows.len()
    }
}

} // verus!
