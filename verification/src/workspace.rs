//! Virtual desktops: one to six of them in a row, switched left and right
//! with a bounce at either end, named, and holding windows. The slide and
//! bounce animations are the caller's.
use vstd::prelude::*;
use crate::events::ShellEvent;
use crate::chars::{char_vec, decimal, push_decimal};
use crate::text::string_push;

verus! {

pub const MAX_DESKTOPS: usize = 6;
pub const MIN_DESKTOPS: usize = 1;
pub const MAX_NAME_LEN: usize = 24;

/// A desktop with the windows on it.
pub struct VirtualDesktop {
    pub id: usize,
    pub name: String,
    pub window_handles: Vec<u64>,
}

/// The name a desktop gets when it has none of its own.
pub open spec fn default_name(index: nat) -> Seq<char> {
    "Desktop "@ + decimal(index + 1)
}

/// The key of the state-change event for switching to desktop `idx`.
pub open spec fn workspace_key(idx: nat) -> Seq<char> {
    "active_workspace:"@ + decimal(idx)
}

/// The desktop a window is on: the first entry for it, else the first desktop.
pub open spec fn desktop_of(s: Seq<(u64, usize)>, h: u64) -> usize
    decreases s.len(),
{
    if s.len() == 0 {
        0
    } else if s[0].0 == h {
        s[0].1
    } else {
        desktop_of(s.drop_first(), h)
    }
}

/// Index of the entry for window `h` at `k` or later.
pub open spec fn find_window_from(s: Seq<(u64, usize)>, h: u64, k: int) -> Option<int>
    decreases s.len() - k,
{
    if 0 <= k && k < s.len() {
        if s[k].0 == h { Some(k) } else { find_window_from(s, h, k + 1) }
    } else {
        None
    }
}

pub open spec fn find_window(s: Seq<(u64, usize)>, h: u64) -> Option<int> {
    find_window_from(s, h, 0)
}

/// No window handle occurs twice.
pub open spec fn unique_windows(s: Seq<(u64, usize)>) -> bool {
    forall|a: int, b: int| 0 <= a < b < s.len() ==> s[a].0 != s[b].0
}

/// A window's desktop after desktop `idx` is removed: its windows go to the
/// first desktop, those right of it move one left.
pub open spec fn reassigned(d: usize, idx: usize) -> usize {
    if d == idx {
        0
    } else if d > idx {
        (d - 1) as usize
    } else {
        d
    }
}

/// The name a rename gives: the first 24 characters, or the default name
/// when empty.
pub open spec fn renamed(name: Seq<char>, idx: nat) -> Seq<char> {
    if name.len() == 0 {
        default_name(idx)
    } else if name.len() > MAX_NAME_LEN {
        name.subrange(0, MAX_NAME_LEN as int)
    } else {
        name
    }
}

proof fn lemma_find_window_from(s: Seq<(u64, usize)>, h: u64, k: int)
    requires
        0 <= k <= s.len(),
    ensures
        find_window_from(s, h, k) matches Some(i) ==> k <= i < s.len() && s[i].0 == h && forall|j: int|
            k <= j < i ==> s[j].0 != h,
        find_window_from(s, h, k) is None ==> forall|j: int| k <= j < s.len() ==> s[j].0 != h,
    decreases s.len() - k,
{
    if k < s.len() {
        lemma_find_window_from(s, h, k + 1);
    }
}

proof fn lemma_desktop_of(s: Seq<(u64, usize)>, h: u64)
    ensures
        desktop_of(s, h) == (match find_window(s, h) {
            Some(i) => s[i].1,
            None => 0,
        }),
    decreases s.len(),
{
    lemma_find_window_from(s, h, 0);
    if s.len() > 0 {
        lemma_desktop_of(s.drop_first(), h);
        lemma_find_window_from(s.drop_first(), h, 0);
        if s[0].0 != h {
            match find_window(s, h) {
                Some(i) => {
                    assert(s.drop_first()[i - 1] == s[i]);
                    assert forall|j: int| 0 <= j < i - 1 implies s.drop_first()[j].0 != h by {
                        assert(s.drop_first()[j] == s[j + 1]);
                    }
                    match find_window(s.drop_first(), h) {
                        Some(k) => {
                            assert(s[k + 1] == s.drop_first()[k]);
                        },
                        None => {},
                    }
                },
                None => {
                    match find_window(s.drop_first(), h) {
                        Some(k) => {
                            assert(s[k + 1] == s.drop_first()[k]);
                        },
                        None => {},
                    }
                },
            }
        }
    }
}

/// `b` is `a` after a switch one desktop left: at the first desktop it
/// bounces and stays.
pub open spec fn stepped_left(a: VirtualDesktopManager, b: VirtualDesktopManager) -> bool {
    &&& b.wf()
    &&& b.name_seq() == a.name_seq()
    &&& b.assignments() == a.assignments()
    &&& if a.current() == 0 {
        &&& b.is_bounce()
        &&& b.current() == a.current()
        &&& b.previous() == a.previous()
    } else {
        &&& b.is_bounce() == a.is_bounce()
        &&& b.current() == a.current() - 1
        &&& b.previous() == a.current()
    }
}

/// `b` is `a` after a switch one desktop right: at the last desktop it
/// bounces and stays.
pub open spec fn stepped_right(a: VirtualDesktopManager, b: VirtualDesktopManager) -> bool {
    &&& b.wf()
    &&& b.name_seq() == a.name_seq()
    &&& b.assignments() == a.assignments()
    &&& if a.current() >= a.name_seq().len() - 1 {
        &&& b.is_bounce()
        &&& b.current() == a.current()
        &&& b.previous() == a.previous()
    } else {
        &&& b.is_bounce() == a.is_bounce()
        &&& b.current() == a.current() + 1
        &&& b.previous() == a.current()
    }
}

/// A switch right followed by a switch left comes back to the same
/// desktop with the same windows, unless the first one bounced at the last
/// desktop.
pub proof fn desktop_switch_round_trip(a: VirtualDesktopManager, b: VirtualDesktopManager, c: VirtualDesktopManager)
    requires
        a.wf(),
        a.current() < a.name_seq().len() - 1,
        stepped_right(a, b),
        stepped_left(b, c),
    ensures
        c.current() == a.current(),
        c.previous() == a.current() + 1,
        c.name_seq() == a.name_seq(),
        c.assignments() == a.assignments(),
        c.is_bounce() == a.is_bounce(),
{
}

/// Switching never wraps: at either end the desktop stays and bounces.
pub proof fn desktop_switch_never_wraps(a: VirtualDesktopManager, b: VirtualDesktopManager, c: VirtualDesktopManager)
    requires
        a.wf(),
        stepped_right(a, b),
        stepped_left(a, c),
    ensures
        a.current() == a.name_seq().len() - 1 ==> b.current() == a.current() && b.is_bounce(),
        a.current() == 0 ==> c.current() == 0 && c.is_bounce(),
{
}

/// The desktop manager.
pub struct VirtualDesktopManager {
    current_index: usize,
    previous_index: usize,
    names: Vec<String>,
    bouncing: bool,
    window_desktop_map: Vec<(u64, usize)>,
}

impl VirtualDesktopManager {
    pub closed spec fn current(&self) -> usize {
        self.current_index
    }

    /// The desktop shown before the last switch.
    pub closed spec fn previous(&self) -> usize {
        self.previous_index
    }

    pub closed spec fn name_seq(&self) -> Seq<Seq<char>> {
        self.names@.map_values(|n: String| n@)
    }

    pub closed spec fn is_bounce(&self) -> bool {
        self.bouncing
    }

    /// Window assignments (window handle, desktop), one per window.
    pub closed spec fn assignments(&self) -> Seq<(u64, usize)> {
        self.window_desktop_map@
    }

    /// One to six desktops, the current one among them, and at most one
    /// assignment per window.
    pub closed spec fn wf(&self) -> bool {
        &&& MIN_DESKTOPS <= self.names@.len() <= MAX_DESKTOPS
        &&& self.current_index < self.names@.len()
        &&& unique_windows(self.window_desktop_map@)
    }

    /// A well-formed manager has one to six desktops, shows one of them, and
    /// assigns each window at most once.
    pub proof fn wf_bounds(&self)
        requires
            self.wf(),
        ensures
            MIN_DESKTOPS <= self.name_seq().len() <= MAX_DESKTOPS,
            self.current() < self.name_seq().len(),
            unique_windows(self.assignments()),
    {
    }

    /// One desktop, "Desktop 1", shown.
    pub fn new() -> (m: Self)
        ensures
            m.wf(),
            m.current() == 0,
            m.previous() == 0,
            m.name_seq() == seq![default_name(0)],
            !m.is_bounce(),
            m.assignments().len() == 0,
    {
        let mut names: Vec<String> = Vec::new();
        names.push(Self::default_name(0));
        let m = VirtualDesktopManager {
            current_index: 0,
            previous_index: 0,
            names,
            bouncing: false,
            window_desktop_map: Vec::new(),
        };
        assert(m.name_seq() =~= seq![default_name(0)]);
        m
    }

    /// "Desktop N" for the desktop at `index` (N counts from 1).
    fn default_name(index: usize) -> (s: String)
        requires
            index < usize::MAX,
        ensures
            s@ == default_name(index as nat),
    {
        let mut s = String::from_str("Desktop ");
        push_decimal(&mut s, index + 1);
        s
    }

    pub fn current_index(&self) -> (i: usize)
        ensures
            i == self.current(),
    {
        self.current_index
    }

    pub fn previous_index(&self) -> (i: usize)
        ensures
            i == self.previous(),
    {
        self.previous_index
    }

    pub fn count(&self) -> (n: usize)
        ensures
            n == self.name_seq().len(),
    {
        self.names.len()
    }

    pub fn is_bouncing(&self) -> (b: bool)
        ensures
            b == self.is_bounce(),
    {
        self.bouncing
    }

    /// The bounce animation settled.
    pub fn end_bounce(&mut self)
        ensures
            !final(self).is_bounce(),
            final(self).current() == old(self).current(),
            final(self).previous() == old(self).previous(),
            final(self).name_seq() == old(self).name_seq(),
            final(self).assignments() == old(self).assignments(),
            final(self).wf() == old(self).wf(),
    {
        self.bouncing = false;
    }

    pub fn is_at_left_boundary(&self) -> (b: bool)
        ensures
            b == (self.current() == 0),
    {
        self.current_index == 0
    }

    pub fn is_at_right_boundary(&self) -> (b: bool)
        requires
            self.wf(),
        ensures
            b == (self.current() >= self.name_seq().len() - 1),
    {
        self.current_index >= self.names.len() - 1
    }

    fn switched(&mut self, idx: usize) -> (published: ShellEvent)
        requires
            old(self).wf(),
            idx < old(self).names@.len(),
        ensures
            final(self).wf(),
            final(self).current() == idx,
            final(self).previous() == old(self).current(),
            final(self).name_seq() == old(self).name_seq(),
            final(self).is_bounce() == old(self).is_bounce(),
            final(self).assignments() == old(self).assignments(),
            published matches ShellEvent::StateChanged { key } && key@ == workspace_key(idx as nat),
    {
        self.previous_index = self.current_index;
        self.current_index = idx;
        let mut key = String::from_str("active_workspace:");
        push_decimal(&mut key, idx);
        ShellEvent::StateChanged { key }
    }

    /// Slides to desktop `idx`; nothing happens for the current or a
    /// missing desktop. Returns the state change to publish.
    pub fn switch_to(&mut self, idx: usize) -> (published: Option<ShellEvent>)
        requires
            old(self).wf(),
        ensures
            final(self).wf(),
            final(self).name_seq() == old(self).name_seq(),
            final(self).is_bounce() == old(self).is_bounce(),
            final(self).assignments() == old(self).assignments(),
            if idx >= old(self).name_seq().len() || idx == old(self).current() {
                &&& final(self).current() == old(self).current()
                &&& final(self).previous() == old(self).previous()
                &&& published is None
            } else {
                &&& final(self).current() == idx
                &&& final(self).previous() == old(self).current()
                &&& published matches Some(ShellEvent::StateChanged { key }) && key@ == workspace_key(idx as nat)
            },
    {
        if idx >= self.names.len() || idx == self.current_index {
            return None;
        }
        Some(self.switched(idx))
    }

    /// Slides one desktop left; at the first desktop it bounces instead.
    pub fn switch_prev(&mut self) -> (published: Option<ShellEvent>)
        requires
            old(self).wf(),
        ensures
            stepped_left(*old(self), *final(self)),
            if old(self).current() == 0 {
                published is None
            } else {
                published matches Some(ShellEvent::StateChanged { key }) && key@ == workspace_key(
                    (old(self).current() - 1) as nat,
                )
            },
    {
        if self.current_index == 0 {
            self.bouncing = true;
            return None;
        }
        Some(self.switched(self.current_index - 1))
    }

    /// Slides one desktop right; at the last desktop it bounces instead.
    pub fn switch_next(&mut self) -> (published: Option<ShellEvent>)
        requires
            old(self).wf(),
        ensures
            stepped_right(*old(self), *final(self)),
            if old(self).current() >= old(self).name_seq().len() - 1 {
                published is None
            } else {
                published matches Some(ShellEvent::StateChanged { key }) && key@ == workspace_key(
                    (old(self).current() + 1) as nat,
                )
            },
    {
        if self.current_index >= self.names.len() - 1 {
            self.bouncing = true;
            return None;
        }
        Some(self.switched(self.current_index + 1))
    }

    /// Adds a desktop named "Desktop N" at the right end (at most six).
    pub fn add_desktop(&mut self) -> (published: Option<ShellEvent>)
        requires
            old(self).wf(),
        ensures
            final(self).wf(),
            final(self).current() == old(self).current(),
            final(self).previous() == old(self).previous(),
            final(self).is_bounce() == old(self).is_bounce(),
            final(self).assignments() == old(self).assignments(),
            if old(self).name_seq().len() >= MAX_DESKTOPS {
                final(self).name_seq() == old(self).name_seq() && published is None
            } else {
                &&& final(self).name_seq() == old(self).name_seq().push(default_name(old(self).name_seq().len()))
                &&& published matches Some(ShellEvent::StateChanged { key }) && key@ == "desktop_count"@
            },
    {
        if self.names.len() >= MAX_DESKTOPS {
            return None;
        }
        let idx = self.names.len();
        let ghost before = self.names@;
        self.names.push(Self::default_name(idx));
        assert(self.names@.map_values(|n: String| n@) =~= before.map_values(|n: String| n@).push(
            default_name(idx as nat),
        ));
        Some(ShellEvent::StateChanged { key: String::from_str("desktop_count") })
    }

    /// Removes desktop `idx` (never the last one left): its windows move to
    /// the first desktop, those right of it shift left, and the current
    /// desktop stays in range.
    pub fn remove_desktop(&mut self, idx: usize) -> (published: Option<ShellEvent>)
        requires
            old(self).wf(),
        ensures
            final(self).wf(),
            final(self).previous() == old(self).previous(),
            final(self).is_bounce() == old(self).is_bounce(),
            if old(self).name_seq().len() <= MIN_DESKTOPS || idx >= old(self).name_seq().len() {
                &&& final(self).name_seq() == old(self).name_seq()
                &&& final(self).current() == old(self).current()
                &&& final(self).assignments() == old(self).assignments()
                &&& published is None
            } else {
                &&& final(self).name_seq() == old(self).name_seq().remove(idx as int)
                &&& final(self).current() == (if old(self).current() >= old(self).name_seq().len() - 1 {
                    (old(self).name_seq().len() - 2) as usize
                } else {
                    old(self).current()
                })
                &&& final(self).assignments() == old(self).assignments().map_values(
                    |e: (u64, usize)| (e.0, reassigned(e.1, idx)),
                )
                &&& final(self).assignments().len() == old(self).assignments().len()
                &&& forall|k: int| 0 <= k < old(self).assignments().len() ==> {
                    let e = #[trigger] old(self).assignments()[k];
                    let f = final(self).assignments()[k];
                    &&& f.0 == e.0
                    &&& e.1 == idx ==> f.1 == 0
                    &&& e.1 > idx ==> f.1 == e.1 - 1
                    &&& e.1 < idx ==> f.1 == e.1
                }
                &&& published matches Some(ShellEvent::StateChanged { key }) && key@ == "desktop_count"@
            },
    {
        if self.names.len() <= MIN_DESKTOPS || idx >= self.names.len() {
            return None;
        }
        let mut i: usize = 0;
        while i < self.window_desktop_map.len()
            invariant
                0 <= i <= self.window_desktop_map@.len(),
                self.window_desktop_map@.len() == old(self).window_desktop_map@.len(),
                forall|j: int| 0 <= j < i ==> #[trigger] self.window_desktop_map@[j] == (
                    old(self).window_desktop_map@[j].0,
                    reassigned(old(self).window_desktop_map@[j].1, idx),
                ),
                forall|j: int| i <= j < self.window_desktop_map@.len() ==> #[trigger] self.window_desktop_map@[j]
                    == old(self).window_desktop_map@[j],
                self.names == old(self).names,
                self.current_index == old(self).current_index,
                self.previous_index == old(self).previous_index,
                self.bouncing == old(self).bouncing,
            decreases self.window_desktop_map@.len() - i,
        {
            let (h, d) = self.window_desktop_map[i];
            if d == idx {
                self.window_desktop_map.set(i, (h, 0));
            } else if d > idx {
                self.window_desktop_map.set(i, (h, d - 1));
            }
            i = i + 1;
        }
        assert(self.window_desktop_map@ =~= old(self).window_desktop_map@.map_values(
            |e: (u64, usize)| (e.0, reassigned(e.1, idx)),
        ));
        let ghost before = self.names@;
        self.names.remove(idx);
        assert(self.names@.map_values(|n: String| n@) =~= before.map_values(|n: String| n@).remove(idx as int));
        if self.current_index >= self.names.len() {
            self.current_index = self.names.len() - 1;
        }
        Some(ShellEvent::StateChanged { key: String::from_str("desktop_count") })
    }

    /// Renames desktop `idx` to the first 24 characters of `name`; an empty
    /// name gives back the default one.
    pub fn rename_desktop(&mut self, idx: usize, name: &str)
        requires
            old(self).wf(),
        ensures
            final(self).wf(),
            final(self).current() == old(self).current(),
            final(self).previous() == old(self).previous(),
            final(self).is_bounce() == old(self).is_bounce(),
            final(self).assignments() == old(self).assignments(),
            final(self).name_seq() == (if idx < old(self).name_seq().len() {
                old(self).name_seq().update(idx as int, renamed(name@, idx as nat))
            } else {
                old(self).name_seq()
            }),
    {
        if idx >= self.names.len() {
            return;
        }
        let chars = char_vec(name);
        let new_name = if chars.len() == 0 {
            Self::default_name(idx)
        } else {
            let mut s = String::new();
            let mut k: usize = 0;
            while k < chars.len() && k < MAX_NAME_LEN
                invariant
                    0 <= k <= chars@.len(),
                    k <= MAX_NAME_LEN,
                    s@ == chars@.subrange(0, k as int),
                decreases chars@.len() - k,
            {
                string_push(&mut s, chars[k]);
                k = k + 1;
                assert(s@ =~= chars@.subrange(0, k as int));
            }
            assert(chars@.len() <= MAX_NAME_LEN ==> chars@.subrange(0, k as int) =~= chars@);
            s
        };
        let ghost before = self.names@;
        self.names.set(idx, new_name);
        assert(self.names@.map_values(|n: String| n@) =~= before.map_values(|n: String| n@).update(
            idx as int,
            renamed(name@, idx as nat),
        ));
    }

    /// The name of desktop `idx`, or its default name when there is none.
    pub fn name_for_desktop(&self, idx: usize) -> (s: String)
        requires
            idx < usize::MAX,
        ensures
            s@ == (if idx < self.name_seq().len() { self.name_seq()[idx as int] } else { default_name(idx as nat) }),
    {
        if idx < self.names.len() {
            self.names[idx].clone()
        } else {
            Self::default_name(idx)
        }
    }

    fn position(&self, window_handle: u64) -> (r: Option<usize>)
        ensures
            r matches Some(i) ==> find_window(self.window_desktop_map@, window_handle) == Some(i as int) && i
                < self.window_desktop_map@.len(),
            r is None ==> find_window(self.window_desktop_map@, window_handle) is None,
    {
        let mut i: usize = 0;
        while i < self.window_desktop_map.len()
            invariant
                0 <= i <= self.window_desktop_map@.len(),
                find_window(self.window_desktop_map@, window_handle) == find_window_from(
                    self.window_desktop_map@,
                    window_handle,
                    i as int,
                ),
            decreases self.window_desktop_map@.len() - i,
        {
            if self.window_desktop_map[i].0 == window_handle {
                return Some(i);
            }
            i = i + 1;
        }
        None
    }

    /// Puts a window on desktop `desktop_idx`.
    pub fn assign_window(&mut self, window_handle: u64, desktop_idx: usize)
        requires
            old(self).wf(),
        ensures
            final(self).wf(),
            final(self).current() == old(self).current(),
            final(self).previous() == old(self).previous(),
            final(self).name_seq() == old(self).name_seq(),
            final(self).is_bounce() == old(self).is_bounce(),
            final(self).assignments() == (match find_window(old(self).assignments(), window_handle) {
                Some(i) => old(self).assignments().update(i, (window_handle, desktop_idx)),
                None => old(self).assignments().push((window_handle, desktop_idx)),
            }),
    {
        proof {
            lemma_find_window_from(self.window_desktop_map@, window_handle, 0);
        }
        match self.position(window_handle) {
            Some(i) => self.window_desktop_map.set(i, (window_handle, desktop_idx)),
            None => self.window_desktop_map.push((window_handle, desktop_idx)),
        }
    }

    /// The desktop a window is on (the first one when unassigned).
    pub fn desktop_for_window(&self, window_handle: u64) -> (d: usize)
        ensures
            d == desktop_of(self.assignments(), window_handle),
    {
        proof {
            lemma_desktop_of(self.window_desktop_map@, window_handle);
            lemma_find_window_from(self.window_desktop_map@, window_handle, 0);
        }
        match self.position(window_handle) {
            Some(i) => self.window_desktop_map[i].1,
            None => 0,
        }
    }

    /// The window is on the desktop shown.
    pub fn window_visible_on_current(&self, window_handle: u64) -> (b: bool)
        ensures
            b == (desktop_of(self.assignments(), window_handle) == self.current()),
    {
        self.desktop_for_window(window_handle) == self.current_index
    }
}

proof fn lemma_find_window_same_handles(s: Seq<(u64, usize)>, t: Seq<(u64, usize)>, h: u64, k: int)
    requires
        s.len() == t.len(),
        forall|j: int| 0 <= j < s.len() ==> #[trigger] s[j].0 == t[j].0,
    ensures
        find_window_from(s, h, k) == find_window_from(t, h, k),
    decreases s.len() - k,
{
    if 0 <= k < s.len() {
        assert(s[k].0 == t[k].0);
        lemma_find_window_same_handles(s, t, h, k + 1);
    }
}

/// Removing desktop `idx` sends the windows that were on it to the first
/// desktop, moves those right of it one desktop left, and leaves those left
/// of it where they were; `t` is the assignments after the removal.
pub proof fn removed_desktop_windows_go_first(s: Seq<(u64, usize)>, t: Seq<(u64, usize)>, idx: usize, h: u64)
    requires
        t == s.map_values(|e: (u64, usize)| (e.0, reassigned(e.1, idx))),
    ensures
        desktop_of(s, h) == idx ==> desktop_of(t, h) == 0,
        desktop_of(s, h) > idx ==> desktop_of(t, h) == desktop_of(s, h) - 1,
        desktop_of(s, h) < idx ==> desktop_of(t, h) == desktop_of(s, h),
{
    lemma_find_window_same_handles(s, t, h, 0);
    lemma_desktop_of(s, h);
    lemma_desktop_of(t, h);
    lemma_find_window_from(s, h, 0);
    if let Some(i) = find_window(s, h) {
        assert(t[i] == (s[i].0, reassigned(s[i].1, idx)));
    }
}

/// A window put on a desktop is found there.
pub proof fn assigned_window_found(s: Seq<(u64, usize)>, h: u64, d: usize)
    ensures
        desktop_of(
            match find_window(s, h) {
                Some(i) => s.update(i, (h, d)),
                None => s.push((h, d)),
            },
            h,
        ) == d,
{
    lemma_find_window_from(s, h, 0);
    let t = match find_window(s, h) {
        Some(i) => s.update(i, (h, d)),
        None => s.push((h, d)),
    };
    lemma_desktop_of(t, h);
    lemma_find_window_from(t, h, 0);
    match find_window(s, h) {
        Some(i) => {
            match find_window(t, h) {
                Some(k) => {
                    if k < i {
                        assert(t[k] == s[k]);
                    } else if k > i {
                        assert(t[i].0 == h);
                    }
                },
                None => {
                    assert(t[i].0 == h);
                },
            }
        },
        None => {
            match find_window(t, h) {
                Some(k) => {
                    if k < s.len() {
                        assert(t[k] == s[k]);
                    }
                },
                None => {
                    assert(t[s.len() as int].0 == h);
                },
            }
        },
    }
}

} // verus!
