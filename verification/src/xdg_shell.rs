//! XDG toplevel windows: the configure/acknowledge/commit lifecycle that
//! makes a window drawable, and the focus stack. Window geometry (the
//! cascade placement and configured size) is the caller's.
use vstd::prelude::*;

verus! {

/// A client window.
pub struct XdgToplevelSurface {
    pub surface_id: u32,
    /// Shown in the Panel; starts as the app id.
    pub title: String,
    pub app_id: String,
    /// The client acknowledged the latest configure.
    pub configure_acked: bool,
    /// The client committed a buffer.
    pub has_committed_buffer: bool,
    pub is_focused: bool,
    pub is_maximized: bool,
    pub is_fullscreen: bool,
    pub is_minimized: bool,
}

/// Drawn this frame: configured, with a buffer, not minimized.
pub open spec fn xdg_renderable(s: XdgToplevelSurface) -> bool {
    s.configure_acked && s.has_committed_buffer && !s.is_minimized
}

impl XdgToplevelSurface {
    pub fn new(surface_id: u32, app_id: &str) -> (s: Self)
        ensures
            s.surface_id == surface_id,
            s.title@ == app_id@,
            s.app_id@ == app_id@,
            !s.configure_acked && !s.has_committed_buffer,
            !s.is_focused && !s.is_maximized && !s.is_fullscreen && !s.is_minimized,
    {
        XdgToplevelSurface {
            surface_id,
            title: app_id.to_owned(),
            app_id: app_id.to_owned(),
            configure_acked: false,
            has_committed_buffer: false,
            is_focused: false,
            is_maximized: false,
            is_fullscreen: false,
            is_minimized: false,
        }
    }

    /// A configure with serial `serial` (and a new size) went out: it is
    /// not acknowledged yet.
    pub fn send_configure(&mut self, serial: u32)
        ensures
            *final(self) == (XdgToplevelSurface { configure_acked: false, ..*old(self) }),
    {
        self.configure_acked = false;
    }

    /// The client acknowledged configure `serial`.
    pub fn ack_configure(&mut self, serial: u32)
        ensures
            *final(self) == (XdgToplevelSurface { configure_acked: true, ..*old(self) }),
    {
        self.configure_acked = true;
    }

    /// The client committed a buffer.
    pub fn commit_buffer(&mut self)
        ensures
            *final(self) == (XdgToplevelSurface { has_committed_buffer: true, ..*old(self) }),
    {
        self.has_committed_buffer = true;
    }

    pub fn is_renderable(&self) -> (b: bool)
        ensures
            b == xdg_renderable(*self),
    {
        self.configure_acked && self.has_committed_buffer && !self.is_minimized
    }
}

/// Ids other than `id`.
pub open spec fn other_id(id: u32) -> spec_fn(u32) -> bool {
    |x: u32| x != id
}

/// The focus stack with `id` moved (or added) to the top.
pub open spec fn focus_stack_after(stack: Seq<u32>, id: u32) -> Seq<u32> {
    stack.filter(other_id(id)).push(id)
}

/// The windows, with exactly those of id `id` marked focused.
pub open spec fn focus_marks(s: Seq<XdgToplevelSurface>, id: u32) -> Seq<XdgToplevelSurface> {
    s.map_values(|w: XdgToplevelSurface| XdgToplevelSurface { is_focused: w.surface_id == id, ..w })
}

/// Index of the first window with `id` at `k` or later.
pub open spec fn find_toplevel_from(s: Seq<XdgToplevelSurface>, id: u32, k: int) -> Option<int>
    decreases s.len() - k,
{
    if 0 <= k && k < s.len() {
        if s[k].surface_id == id { Some(k) } else { find_toplevel_from(s, id, k + 1) }
    } else {
        None
    }
}

/// The windows and their focus order.
pub struct XdgShellState {
    pub surfaces: Vec<XdgToplevelSurface>,
    /// Surface ids, last = frontmost.
    pub focus_stack: Vec<u32>,
    pub configure_serial: u32,
}

impl XdgShellState {
    pub fn new() -> (s: Self)
        ensures
            s.surfaces@.len() == 0,
            s.focus_stack@.len() == 0,
            s.configure_serial == 1,
    {
        XdgShellState { surfaces: Vec::new(), focus_stack: Vec::new(), configure_serial: 1 }
    }

    /// A client made a toplevel: it gets the next serial as its id, a
    /// configure goes out, and it takes focus. Returns its id.
    pub fn create_toplevel(&mut self, app_id: &str) -> (id: u32)
        requires
            old(self).configure_serial < u32::MAX,
        ensures
            id == old(self).configure_serial,
            final(self).configure_serial == old(self).configure_serial + 1,
            final(self).surfaces@.len() == old(self).surfaces@.len() + 1,
            final(self).surfaces@.drop_last() == focus_marks(old(self).surfaces@, id),
            final(self).surfaces@.last().surface_id == id,
            final(self).surfaces@.last().app_id@ == app_id@,
            final(self).surfaces@.last().title@ == app_id@,
            final(self).surfaces@.last().is_focused,
            !final(self).surfaces@.last().configure_acked,
            !final(self).surfaces@.last().has_committed_buffer,
            !final(self).surfaces@.last().is_minimized,
            !final(self).surfaces@.last().is_maximized,
            !final(self).surfaces@.last().is_fullscreen,
            final(self).focus_stack@ == focus_stack_after(old(self).focus_stack@, id),
    {
        let surface_id = self.configure_serial;
        let mut surface = XdgToplevelSurface::new(surface_id, app_id);
        let serial = self.configure_serial;
        self.configure_serial = self.configure_serial + 1;
        surface.send_configure(serial);
        self.surfaces.push(surface);
        let ghost pushed = self.surfaces@;
        self.focus(surface_id);
        assert(self.surfaces@.drop_last() =~= focus_marks(old(self).surfaces@, surface_id));
        surface_id
    }

    /// Raises `surface_id` to the top of the focus stack; it alone is
    /// marked focused.
    pub fn focus(&mut self, surface_id: u32)
        ensures
            final(self).configure_serial == old(self).configure_serial,
            final(self).focus_stack@ == focus_stack_after(old(self).focus_stack@, surface_id),
            final(self).surfaces@ == focus_marks(old(self).surfaces@, surface_id),
    {
        let ghost p = other_id(surface_id);
        let mut kept: Vec<u32> = Vec::new();
        let mut i: usize = 0;
        while i < self.focus_stack.len()
            invariant
                0 <= i <= self.focus_stack@.len(),
                self.focus_stack == old(self).focus_stack,
                self.surfaces == old(self).surfaces,
                self.configure_serial == old(self).configure_serial,
                p == other_id(surface_id),
                kept@ == self.focus_stack@.subrange(0, i as int).filter(p),
            decreases self.focus_stack@.len() - i,
        {
            proof {
                reveal_with_fuel(Seq::filter, 1);
                assert(self.focus_stack@.subrange(0, i + 1).drop_last() =~= self.focus_stack@.subrange(0, i as int));
            }
            if self.focus_stack[i] != surface_id {
                kept.push(self.focus_stack[i]);
            }
            i = i + 1;
        }
        assert(self.focus_stack@.subrange(0, i as int) =~= self.focus_stack@);
        kept.push(surface_id);
        self.focus_stack = kept;
        let mut k: usize = 0;
        while k < self.surfaces.len()
            invariant
                0 <= k <= self.surfaces@.len(),
                self.surfaces@.len() == old(self).surfaces@.len(),
                self.configure_serial == old(self).configure_serial,
                self.focus_stack@ == focus_stack_after(old(self).focus_stack@, surface_id),
                forall|j: int| 0 <= j < k ==> #[trigger] self.surfaces@[j] == (XdgToplevelSurface {
                    is_focused: old(self).surfaces@[j].surface_id == surface_id,
                    ..old(self).surfaces@[j]
                }),
                forall|j: int| k <= j < self.surfaces@.len() ==> #[trigger] self.surfaces@[j] == old(self).surfaces@[j],
            decreases self.surfaces@.len() - k,
        {
            let focused = self.surfaces[k].surface_id == surface_id;
            self.surfaces[k].is_focused = focused;
            k = k + 1;
        }
        assert(self.surfaces@ =~= focus_marks(old(self).surfaces@, surface_id));
    }

    /// A toplevel went away: it leaves the windows and the focus stack.
    pub fn destroy_toplevel(&mut self, surface_id: u32)
        ensures
            final(self).configure_serial == old(self).configure_serial,
            final(self).surfaces@ == old(self).surfaces@.filter(|s: XdgToplevelSurface| s.surface_id != surface_id),
            final(self).focus_stack@ == old(self).focus_stack@.filter(other_id(surface_id)),
    {
        let ghost ps = |s: XdgToplevelSurface| s.surface_id != surface_id;
        let ghost pf = other_id(surface_id);
        let mut rest: Vec<XdgToplevelSurface> = Vec::new();
        std::mem::swap(&mut rest, &mut self.surfaces);
        let ghost all = rest@;
        let mut kept: Vec<XdgToplevelSurface> = Vec::new();
        let ghost mut i: int = 0;
        while rest.len() > 0
            invariant
                0 <= i <= all.len(),
                all == old(self).surfaces@,
                rest@ == all.subrange(i, all.len() as int),
                ps == (|s: XdgToplevelSurface| s.surface_id != surface_id),
                kept@ == all.subrange(0, i).filter(ps),
                self.focus_stack == old(self).focus_stack,
                self.configure_serial == old(self).configure_serial,
            decreases rest@.len(),
        {
            proof {
                reveal_with_fuel(Seq::filter, 1);
                assert(all.subrange(0, i + 1).drop_last() =~= all.subrange(0, i));
            }
            let s = rest.remove(0);
            proof {
                assert(s == all[i]);
            }
            if s.surface_id != surface_id {
                kept.push(s);
            }
            proof {
                i = i + 1;
                assert(rest@ =~= all.subrange(i, all.len() as int));
            }
        }
        assert(all.subrange(0, i) =~= all);
        self.surfaces = kept;
        let mut stack: Vec<u32> = Vec::new();
        let mut j: usize = 0;
        while j < self.focus_stack.len()
            invariant
                0 <= j <= self.focus_stack@.len(),
                self.focus_stack == old(self).focus_stack,
                self.configure_serial == old(self).configure_serial,
                self.surfaces@ == old(self).surfaces@.filter(ps),
                ps == (|s: XdgToplevelSurface| s.surface_id != surface_id),
                pf == other_id(surface_id),
                stack@ == self.focus_stack@.subrange(0, j as int).filter(pf),
            decreases self.focus_stack@.len() - j,
        {
            proof {
                reveal_with_fuel(Seq::filter, 1);
                assert(self.focus_stack@.subrange(0, j + 1).drop_last() =~= self.focus_stack@.subrange(0, j as int));
            }
            if self.focus_stack[j] != surface_id {
                stack.push(self.focus_stack[j]);
            }
            j = j + 1;
        }
        assert(self.focus_stack@.subrange(0, j as int) =~= self.focus_stack@);
        self.focus_stack = stack;
    }

    /// The window at the top of the focus stack, if it still exists.
    pub fn focused(&self) -> (r: Option<&XdgToplevelSurface>)
        ensures
            r == (if self.focus_stack@.len() == 0 {
                None
            } else {
                match find_toplevel_from(self.surfaces@, self.focus_stack@.last(), 0) {
                    Some(i) => Some(&self.surfaces@[i]),
                    None => None,
                }
            }),
    {
        let n = self.focus_stack.len();
        if n == 0 {
            return None;
        }
        let id = self.focus_stack[n - 1];
        let mut i: usize = 0;
        while i < self.surfaces.len()
            invariant
                0 <= i <= self.surfaces@.len(),
                n == self.focus_stack@.len(),
                n > 0,
                id == self.focus_stack@.last(),
                find_toplevel_from(self.surfaces@, id, 0) == find_toplevel_from(self.surfaces@, id, i as int),
            decreases self.surfaces@.len() - i,
        {
            if self.surfaces[i].surface_id == id {
                return Some(&self.surfaces[i]);
            }
            i = i + 1;
        }
        None
    }
}

/// After focusing a window it is on top of the focus stack, exactly once.
pub proof fn focus_puts_on_top(stack: Seq<u32>, id: u32)
    ensures
        focus_stack_after(stack, id).last() == id,
        forall|k: int|
            0 <= k < focus_stack_after(stack, id).len() - 1 ==> #[trigger] focus_stack_after(stack, id)[k] != id,
{
    let f = stack.filter(other_id(id));
    assert forall|k: int| 0 <= k < f.len() implies #[trigger] f[k] != id by {
        stack.lemma_filter_pred(other_id(id), k);
    }
    assert forall|k: int| 0 <= k < focus_stack_after(stack, id).len() - 1 implies #[trigger] focus_stack_after(stack, id)[k] != id by {
        assert(focus_stack_after(stack, id)[k] == f[k]);
    }
}

} // verus!
