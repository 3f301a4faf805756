//! A compositor window: identity, focus, visibility, minimize and fullscreen
//! state. Geometry and animation springs are not modelled here.
use vstd::prelude::*;
use crate::chars::char_vec;
use crate::text::string_push;

verus! {

/// Appended to a title cut short.
pub const TITLE_TRUNCATE_SUFFIX: &'static str = "...";

/// The title bar text for `title` when `room` characters fit (`None`: no
/// room at all): the whole title when it fits, else its first `room - 3`
/// characters followed by "...".
pub open spec fn truncated(title: Seq<char>, room: Option<usize>) -> Seq<char> {
    match room {
        None => Seq::empty(),
        Some(m) => if title.len() == 0 {
            Seq::empty()
        } else if title.len() <= m {
            title
        } else {
            title.subrange(0, if m >= 3 { m - 3 } else { 0 }) + "..."@
        },
    }
}

pub struct AEWindow {
    pub handle: u64,
    pub title: String,
    pub app_id: String,
    pub is_focused: bool,
    pub is_visible: bool,
    pub is_minimized: bool,
    pub is_fullscreen_active: bool,
}

impl AEWindow {
    /// A new window is visible, focused, neither minimized nor fullscreen.
    pub fn new(handle: u64, title: &str, app_id: &str) -> (w: Self)
        ensures
            w.handle == handle,
            w.title@ == title@,
            w.app_id@ == app_id@,
            w.is_focused,
            w.is_visible,
            !w.is_minimized,
            !w.is_fullscreen_active,
    {
        AEWindow {
            handle,
            title: title.to_owned(),
            app_id: app_id.to_owned(),
            is_focused: true,
            is_visible: true,
            is_minimized: false,
            is_fullscreen_active: false,
        }
    }

    /// Expands to fill the output; the window becomes visible.
    pub fn enter_fullscreen(&mut self)
        ensures
            *final(self) == (if old(self).is_fullscreen_active {
                *old(self)
            } else {
                AEWindow { is_fullscreen_active: true, is_visible: true, ..*old(self) }
            }),
    {
        if self.is_fullscreen_active {
            return;
        }
        self.is_fullscreen_active = true;
        self.is_visible = true;
    }

    /// Returns to the geometry it had before fullscreen.
    pub fn exit_fullscreen(&mut self)
        ensures
            *final(self) == (AEWindow { is_fullscreen_active: false, ..*old(self) }),
    {
        if !self.is_fullscreen_active {
            return;
        }
        self.is_fullscreen_active = false;
    }

    pub fn is_fullscreen(&self) -> (b: bool)
        ensures
            b == self.is_fullscreen_active,
    {
        self.is_fullscreen_active
    }

    /// Springs toward the Dock icon and hides.
    pub fn minimize(&mut self)
        ensures
            *final(self) == (AEWindow { is_minimized: true, ..*old(self) }),
    {
        if self.is_minimized {
            return;
        }
        self.is_minimized = true;
    }

    /// Springs back from the Dock to where it was minimized from.
    pub fn restore(&mut self)
        ensures
            *final(self) == (AEWindow { is_minimized: false, ..*old(self) }),
    {
        if !self.is_minimized {
            return;
        }
        self.is_minimized = false;
    }

    /// The title as the title bar shows it, `room` characters wide (the
    /// caller measures the bar; `None` when nothing fits).
    pub fn truncated_title(&self, room: Option<usize>) -> (t: String)
        ensures
            t@ == truncated(self.title@, room),
    {
        let m = match room {
            None => {
                return String::new();
            },
            Some(m) => m,
        };
        let chars = char_vec(self.title.as_str());
        if chars.len() == 0 {
            return String::new();
        }
        if chars.len() <= m {
            let t = self.title.clone();
            return t;
        }
        let keep = if m >= 3 { m - 3 } else { 0 };
        let mut out = String::new();
        let mut i: usize = 0;
        while i < keep
            invariant
                0 <= i <= keep,
                keep < chars@.len(),
                out@ == chars@.subrange(0, i as int),
            decreases keep - i,
        {
            string_push(&mut out, chars[i]);
            i = i + 1;
            assert(out@ =~= chars@.subrange(0, i as int));
        }
        let ghost body = out@;
        string_push(&mut out, '.');
        string_push(&mut out, '.');
        string_push(&mut out, '.');
        proof {
            reveal_strlit("...");
            assert(out@ =~= body + "..."@);
        }
        out
    }

    /// Drawn this frame: visible and not minimized.
    pub fn is_renderable(&self) -> (b: bool)
        ensures
            b == (self.is_visible && !self.is_minimized),
    {
        self.is_visible && !self.is_minimized
    }
}

} // verus!
