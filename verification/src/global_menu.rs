//! Global menu bar in the Panel with keyboard navigation (F10 / Alt).
//!
//! State machine:
//!   INACTIVE  --activate-->  ACTIVE (first selectable top item highlighted)
//!   ACTIVE        + Right/Left  -> next/previous selectable top item (wrapping)
//!   ACTIVE        + Down/Enter  -> open the highlighted item's submenu
//!   OPEN_SUBMENU  + Down/Up     -> next/previous selectable submenu item (wrapping)
//!   OPEN_SUBMENU  + Right/Left  -> submenu of the next/previous top item
//!   OPEN_SUBMENU  + Enter       -> activate the highlighted item, deactivate
//!   OPEN_SUBMENU  + Esc         -> close the submenu, back to ACTIVE
//!   ACTIVE        + Esc         -> INACTIVE
//!   OPEN_SUBMENU  + letter      -> next selectable item whose label starts with it
use vstd::prelude::*;
use crate::keysym::{XK_ESCAPE, XK_RETURN, XK_LEFT, XK_UP, XK_RIGHT, XK_DOWN, is_ascii_letter_code, ascii_lower_code};
use crate::text::{lowercase_of, str_to_lowercase};
use crate::panel::Panel;
use vstd::arithmetic::div_mod::{
    lemma_add_mod_noop,
    lemma_add_mod_noop_right,
    lemma_small_mod,
    lemma_mod_add_multiples_vanish,
};

verus! {

/// One entry of an application menu (dbusmenu layout).
pub struct MenuItem {
    pub label: String,
    pub shortcut: Option<String>,
    pub is_separator: bool,
    pub is_enabled: bool,
    pub is_checked: bool,
    pub is_radio: bool,
    pub sub_items: Vec<MenuItem>,
}

/// What keyboard navigation reads of a menu entry.
pub struct NavItem {
    pub separator: bool,
    pub enabled: bool,
    pub has_children: bool,
    pub label: Seq<char>,
}

pub open spec fn nav_of(item: MenuItem) -> NavItem {
    NavItem {
        separator: item.is_separator,
        enabled: item.is_enabled,
        has_children: item.sub_items@.len() > 0,
        label: item.label@,
    }
}

pub open spec fn navs(s: Seq<MenuItem>) -> Seq<NavItem> {
    s.map_values(|i: MenuItem| nav_of(i))
}

/// An entry that keyboard and pointer may highlight.
pub open spec fn selectable(e: NavItem) -> bool {
    !e.separator && e.enabled
}

/// Its lowercased label starts with the character of code `code`.
pub open spec fn starts_with_code(label: Seq<char>, code: u32) -> bool {
    lowercase_of(label).len() > 0 && lowercase_of(label)[0] as u32 == code
}

/// Index reached `k` steps forward from `from` in a ring of `n` entries.
pub open spec fn fwd(from: usize, k: int, n: int) -> usize {
    ((from + k) % n) as usize
}

/// Index reached `k` steps backward from `from` in a ring of `n` entries.
pub open spec fn bwd(from: usize, k: int, n: int) -> usize {
    ((from + n - k) % n) as usize
}

/// First entry satisfying `p` at `k, k+1, ..., n` steps forward of `from`.
pub open spec fn search_fwd(s: Seq<NavItem>, from: usize, k: int, p: spec_fn(NavItem) -> bool) -> Option<usize>
    decreases s.len() + 1 - k,
{
    if 1 <= k && k <= s.len() {
        if p(s[fwd(from, k, s.len() as int) as int]) {
            Some(fwd(from, k, s.len() as int))
        } else {
            search_fwd(s, from, k + 1, p)
        }
    } else {
        None
    }
}

/// First selectable entry at `k, k+1, ..., n` steps backward of `from`.
pub open spec fn search_bwd(s: Seq<NavItem>, from: usize, k: int) -> Option<usize>
    decreases s.len() + 1 - k,
{
    if 1 <= k && k <= s.len() {
        if selectable(s[bwd(from, k, s.len() as int) as int]) {
            Some(bwd(from, k, s.len() as int))
        } else {
            search_bwd(s, from, k + 1)
        }
    } else {
        None
    }
}

/// First selectable entry at index `k` or later.
pub open spec fn search_from(s: Seq<NavItem>, k: int) -> Option<usize>
    decreases s.len() - k,
{
    if 0 <= k && k < s.len() {
        if selectable(s[k]) {
            Some(k as usize)
        } else {
            search_from(s, k + 1)
        }
    } else {
        None
    }
}

pub open spec fn next_sel(s: Seq<NavItem>, from: usize) -> Option<usize> {
    search_fwd(s, from, 1, |e: NavItem| selectable(e))
}

pub open spec fn prev_sel(s: Seq<NavItem>, from: usize) -> Option<usize> {
    search_bwd(s, from, 1)
}

pub open spec fn first_sel(s: Seq<NavItem>) -> Option<usize> {
    search_from(s, 0)
}

pub open spec fn letter_sel(s: Seq<NavItem>, from: usize, code: u32) -> Option<usize> {
    search_fwd(s, from, 1, |e: NavItem| selectable(e) && starts_with_code(e.label, code))
}

proof fn lemma_search_fwd(s: Seq<NavItem>, from: usize, k: int, p: spec_fn(NavItem) -> bool)
    requires
        s.len() > 0,
        1 <= k,
    ensures
        search_fwd(s, from, k, p) matches Some(j) ==> j < s.len() && p(s[j as int]),
    decreases s.len() + 1 - k,
{
    if k <= s.len() {
        let n = s.len() as int;
        assert(0 <= (from + k) % n < n) by {
            vstd::arithmetic::div_mod::lemma_mod_bound(from + k, n);
        }
        lemma_search_fwd(s, from, k + 1, p);
    }
}

proof fn lemma_search_bwd(s: Seq<NavItem>, from: usize, k: int)
    requires
        s.len() > 0,
        1 <= k,
    ensures
        search_bwd(s, from, k) matches Some(j) ==> j < s.len() && selectable(s[j as int]),
    decreases s.len() + 1 - k,
{
    if k <= s.len() {
        let n = s.len() as int;
        assert(0 <= (from + n - k) % n < n) by {
            vstd::arithmetic::div_mod::lemma_mod_bound(from + n - k, n);
        }
        lemma_search_bwd(s, from, k + 1);
    }
}

proof fn lemma_search_from(s: Seq<NavItem>, k: int)
    requires
        0 <= k,
        s.len() <= usize::MAX,
    ensures
        search_from(s, k) matches Some(j) ==> j < s.len() && selectable(s[j as int]),
    decreases s.len() - k,
{
    if k < s.len() {
        lemma_search_from(s, k + 1);
    }
}

/// Keyboard navigation only ever lands on a selectable entry (not a
/// separator, enabled): moving right or left, taking the first entry, or
/// jumping by letter, whose label then starts with that letter.
pub proof fn navigation_lands_on_selectable(s: Seq<NavItem>, from: usize, code: u32)
    requires
        s.len() <= usize::MAX,
    ensures
        next_sel(s, from) matches Some(j) ==> j < s.len() && selectable(s[j as int]),
        prev_sel(s, from) matches Some(j) ==> j < s.len() && selectable(s[j as int]),
        first_sel(s) matches Some(j) ==> j < s.len() && selectable(s[j as int]),
        letter_sel(s, from, code) matches Some(j) ==> j < s.len() && selectable(s[j as int]) && starts_with_code(
            s[j as int].label,
            code,
        ),
{
    lemma_search_from(s, 0);
    if s.len() > 0 {
        lemma_search_fwd(s, from, 1, |e: NavItem| selectable(e));
        lemma_search_bwd(s, from, 1);
        lemma_search_fwd(s, from, 1, |e: NavItem| selectable(e) && starts_with_code(e.label, code));
    }
}

/// Keyboard navigation state.
#[derive(PartialEq, Eq, Structural, Clone, Copy, Debug)]
pub enum MenuNavState {
    /// Menu bar not active; keys pass through to the application.
    Inactive,
    /// Keyboard navigation active on the top bar.
    Active,
    /// A submenu is open and navigated by keyboard.
    OpenSubmenu,
}

/// The submenu that is currently open.
pub struct OpenSubmenu {
    pub parent_index: usize,
    pub items: Vec<MenuItem>,
    pub hover_index: Option<usize>,
}

pub struct GlobalMenu {
    pub items: Vec<MenuItem>,
    pub app_name: String,
    pub has_menu: bool,
    pub nav_state: MenuNavState,
    pub kb_top_index: Option<usize>,
    pub hover_top_index: Option<usize>,
    pub open_submenu: Option<OpenSubmenu>,
}

/// The open submenu as navigation sees it.
pub struct SubmenuModel {
    pub parent: usize,
    pub entries: Seq<NavItem>,
    pub hover: Option<usize>,
}

/// The navigation state of a `GlobalMenu`.
pub struct MenuModel {
    pub nav: MenuNavState,
    pub kb: Option<usize>,
    pub hover_top: Option<usize>,
    pub sub: Option<SubmenuModel>,
}

pub open spec fn deactivated() -> MenuModel {
    MenuModel { nav: MenuNavState::Inactive, kb: None, hover_top: None, sub: None }
}

pub open spec fn close_sub(m: MenuModel) -> MenuModel {
    MenuModel {
        nav: if m.nav == MenuNavState::OpenSubmenu { MenuNavState::Active } else { m.nav },
        sub: None,
        ..m
    }
}

pub open spec fn open_sub(m: MenuModel, tops: Seq<MenuItem>, idx: usize) -> MenuModel {
    if idx >= tops.len() || tops[idx as int].sub_items@.len() == 0 {
        m
    } else {
        let e = navs(tops[idx as int].sub_items@);
        MenuModel {
            nav: MenuNavState::OpenSubmenu,
            sub: Some(SubmenuModel { parent: idx, entries: e, hover: first_sel(e) }),
            ..m
        }
    }
}

/// Moves the keyboard highlight to `k` (the hover highlight follows).
pub open spec fn with_kb(m: MenuModel, k: Option<usize>) -> MenuModel {
    MenuModel { kb: k, hover_top: k, ..m }
}

pub open spec fn with_sub_hover(m: MenuModel, h: usize) -> MenuModel {
    MenuModel { sub: Some(SubmenuModel { hover: Some(h), ..m.sub.unwrap() }), ..m }
}

/// The highlighted submenu entry has children of its own.
pub open spec fn hovers_nested(m: MenuModel) -> bool {
    match m.sub {
        Some(s) => match s.hover {
            Some(h) => h < s.entries.len() && s.entries[h as int].has_children,
            None => false,
        },
        None => false,
    }
}

/// Right or Left in an open submenu must find another top item to move to.
pub open spec fn key_needs_top_target(m: MenuModel, sym: u32) -> bool {
    &&& m.nav == MenuNavState::OpenSubmenu
    &&& m.kb is Some
    &&& ((sym == XK_RIGHT && !hovers_nested(m)) || sym == XK_LEFT)
}

/// The top item that Right (next) or Left (previous) moves to from the highlight.
pub open spec fn top_target(m: MenuModel, tops: Seq<MenuItem>, sym: u32) -> Option<usize> {
    match m.kb {
        Some(i) => if sym == XK_RIGHT { next_sel(navs(tops), i) } else { prev_sel(navs(tops), i) },
        None => None,
    }
}

/// What a pressed key does to the navigation state, and whether it is consumed.
pub open spec fn key_step(m: MenuModel, tops: Seq<MenuItem>, sym: u32) -> (MenuModel, bool) {
    let t = navs(tops);
    match m.nav {
        MenuNavState::Inactive => (m, false),
        MenuNavState::Active => {
            if sym == XK_ESCAPE {
                (deactivated(), true)
            } else if sym == XK_RIGHT {
                (match m.kb { Some(i) => with_kb(m, next_sel(t, i)), None => m }, true)
            } else if sym == XK_LEFT {
                (match m.kb { Some(i) => with_kb(m, prev_sel(t, i)), None => m }, true)
            } else if sym == XK_DOWN || sym == XK_RETURN {
                (match m.kb { Some(i) => open_sub(m, tops, i), None => m }, true)
            } else {
                (m, false)
            }
        },
        MenuNavState::OpenSubmenu => {
            if sym == XK_ESCAPE {
                (close_sub(m), true)
            } else if sym == XK_DOWN {
                (match m.sub {
                    Some(s) => match s.hover {
                        Some(h) => match next_sel(s.entries, h) {
                            Some(n) => with_sub_hover(m, n),
                            None => m,
                        },
                        None => m,
                    },
                    None => m,
                }, true)
            } else if sym == XK_UP {
                (match m.sub {
                    Some(s) => match s.hover {
                        Some(h) => match prev_sel(s.entries, h) {
                            Some(n) => with_sub_hover(m, n),
                            None => m,
                        },
                        None => m,
                    },
                    None => m,
                }, true)
            } else if sym == XK_RIGHT {
                if hovers_nested(m) {
                    (m, true)
                } else {
                    (match m.kb {
                        Some(i) => {
                            let k = next_sel(t, i);
                            open_sub(with_kb(close_sub(m), k), tops, k.unwrap())
                        },
                        None => m,
                    }, true)
                }
            } else if sym == XK_LEFT {
                (match m.kb {
                    Some(i) => {
                        let k = prev_sel(t, i);
                        open_sub(with_kb(close_sub(m), k), tops, k.unwrap())
                    },
                    None => m,
                }, true)
            } else if sym == XK_RETURN {
                (match m.sub {
                    Some(s) => match s.hover {
                        Some(h) => if h < s.entries.len() && s.entries[h as int].enabled {
                            deactivated()
                        } else {
                            m
                        },
                        None => m,
                    },
                    None => m,
                }, true)
            } else if is_ascii_letter_code(sym) {
                match m.sub {
                    Some(s) => match letter_sel(s.entries, s.hover.unwrap_or(0), ascii_lower_code(sym)) {
                        Some(i) => (with_sub_hover(m, i), true),
                        None => (m, false),
                    },
                    None => (m, false),
                }
            } else {
                (m, false)
            }
        },
    }
}

proof fn lemma_fwd_index(from: usize, k: int, n: int)
    requires
        0 < n <= usize::MAX,
        1 <= k <= n,
    ensures
        fwd(from, k, n) as int == (if (from as int % n) + k < n { (from as int % n) + k } else { (from as int % n) + k - n }),
{
    lemma_add_mod_noop(from as int, k, n);
    lemma_add_mod_noop_right(from as int % n, k, n);
    let r = from as int % n;
    if r + k < n {
        lemma_small_mod((r + k) as nat, n as nat);
    } else {
        lemma_mod_add_multiples_vanish(r + k - n, n);
        lemma_small_mod((r + k - n) as nat, n as nat);
    }
}

proof fn lemma_bwd_index(from: usize, k: int, n: int)
    requires
        0 < n <= usize::MAX,
        1 <= k <= n,
    ensures
        bwd(from, k, n) as int == (if k <= from as int % n { (from as int % n) - k } else { (from as int % n) + n - k }),
{
    lemma_add_mod_noop(from as int, n - k, n);
    lemma_add_mod_noop_right(from as int % n, n - k, n);
    let r = from as int % n;
    if k <= r {
        lemma_mod_add_multiples_vanish(r - k, n);
        lemma_small_mod((r - k) as nat, n as nat);
    } else {
        lemma_small_mod((r + n - k) as nat, n as nat);
    }
}

/// Nearest selectable item after `from`, wrapping around.
fn next_selectable(items: &Vec<MenuItem>, from: usize) -> (r: Option<usize>)
    ensures
        r == next_sel(navs(items@), from),
        r matches Some(i) ==> i < items@.len(),
{
    let ghost s = navs(items@);
    let ghost p = |e: NavItem| selectable(e);
    let n = items.len();
    if n == 0 {
        return None;
    }
    let r = from % n;
    let mut j: usize = 0;
    while j < n
        invariant
            0 <= j <= n,
            n == items@.len(),
            s == navs(items@),
            p == (|e: NavItem| selectable(e)),
            r == from % n,
            next_sel(s, from) == search_fwd(s, from, j + 1, p),
        decreases n - j,
    {
        let k = j + 1;
        let idx = if k < n - r { r + k } else { k - (n - r) };
        proof {
            lemma_fwd_index(from, k as int, n as int);
        }
        if !items[idx].is_separator && items[idx].is_enabled {
            return Some(idx);
        }
        j = j + 1;
    }
    None
}

/// Nearest selectable item before `from`, wrapping around.
fn prev_selectable(items: &Vec<MenuItem>, from: usize) -> (r: Option<usize>)
    ensures
        r == prev_sel(navs(items@), from),
        r matches Some(i) ==> i < items@.len(),
{
    let ghost s = navs(items@);
    let n = items.len();
    if n == 0 {
        return None;
    }
    let r = from % n;
    let mut j: usize = 0;
    while j < n
        invariant
            0 <= j <= n,
            n == items@.len(),
            s == navs(items@),
            r == from % n,
            prev_sel(s, from) == search_bwd(s, from, j + 1),
        decreases n - j,
    {
        let k = j + 1;
        let idx = if k <= r { r - k } else { n - (k - r) };
        proof {
            lemma_bwd_index(from, k as int, n as int);
        }
        if !items[idx].is_separator && items[idx].is_enabled {
            return Some(idx);
        }
        j = j + 1;
    }
    None
}

/// First selectable item.
fn first_selectable(items: &Vec<MenuItem>) -> (r: Option<usize>)
    ensures
        r == first_sel(navs(items@)),
        r matches Some(i) ==> i < items@.len(),
{
    let ghost s = navs(items@);
    let n = items.len();
    let mut k: usize = 0;
    while k < n
        invariant
            0 <= k <= n,
            n == items@.len(),
            s == navs(items@),
            first_sel(s) == search_from(s, k as int),
        decreases n - k,
    {
        if !items[k].is_separator && items[k].is_enabled {
            return Some(k);
        }
        k = k + 1;
    }
    None
}

/// Next selectable item after `from` whose lowercased label starts with the
/// character of code `code`, wrapping around.
fn letter_match(items: &Vec<MenuItem>, from: usize, code: u32) -> (r: Option<usize>)
    ensures
        r == letter_sel(navs(items@), from, code),
{
    let ghost s = navs(items@);
    let ghost p = |e: NavItem| selectable(e) && starts_with_code(e.label, code);
    let n = items.len();
    if n == 0 {
        return None;
    }
    let r = from % n;
    let mut j: usize = 0;
    while j < n
        invariant
            0 <= j <= n,
            n == items@.len(),
            s == navs(items@),
            p == (|e: NavItem| selectable(e) && starts_with_code(e.label, code)),
            r == from % n,
            letter_sel(s, from, code) == search_fwd(s, from, j + 1, p),
        decreases n - j,
    {
        let k = j + 1;
        let idx = if k < n - r { r + k } else { k - (n - r) };
        proof {
            lemma_fwd_index(from, k as int, n as int);
        }
        let item = &items[idx];
        if !item.is_separator && item.is_enabled {
            let lower = str_to_lowercase(item.label.as_str());
            if lower.as_str().unicode_len() > 0 && lower.as_str().get_char(0) as u32 == code {
                return Some(idx);
            }
        }
        j = j + 1;
    }
    None
}

/// `b` is a copy of `a`: label, shortcut, flags and, recursively, children.
pub open spec fn same_item(a: MenuItem, b: MenuItem) -> bool
    decreases a,
{
    &&& b.label@ == a.label@
    &&& b.shortcut.is_some() == a.shortcut.is_some()
    &&& (a.shortcut matches Some(s) ==> b.shortcut->0@ == s@)
    &&& b.is_separator == a.is_separator
    &&& b.is_enabled == a.is_enabled
    &&& b.is_checked == a.is_checked
    &&& b.is_radio == a.is_radio
    &&& b.sub_items@.len() == a.sub_items@.len()
    &&& forall|i: int| 0 <= i < a.sub_items@.len() ==> same_item(#[trigger] a.sub_items@[i], b.sub_items@[i])
}

/// `t` is an entry-by-entry copy of `s`.
pub open spec fn same_items(s: Seq<MenuItem>, t: Seq<MenuItem>) -> bool {
    &&& t.len() == s.len()
    &&& forall|i: int| 0 <= i < s.len() ==> #[trigger] same_item(s[i], t[i])
}

/// The navigation state agrees with the rest of the menu: a submenu is
/// open exactly in the OpenSubmenu state and has entries, and an inactive
/// menu highlights nothing.
pub open spec fn nav_consistent(m: MenuModel) -> bool {
    &&& (m.nav == MenuNavState::OpenSubmenu) == m.sub.is_some()
    &&& m.nav == MenuNavState::Inactive ==> m.kb is None && m.hover_top is None && m.sub is None
    &&& (m.sub matches Some(s) ==> s.entries.len() > 0)
}

/// Every key, in every state, keeps the navigation state consistent.
pub proof fn keys_keep_nav_consistent(m: MenuModel, tops: Seq<MenuItem>, sym: u32)
    requires
        nav_consistent(m),
    ensures
        nav_consistent(key_step(m, tops, sym).0),
{
}

/// What a submenu move to top item `k` gives: the keyboard and hover
/// highlights on `k`, and `k`'s submenu open with its first selectable entry
/// highlighted, or no submenu (back to Active) when `k` has no entries.
pub open spec fn moved_to_submenu_of(r: MenuModel, tops: Seq<MenuItem>, k: usize) -> bool {
    &&& r.kb == Some(k)
    &&& r.hover_top == Some(k)
    &&& if k < tops.len() && tops[k as int].sub_items@.len() > 0 {
        &&& r.nav == MenuNavState::OpenSubmenu
        &&& r.sub == Some(
            SubmenuModel {
                parent: k,
                entries: navs(tops[k as int].sub_items@),
                hover: first_sel(navs(tops[k as int].sub_items@)),
            },
        )
    } else {
        &&& r.nav == MenuNavState::Active
        &&& r.sub is None
    }
}

/// In an open submenu, Left closes it, moves the keyboard highlight to the
/// previous selectable top item (wrapping) and opens that item's submenu;
/// Right does the same towards the next one, unless the highlighted entry
/// has a submenu of its own. Both keys are consumed.
pub proof fn left_right_switch_submenus(m: MenuModel, tops: Seq<MenuItem>, i: usize)
    requires
        m.nav == MenuNavState::OpenSubmenu,
        m.kb == Some(i),
    ensures
        key_step(m, tops, XK_LEFT).1,
        prev_sel(navs(tops), i) matches Some(k) ==> moved_to_submenu_of(key_step(m, tops, XK_LEFT).0, tops, k),
        key_step(m, tops, XK_RIGHT).1,
        !hovers_nested(m) ==> (next_sel(navs(tops), i) matches Some(k) ==> moved_to_submenu_of(
            key_step(m, tops, XK_RIGHT).0,
            tops,
            k,
        )),
{
}

/// The open submenu, if any, holds copies of its parent entry's children.
pub open spec fn submenu_copied(m: GlobalMenu) -> bool {
    m.open_submenu matches Some(o) ==> o.parent_index < m.items@.len() && same_items(
        m.items@[o.parent_index as int].sub_items@,
        o.items@,
    )
}

/// Entries that agree field by field and child by child are copies.
proof fn lemma_same_item_intro(a: MenuItem, b: MenuItem)
    requires
        b.label@ == a.label@,
        b.shortcut.is_some() == a.shortcut.is_some(),
        (a.shortcut matches Some(s) ==> b.shortcut->0@ == s@),
        b.is_separator == a.is_separator,
        b.is_enabled == a.is_enabled,
        b.is_checked == a.is_checked,
        b.is_radio == a.is_radio,
        b.sub_items@.len() == a.sub_items@.len(),
        forall|i: int| 0 <= i < a.sub_items@.len() ==> same_item(#[trigger] a.sub_items@[i], b.sub_items@[i]),
    ensures
        same_item(a, b),
{
}

/// A copy of a menu entry with its children, to any depth.
fn copy_item(item: &MenuItem) -> (r: MenuItem)
    ensures
        same_item(*item, r),
    decreases item,
{
    let mut children: Vec<MenuItem> = Vec::new();
    let mut c: usize = 0;
    while c < item.sub_items.len()
        invariant
            0 <= c <= item.sub_items@.len(),
            children@.len() == c,
            forall|j: int| 0 <= j < c ==> #[trigger] same_item(item.sub_items@[j], children@[j]),
        decreases item.sub_items@.len() - c,
    {
        proof {
            assert(decreases_to!(item => item.sub_items@[c as int]));
        }
        children.push(copy_item(&item.sub_items[c]));
        c = c + 1;
    }
    let shortcut = match &item.shortcut {
        Some(s) => Some(s.clone()),
        None => None,
    };
    let r = MenuItem {
        label: item.label.clone(),
        shortcut,
        is_separator: item.is_separator,
        is_enabled: item.is_enabled,
        is_checked: item.is_checked,
        is_radio: item.is_radio,
        sub_items: children,
    };
    assert(r.label@ == item.label@);
    assert(item.shortcut matches Some(s) ==> r.shortcut->0@ == s@);
    proof {
        lemma_same_item_intro(*item, r);
    }
    r
}

/// Copies menu entries, each with its children to any depth.
fn copy_items(v: &Vec<MenuItem>) -> (r: Vec<MenuItem>)
    ensures
        same_items(v@, r@),
        navs(r@) == navs(v@),
{
    let mut out: Vec<MenuItem> = Vec::new();
    let mut i: usize = 0;
    while i < v.len()
        invariant
            0 <= i <= v@.len(),
            out@.len() == i,
            forall|j: int| 0 <= j < i ==> #[trigger] same_item(v@[j], out@[j]),
        decreases v@.len() - i,
    {
        out.push(copy_item(&v[i]));
        i = i + 1;
    }
    assert forall|j: int| 0 <= j < v@.len() implies #[trigger] navs(out@)[j] == navs(v@)[j] by {
        assert(same_item(v@[j], out@[j]));
    }
    assert(navs(out@) =~= navs(v@));
    out
}

impl MenuItem {
    pub fn new(label: &str) -> (m: Self)
        ensures
            m.label@ == label@,
            m.shortcut is None,
            !m.is_separator,
            m.is_enabled,
            !m.is_checked,
            !m.is_radio,
            m.sub_items@.len() == 0,
    {
        Self {
            label: label.to_owned(),
            shortcut: None,
            is_separator: false,
            is_enabled: true,
            is_checked: false,
            is_radio: false,
            sub_items: Vec::new(),
        }
    }

    pub fn separator() -> (m: Self)
        ensures
            m.label@.len() == 0,
            m.shortcut is None,
            m.is_separator,
            !m.is_enabled,
            !m.is_checked,
            !m.is_radio,
            m.sub_items@.len() == 0,
    {
        Self {
            label: String::new(),
            shortcut: None,
            is_separator: true,
            is_enabled: false,
            is_checked: false,
            is_radio: false,
            sub_items: Vec::new(),
        }
    }

    pub fn with_shortcut(self, shortcut: &str) -> (m: Self)
        ensures
            m.shortcut matches Some(s) && s@ == shortcut@,
            m.label == self.label,
            m.is_separator == self.is_separator,
            m.is_enabled == self.is_enabled,
            m.is_checked == self.is_checked,
            m.is_radio == self.is_radio,
            m.sub_items == self.sub_items,
    {
        MenuItem { shortcut: Some(shortcut.to_owned()), ..self }
    }

    pub fn with_sub_items(self, items: Vec<MenuItem>) -> (m: Self)
        ensures
            m.sub_items == items,
            m.label == self.label,
            m.shortcut == self.shortcut,
            m.is_separator == self.is_separator,
            m.is_enabled == self.is_enabled,
            m.is_checked == self.is_checked,
            m.is_radio == self.is_radio,
    {
        MenuItem { sub_items: items, ..self }
    }
}

/// The top item `top` can take the pointer: a selectable item of the bar.
pub open spec fn top_hit(tops: Seq<MenuItem>, top: Option<usize>) -> bool {
    top matches Some(i) && i < tops.len() && selectable(nav_of(tops[i as int]))
}

/// What pointer motion does to the navigation state. `top` is the top
/// item under the pointer, `sub_row` the row of the open submenu under it.
/// Hovering a top item highlights it (and, with a submenu open, opens that
/// item's submenu instead); hovering a selectable submenu row highlights it.
pub open spec fn motion_step(m: MenuModel, tops: Seq<MenuItem>, top: Option<usize>, sub_row: Option<usize>) -> MenuModel {
    if m.nav == MenuNavState::Inactive {
        m
    } else if top_hit(tops, top) {
        let i = top.unwrap();
        let h = with_kb(m, Some(i));
        if m.nav == MenuNavState::OpenSubmenu && (m.sub matches Some(s) && s.parent != i) {
            open_sub(h, tops, i)
        } else {
            h
        }
    } else if m.sub matches Some(s) && sub_row matches Some(r) && r < s.entries.len() && selectable(
        s.entries[r as int],
    ) {
        with_sub_hover(m, sub_row.unwrap())
    } else {
        m
    }
}

/// What a pointer press does: on a top item it opens that item's submenu
/// (or closes it when already open); anywhere else, including a submenu
/// row, the menu deactivates. Returns the new state and whether the press
/// was consumed.
pub open spec fn press_step(m: MenuModel, tops: Seq<MenuItem>, top: Option<usize>) -> (MenuModel, bool) {
    if m.nav == MenuNavState::Inactive {
        (m, false)
    } else if top_hit(tops, top) {
        let i = top.unwrap();
        if m.nav == MenuNavState::OpenSubmenu && (m.sub matches Some(s) && s.parent == i) {
            (close_sub(m), true)
        } else {
            (open_sub(m, tops, i), true)
        }
    } else {
        (deactivated(), true)
    }
}

impl GlobalMenu {
    pub open spec fn model(self) -> MenuModel {
        MenuModel {
            nav: self.nav_state,
            kb: self.kb_top_index,
            hover_top: self.hover_top_index,
            sub: match self.open_submenu {
                Some(o) => Some(SubmenuModel { parent: o.parent_index, entries: navs(o.items@), hover: o.hover_index }),
                None => None,
            },
        }
    }

    pub fn new() -> (g: Self)
        ensures
            g.items@.len() == 0,
            g.app_name@.len() == 0,
            !g.has_menu,
            g.model() == deactivated(),
    {
        GlobalMenu {
            items: Vec::new(),
            app_name: String::new(),
            has_menu: false,
            nav_state: MenuNavState::Inactive,
            kb_top_index: None,
            hover_top_index: None,
            open_submenu: None,
        }
    }

    /// Shows the application's own menu (received over D-Bus).
    pub fn set_menu_from_json(&mut self, app_name: &str, items: Vec<MenuItem>)
        ensures
            final(self).app_name@ == app_name@,
            final(self).items == items,
            final(self).has_menu,
            final(self).model() == old(self).model(),
    {
        self.app_name = app_name.to_owned();
        self.items = items;
        self.has_menu = true;
    }

    /// No D-Bus menu: shows the application's name only.
    pub fn set_app_name_only(&mut self, app_name: &str)
        ensures
            final(self).app_name@ == app_name@,
            final(self).items@.len() == 0,
            !final(self).has_menu,
            final(self).model() == close_sub(old(self).model()),
    {
        self.app_name = app_name.to_owned();
        self.items = Vec::new();
        self.has_menu = false;
        self.close_submenu();
    }

    /// F10 or Alt: highlights the first selectable top item.
    pub fn activate(&mut self)
        ensures
            final(self).items == old(self).items,
            final(self).app_name == old(self).app_name,
            final(self).has_menu == old(self).has_menu,
            submenu_copied(*old(self)) ==> submenu_copied(*final(self)),
            final(self).model() == (if old(self).nav_state == MenuNavState::Inactive {
                MenuModel {
                    nav: MenuNavState::Active,
                    kb: first_sel(navs(old(self).items@)),
                    hover_top: first_sel(navs(old(self).items@)),
                    ..old(self).model()
                }
            } else {
                old(self).model()
            }),
    {
        if self.nav_state == MenuNavState::Inactive {
            self.nav_state = MenuNavState::Active;
            self.kb_top_index = first_selectable(&self.items);
            self.hover_top_index = self.kb_top_index;
        }
    }

    /// Esc or Alt release.
    pub fn deactivate(&mut self)
        ensures
            final(self).items == old(self).items,
            final(self).app_name == old(self).app_name,
            final(self).has_menu == old(self).has_menu,
            submenu_copied(*old(self)) ==> submenu_copied(*final(self)),
            final(self).model() == deactivated(),
    {
        self.nav_state = MenuNavState::Inactive;
        self.kb_top_index = None;
        self.hover_top_index = None;
        self.close_submenu();
    }

    pub fn is_active(&self) -> (b: bool)
        ensures
            b == (self.nav_state != MenuNavState::Inactive),
    {
        self.nav_state != MenuNavState::Inactive
    }

    fn open_submenu_at(&mut self, index: usize)
        ensures
            final(self).items == old(self).items,
            final(self).app_name == old(self).app_name,
            final(self).has_menu == old(self).has_menu,
            submenu_copied(*old(self)) ==> submenu_copied(*final(self)),
            index < old(self).items@.len() && old(self).items@[index as int].sub_items@.len() > 0 ==> submenu_copied(
                *final(self),
            ),
            final(self).model() == open_sub(old(self).model(), old(self).items@, index),
    {
        if index >= self.items.len() || self.items[index].sub_items.len() == 0 {
            return;
        }
        let sub_items = copy_items(&self.items[index].sub_items);
        let first = first_selectable(&sub_items);
        self.open_submenu = Some(OpenSubmenu { parent_index: index, items: sub_items, hover_index: first });
        self.nav_state = MenuNavState::OpenSubmenu;
    }

    fn close_submenu(&mut self)
        ensures
            final(self).items == old(self).items,
            final(self).app_name == old(self).app_name,
            final(self).has_menu == old(self).has_menu,
            submenu_copied(*old(self)) ==> submenu_copied(*final(self)),
            final(self).model() == close_sub(old(self).model()),
    {
        self.open_submenu = None;
        if self.nav_state == MenuNavState::OpenSubmenu {
            self.nav_state = MenuNavState::Active;
        }
    }

    fn set_sub_hover(&mut self, h: usize)
        requires
            old(self).open_submenu is Some,
        ensures
            final(self).items == old(self).items,
            final(self).app_name == old(self).app_name,
            final(self).has_menu == old(self).has_menu,
            submenu_copied(*old(self)) ==> submenu_copied(*final(self)),
            final(self).model() == with_sub_hover(old(self).model(), h),
    {
        let o = self.open_submenu.take().unwrap();
        self.open_submenu = Some(OpenSubmenu { hover_index: Some(h), ..o });
    }

    /// Pointer motion over the bar: `top` is the top item whose area holds
    /// the pointer, `sub_row` the row of the open submenu under it (both as
    /// the caller's hit test found them).
    pub fn on_pointer_motion(&mut self, top: Option<usize>, sub_row: Option<usize>)
        ensures
            final(self).items == old(self).items,
            final(self).app_name == old(self).app_name,
            final(self).has_menu == old(self).has_menu,
            final(self).model() == motion_step(old(self).model(), old(self).items@, top, sub_row),
    {
        if self.nav_state == MenuNavState::Inactive {
            return;
        }
        if let Some(i) = top {
            if i < self.items.len() && !self.items[i].is_separator && self.items[i].is_enabled {
                self.hover_top_index = Some(i);
                self.kb_top_index = Some(i);
                if self.nav_state == MenuNavState::OpenSubmenu {
                    let mut switch = false;
                    if let Some(sm) = &self.open_submenu {
                        switch = sm.parent_index != i;
                    }
                    if switch {
                        self.open_submenu_at(i);
                    }
                }
                return;
            }
        }
        let mut hover: Option<usize> = None;
        if let Some(sm) = &self.open_submenu {
            if let Some(r) = sub_row {
                if r < sm.items.len() && !sm.items[r].is_separator && sm.items[r].is_enabled {
                    hover = Some(r);
                }
            }
        }
        if let Some(r) = hover {
            self.set_sub_hover(r);
        }
    }

    /// A pointer button over the bar, `top` being the top item under the
    /// pointer; true when the menu consumed it.
    pub fn on_pointer_button(&mut self, top: Option<usize>, pressed: bool) -> (consumed: bool)
        ensures
            final(self).items == old(self).items,
            final(self).app_name == old(self).app_name,
            final(self).has_menu == old(self).has_menu,
            (final(self).model(), consumed) == (if pressed {
                press_step(old(self).model(), old(self).items@, top)
            } else {
                (old(self).model(), false)
            }),
    {
        if !pressed || self.nav_state == MenuNavState::Inactive {
            return false;
        }
        if let Some(i) = top {
            if i < self.items.len() && !self.items[i].is_separator && self.items[i].is_enabled {
                if self.nav_state == MenuNavState::OpenSubmenu {
                    let mut same = false;
                    if let Some(sm) = &self.open_submenu {
                        same = sm.parent_index == i;
                    }
                    if same {
                        self.close_submenu();
                        return true;
                    }
                }
                self.open_submenu_at(i);
                return true;
            }
        }
        self.deactivate();
        true
    }

    /// Handles a key press or release; returns true when the key was consumed.
    pub fn on_key(&mut self, sym: u32, pressed: bool) -> (consumed: bool)
        requires
            pressed && key_needs_top_target(old(self).model(), sym) ==> top_target(
                old(self).model(),
                old(self).items@,
                sym,
            ) is Some,
        ensures
            final(self).items == old(self).items,
            final(self).app_name == old(self).app_name,
            final(self).has_menu == old(self).has_menu,
            (final(self).model(), consumed) == (if pressed {
                key_step(old(self).model(), old(self).items@, sym)
            } else {
                (old(self).model(), false)
            }),
            !pressed || old(self).nav_state == MenuNavState::Inactive ==> *final(self) == *old(self) && !consumed,
            submenu_copied(*old(self)) ==> submenu_copied(*final(self)),
    {
        if !pressed {
            return false;
        }
        match self.nav_state {
            MenuNavState::Inactive => false,
            MenuNavState::Active => {
                if sym == XK_ESCAPE {
                    self.deactivate();
                    true
                } else if sym == XK_RIGHT {
                    if let Some(idx) = self.kb_top_index {
                        self.kb_top_index = next_selectable(&self.items, idx);
                        self.hover_top_index = self.kb_top_index;
                    }
                    true
                } else if sym == XK_LEFT {
                    if let Some(idx) = self.kb_top_index {
                        self.kb_top_index = prev_selectable(&self.items, idx);
                        self.hover_top_index = self.kb_top_index;
                    }
                    true
                } else if sym == XK_DOWN || sym == XK_RETURN {
                    if let Some(idx) = self.kb_top_index {
                        self.open_submenu_at(idx);
                    }
                    true
                } else {
                    false
                }
            },
            MenuNavState::OpenSubmenu => {
                if sym == XK_ESCAPE {
                    self.close_submenu();
                    true
                } else if sym == XK_DOWN || sym == XK_UP {
                    let mut target: Option<usize> = None;
                    if let Some(sm) = &self.open_submenu {
                        if let Some(idx) = sm.hover_index {
                            target = if sym == XK_DOWN {
                                next_selectable(&sm.items, idx)
                            } else {
                                prev_selectable(&sm.items, idx)
                            };
                        }
                    }
                    if let Some(n) = target {
                        self.set_sub_hover(n);
                    }
                    true
                } else if sym == XK_RIGHT || sym == XK_LEFT {
                    if sym == XK_RIGHT {
                        if let Some(sm) = &self.open_submenu {
                            if let Some(idx) = sm.hover_index {
                                if idx < sm.items.len() && sm.items[idx].sub_items.len() > 0 {
                                    return true;
                                }
                            }
                        }
                    }
                    if let Some(idx) = self.kb_top_index {
                        self.close_submenu();
                        self.kb_top_index = if sym == XK_RIGHT {
                            next_selectable(&self.items, idx)
                        } else {
                            prev_selectable(&self.items, idx)
                        };
                        self.hover_top_index = self.kb_top_index;
                        let new_idx = self.kb_top_index.unwrap();
                        self.open_submenu_at(new_idx);
                    }
                    true
                } else if sym == XK_RETURN {
                    let mut activate = false;
                    if let Some(sm) = &self.open_submenu {
                        if let Some(idx) = sm.hover_index {
                            if idx < sm.items.len() && sm.items[idx].is_enabled {
                                activate = true;
                            }
                        }
                    }
                    if activate {
                        self.deactivate();
                    }
                    true
                } else if (0x41 <= sym && sym <= 0x5a) || (0x61 <= sym && sym <= 0x7a) {
                    let lower: u32 = if sym <= 0x5a { sym + 0x20 } else { sym };
                    let mut found: Option<usize> = None;
                    if let Some(sm) = &self.open_submenu {
                        let start = match sm.hover_index {
                            Some(h) => h,
                            None => 0,
                        };
                        found = letter_match(&sm.items, start, lower);
                    }
                    match found {
                        Some(i) => {
                            self.set_sub_hover(i);
                            true
                        },
                        None => false,
                    }
                } else {
                    false
                }
            },
        }
    }
}


/// One Panel per connected monitor, with its own global menu.
pub struct PanelEntry {
    pub output_id: u32,
    pub is_primary: bool,
    pub panel: Panel,
    pub global_menu: GlobalMenu,
}

/// Owns one Panel per monitor. The global menu follows the focused window's
/// output; without a focused output it shows on the primary one.
pub struct PanelManager {
    pub panels: Vec<PanelEntry>,
    pub primary_output_id: Option<u32>,
    pub focused_output_id: Option<u32>,
    pub focus_handle: u64,
}

/// Index of the first panel of output `id` at index `k` or later.
pub open spec fn find_output_from(s: Seq<PanelEntry>, id: u32, k: int) -> Option<int>
    decreases s.len() - k,
{
    if 0 <= k && k < s.len() {
        if s[k].output_id == id { Some(k) } else { find_output_from(s, id, k + 1) }
    } else {
        None
    }
}

/// Index of the first panel of output `id`.
pub open spec fn find_output(s: Seq<PanelEntry>, id: u32) -> Option<int> {
    find_output_from(s, id, 0)
}

/// Index of the first panel marked primary at index `k` or later.
pub open spec fn find_primary_from(s: Seq<PanelEntry>, k: int) -> Option<int>
    decreases s.len() - k,
{
    if 0 <= k && k < s.len() {
        if s[k].is_primary { Some(k) } else { find_primary_from(s, k + 1) }
    } else {
        None
    }
}

/// Index of the first panel marked primary.
pub open spec fn find_primary(s: Seq<PanelEntry>) -> Option<int> {
    find_primary_from(s, 0)
}

pub open spec fn menu_target(pm: PanelManager) -> Option<u32> {
    match pm.focused_output_id {
        Some(o) => Some(o),
        None => pm.primary_output_id,
    }
}

/// Index of the panel that shows the global menu.
pub open spec fn menu_panel(pm: PanelManager) -> Option<int> {
    match menu_target(pm) {
        Some(o) => find_output(pm.panels@, o),
        None => None,
    }
}

/// `b` is `a` after `GlobalMenu::activate`.
pub open spec fn menu_activated(a: GlobalMenu, b: GlobalMenu) -> bool {
    &&& b.items == a.items
    &&& b.app_name == a.app_name
    &&& b.has_menu == a.has_menu
    &&& b.model() == (if a.nav_state == MenuNavState::Inactive {
        MenuModel {
            nav: MenuNavState::Active,
            kb: first_sel(navs(a.items@)),
            hover_top: first_sel(navs(a.items@)),
            ..a.model()
        }
    } else {
        a.model()
    })
}

/// `b` is `a` after `GlobalMenu::deactivate`.
pub open spec fn menu_deactivated(a: GlobalMenu, b: GlobalMenu) -> bool {
    &&& b.items == a.items
    &&& b.app_name == a.app_name
    &&& b.has_menu == a.has_menu
    &&& b.model() == deactivated()
}

/// `b` is `a` with the menu of the focused panel changed as `step` says and
/// everything else as it was.
pub open spec fn focused_menu_step(
    a: PanelManager,
    b: PanelManager,
    step: spec_fn(GlobalMenu, GlobalMenu) -> bool,
) -> bool {
    &&& b.primary_output_id == a.primary_output_id
    &&& b.focused_output_id == a.focused_output_id
    &&& b.focus_handle == a.focus_handle
    &&& b.panels@.len() == a.panels@.len()
    &&& match menu_panel(a) {
        Some(i) => {
            &&& forall|j: int| 0 <= j < a.panels@.len() && j != i ==> #[trigger] b.panels@[j] == a.panels@[j]
            &&& b.panels@[i].output_id == a.panels@[i].output_id
            &&& b.panels@[i].is_primary == a.panels@[i].is_primary
            &&& b.panels@[i].panel == a.panels@[i].panel
            &&& step(a.panels@[i].global_menu, b.panels@[i].global_menu)
        },
        None => b.panels == a.panels,
    }
}

/// `b` is `a` after `GlobalMenu::on_pointer_motion(top, sub_row)`.
pub open spec fn menu_moved(a: GlobalMenu, b: GlobalMenu, top: Option<usize>, sub_row: Option<usize>) -> bool {
    &&& b.items == a.items
    &&& b.app_name == a.app_name
    &&& b.has_menu == a.has_menu
    &&& b.model() == motion_step(a.model(), a.items@, top, sub_row)
}

/// `b` is `a` after a pointer press at top item `top`.
pub open spec fn menu_pressed(a: GlobalMenu, b: GlobalMenu, top: Option<usize>) -> bool {
    &&& b.items == a.items
    &&& b.app_name == a.app_name
    &&& b.has_menu == a.has_menu
    &&& b.model() == press_step(a.model(), a.items@, top).0
}

/// The focused panel's menu takes a press at top item `top`.
pub open spec fn menu_takes_press(pm: PanelManager, top: Option<usize>, pressed: bool) -> bool {
    &&& pressed
    &&& menu_panel(pm) matches Some(i) && press_step(pm.panels@[i].global_menu.model(), pm.panels@[i].global_menu.items@, top).1
}

/// `b` is `a` after `GlobalMenu::set_app_name_only(name)`.
pub open spec fn menu_named_only(a: GlobalMenu, b: GlobalMenu, name: Seq<char>) -> bool {
    &&& b.app_name@ == name
    &&& b.items@.len() == 0
    &&& !b.has_menu
    &&& b.model() == close_sub(a.model())
}

/// The panel of `e` after pointer motion, `in_hot_zone` or not.
pub open spec fn panel_after_motion(e: PanelEntry, in_hot_zone: bool) -> PanelEntry {
    PanelEntry {
        panel: if e.panel.is_fullscreen { Panel { slides_out: !in_hot_zone, ..e.panel } } else { e.panel },
        ..e
    }
}

/// Every panel's fullscreen mode set to `on` (leaving it brings each panel
/// back into view), nothing else changed.
pub open spec fn panels_fullscreen(a: PanelManager, b: PanelManager, on: bool) -> bool {
    &&& b.primary_output_id == a.primary_output_id
    &&& b.focused_output_id == a.focused_output_id
    &&& b.focus_handle == a.focus_handle
    &&& b.panels@.len() == a.panels@.len()
    &&& forall|j: int| 0 <= j < a.panels@.len() ==> #[trigger] b.panels@[j] == (PanelEntry {
        panel: Panel { is_fullscreen: on, slides_out: on && a.panels@[j].panel.slides_out, ..a.panels@[j].panel },
        ..a.panels@[j]
    })
}

fn find_output_index(panels: &Vec<PanelEntry>, id: u32) -> (r: Option<usize>)
    ensures
        r matches Some(i) ==> find_output(panels@, id) == Some(i as int) && i < panels@.len(),
        r is None ==> find_output(panels@, id) is None,
{
    let mut i: usize = 0;
    while i < panels.len()
        invariant
            0 <= i <= panels@.len(),
            find_output(panels@, id) == find_output_from(panels@, id, i as int),
        decreases panels@.len() - i,
    {
        if panels[i].output_id == id {
            return Some(i);
        }
        i = i + 1;
    }
    None
}

impl PanelManager {
    pub fn new() -> (pm: Self)
        ensures
            pm.panels@.len() == 0,
            pm.primary_output_id is None,
            pm.focused_output_id is None,
            pm.focus_handle == 0,
    {
        PanelManager { panels: Vec::new(), primary_output_id: None, focused_output_id: None, focus_handle: 0 }
    }

    /// A monitor was connected. A new primary demotes every earlier panel.
    pub fn on_output_added(&mut self, output_id: u32, is_primary: bool)
        ensures
            final(self).panels@.len() == old(self).panels@.len() + 1,
            forall|i: int| 0 <= i < old(self).panels@.len() ==> #[trigger] final(self).panels@[i] == (
                PanelEntry { is_primary: old(self).panels@[i].is_primary && !is_primary, ..old(self).panels@[i] }),
            final(self).panels@.last().output_id == output_id,
            final(self).panels@.last().is_primary == is_primary,
            final(self).panels@.last().panel.focused_app_title@ == "Filer"@,
            final(self).panels@.last().panel.is_clock_visible,
            !final(self).panels@.last().panel.is_fullscreen,
            final(self).panels@.last().global_menu.items@.len() == 0,
            !final(self).panels@.last().global_menu.has_menu,
            final(self).panels@.last().global_menu.model() == deactivated(),
            final(self).primary_output_id == (if is_primary { Some(output_id) } else { old(self).primary_output_id }),
            final(self).focused_output_id == old(self).focused_output_id,
            final(self).focus_handle == old(self).focus_handle,
    {
        if is_primary {
            self.primary_output_id = Some(output_id);
            let mut i: usize = 0;
            while i < self.panels.len()
                invariant
                    0 <= i <= self.panels@.len(),
                    self.panels@.len() == old(self).panels@.len(),
                    forall|j: int| 0 <= j < i ==> #[trigger] self.panels@[j] == (
                        PanelEntry { is_primary: false, ..old(self).panels@[j] }),
                    forall|j: int| i <= j < self.panels@.len() ==> #[trigger] self.panels@[j] == old(self).panels@[j],
                    self.primary_output_id == Some(output_id),
                    self.focused_output_id == old(self).focused_output_id,
                    self.focus_handle == old(self).focus_handle,
                decreases self.panels@.len() - i,
            {
                self.panels[i].is_primary = false;
                i = i + 1;
            }
        }
        self.panels.push(PanelEntry {
            output_id,
            is_primary,
            panel: Panel::new(),
            global_menu: GlobalMenu::new(),
        });
    }

    /// A monitor was disconnected: its panels go; if it was primary the
    /// first remaining panel becomes primary, and focus falls back to primary.
    pub fn on_output_removed(&mut self, output_id: u32)
        ensures
            ({
                let kept = old(self).panels@.filter(|e: PanelEntry| e.output_id != output_id);
                let was_primary = old(self).primary_output_id == Some(output_id);
                let new_primary = if was_primary {
                    if kept.len() > 0 { Some(kept[0].output_id) } else { None }
                } else {
                    old(self).primary_output_id
                };
                &&& final(self).panels@.len() == kept.len()
                &&& final(self).panels@ == (if was_primary && kept.len() > 0 {
                    kept.update(0, PanelEntry { is_primary: true, ..kept[0] })
                } else {
                    kept
                })
                &&& final(self).primary_output_id == new_primary
                &&& final(self).focused_output_id == (if old(self).focused_output_id == Some(output_id) {
                    new_primary
                } else {
                    old(self).focused_output_id
                })
                &&& final(self).focus_handle == old(self).focus_handle
            }),
    {
        let ghost p = |e: PanelEntry| e.output_id != output_id;
        let ghost old_panels = self.panels@;
        let n0 = self.panels.len();
        let mut i: usize = 0;
        let mut j: usize = 0;
        while i < self.panels.len()
            invariant
                p == (|e: PanelEntry| e.output_id != output_id),
                0 <= j <= old_panels.len(),
                0 <= i <= self.panels@.len(),
                self.panels@.subrange(0, i as int) == old_panels.subrange(0, j as int).filter(p),
                self.panels@.subrange(i as int, self.panels@.len() as int) == old_panels.subrange(j as int, old_panels.len() as int),
                self.panels@.len() - i == old_panels.len() - j,
                old_panels.len() == n0,
                old_panels == old(self).panels@,
                self.primary_output_id == old(self).primary_output_id,
                self.focused_output_id == old(self).focused_output_id,
                self.focus_handle == old(self).focus_handle,
            decreases self.panels@.len() - i,
        {
            let ghost before = self.panels@;
            assert(j < old_panels.len());
            proof {
                reveal_with_fuel(Seq::filter, 1);
                assert(old_panels.subrange(0, j + 1).drop_last() =~= old_panels.subrange(0, j as int));
                assert(before.subrange(i as int, before.len() as int)[0] == old_panels[j as int]);
                assert(old_panels.subrange(0, j + 1).last() == old_panels[j as int]);
            }
            if self.panels[i].output_id == output_id {
                self.panels.remove(i);
                proof {
                    assert(self.panels@.subrange(0, i as int) =~= before.subrange(0, i as int));
                    assert forall|k: int| 0 <= k < self.panels@.len() - i implies
                        #[trigger] self.panels@.subrange(i as int, self.panels@.len() as int)[k]
                            == old_panels.subrange(j + 1, old_panels.len() as int)[k] by {
                        assert(before.subrange(i as int, before.len() as int)[k + 1]
                            == old_panels.subrange(j as int, old_panels.len() as int)[k + 1]);
                    }
                    assert(self.panels@.subrange(i as int, self.panels@.len() as int) =~= old_panels.subrange(j + 1, old_panels.len() as int));
                }
            } else {
                proof {
                    assert(self.panels@.subrange(0, i + 1) =~= before.subrange(0, i as int).push(before[i as int]));
                    assert forall|k: int| 0 <= k < self.panels@.len() - i - 1 implies
                        #[trigger] self.panels@.subrange(i + 1, self.panels@.len() as int)[k]
                            == old_panels.subrange(j + 1, old_panels.len() as int)[k] by {
                        assert(before.subrange(i as int, before.len() as int)[k + 1]
                            == old_panels.subrange(j as int, old_panels.len() as int)[k + 1]);
                    }
                    assert(self.panels@.subrange(i + 1, self.panels@.len() as int) =~= old_panels.subrange(j + 1, old_panels.len() as int));
                }
                i = i + 1;
            }
            j = j + 1;
        }
        proof {
            assert(old_panels.subrange(0, old_panels.len() as int) =~= old_panels);
            assert(self.panels@.subrange(0, i as int) =~= self.panels@);
        }
        if self.primary_output_id == Some(output_id) {
            self.primary_output_id = if self.panels.len() > 0 { Some(self.panels[0].output_id) } else { None };
            if self.panels.len() > 0 {
                self.panels[0].is_primary = true;
            }
        }
        if self.focused_output_id == Some(output_id) {
            self.focused_output_id = self.primary_output_id;
        }
    }

    /// Routes the global menu to the output of the focused window.
    pub fn on_window_focused(&mut self, window_handle: u64, output_id: u32)
        ensures
            final(self).panels == old(self).panels,
            final(self).primary_output_id == old(self).primary_output_id,
            final(self).focused_output_id == Some(output_id),
            final(self).focus_handle == window_handle,
    {
        self.focus_handle = window_handle;
        self.focused_output_id = Some(output_id);
    }

    /// Index of the panel that shows the global menu.
    pub fn focused_panel_index(&self) -> (r: Option<usize>)
        ensures
            r matches Some(i) ==> menu_panel(*self) == Some(i as int) && i < self.panels@.len(),
            r is None ==> menu_panel(*self) is None,
    {
        let target = match self.focused_output_id {
            Some(o) => Some(o),
            None => self.primary_output_id,
        };
        match target {
            Some(oid) => find_output_index(&self.panels, oid),
            None => None,
        }
    }

    /// Pointer motion over the focused panel's menu bar.
    pub fn on_menu_pointer_motion(&mut self, top: Option<usize>, sub_row: Option<usize>)
        ensures
            focused_menu_step(*old(self), *final(self), |a: GlobalMenu, b: GlobalMenu| menu_moved(a, b, top, sub_row)),
    {
        if let Some(i) = self.focused_panel_index() {
            self.panels[i].global_menu.on_pointer_motion(top, sub_row);
        }
    }

    /// A pointer button over the focused panel's menu bar; true when the
    /// menu consumed it (the menu is left untouched otherwise).
    pub fn on_menu_pointer_button(&mut self, top: Option<usize>, pressed: bool) -> (consumed: bool)
        ensures
            consumed == menu_takes_press(*old(self), top, pressed),
            consumed ==> focused_menu_step(*old(self), *final(self), |a: GlobalMenu, b: GlobalMenu| menu_pressed(a, b, top)),
            !consumed ==> *final(self) == *old(self),
    {
        if !pressed {
            return false;
        }
        match self.focused_panel_index() {
            Some(i) => {
                if !self.panels[i].global_menu.is_active() {
                    return false;
                }
                self.panels[i].global_menu.on_pointer_button(top, true)
            },
            None => false,
        }
    }

    /// An application registered its D-Bus menu: the focused panel shows it.
    pub fn on_menu_registered(&mut self, app_name: &str, items: Vec<MenuItem>)
        ensures
            final(self).primary_output_id == old(self).primary_output_id,
            final(self).focused_output_id == old(self).focused_output_id,
            final(self).focus_handle == old(self).focus_handle,
            final(self).panels@.len() == old(self).panels@.len(),
            match menu_panel(*old(self)) {
                Some(i) => {
                    &&& forall|j: int| 0 <= j < old(self).panels@.len() && j != i ==> #[trigger] final(self).panels@[j] == old(self).panels@[j]
                    &&& final(self).panels@[i].output_id == old(self).panels@[i].output_id
                    &&& final(self).panels@[i].is_primary == old(self).panels@[i].is_primary
                    &&& final(self).panels@[i].panel == old(self).panels@[i].panel
                    &&& final(self).panels@[i].global_menu.app_name@ == app_name@
                    &&& final(self).panels@[i].global_menu.items == items
                    &&& final(self).panels@[i].global_menu.has_menu
                    &&& final(self).panels@[i].global_menu.model() == old(self).panels@[i].global_menu.model()
                },
                None => final(self).panels == old(self).panels,
            },
    {
        if let Some(i) = self.focused_panel_index() {
            self.panels[i].global_menu.set_menu_from_json(app_name, items);
        }
    }

    /// The focused application has no D-Bus menu: the focused panel shows its name.
    pub fn on_no_menu(&mut self, app_name: &str)
        ensures
            focused_menu_step(*old(self), *final(self), |a: GlobalMenu, b: GlobalMenu| menu_named_only(a, b, app_name@)),
            final(self).primary_output_id == old(self).primary_output_id,
            final(self).focused_output_id == old(self).focused_output_id,
            final(self).focus_handle == old(self).focus_handle,
            final(self).panels@.len() == old(self).panels@.len(),
            match menu_panel(*old(self)) {
                Some(i) => {
                    &&& forall|j: int| 0 <= j < old(self).panels@.len() && j != i ==> #[trigger] final(self).panels@[j] == old(self).panels@[j]
                    &&& final(self).panels@[i].output_id == old(self).panels@[i].output_id
                    &&& final(self).panels@[i].is_primary == old(self).panels@[i].is_primary
                    &&& final(self).panels@[i].panel == old(self).panels@[i].panel
                    &&& final(self).panels@[i].global_menu.app_name@ == app_name@
                    &&& final(self).panels@[i].global_menu.items@.len() == 0
                    &&& !final(self).panels@[i].global_menu.has_menu
                    &&& final(self).panels@[i].global_menu.model() == close_sub(old(self).panels@[i].global_menu.model())
                },
                None => final(self).panels == old(self).panels,
            },
    {
        if let Some(i) = self.focused_panel_index() {
            self.panels[i].global_menu.set_app_name_only(app_name);
        }
    }

    /// F10 or the menu-activated event: the focused panel's menu activates.
    pub fn activate_focused_menu(&mut self)
        ensures
            focused_menu_step(*old(self), *final(self), |a: GlobalMenu, b: GlobalMenu| menu_activated(a, b)),
    {
        if let Some(i) = self.focused_panel_index() {
            self.panels[i].global_menu.activate();
        }
    }

    /// The focused panel's menu deactivates.
    pub fn deactivate_focused_menu(&mut self)
        ensures
            focused_menu_step(*old(self), *final(self), |a: GlobalMenu, b: GlobalMenu| menu_deactivated(a, b)),
    {
        if let Some(i) = self.focused_panel_index() {
            self.panels[i].global_menu.deactivate();
        }
    }

    /// F10: the focused panel's menu activates, or deactivates when active.
    pub fn toggle_focused_menu(&mut self)
        ensures
            focused_menu_step(
                *old(self),
                *final(self),
                |a: GlobalMenu, b: GlobalMenu|
                    if a.nav_state != MenuNavState::Inactive { menu_deactivated(a, b) } else { menu_activated(a, b) },
            ),
    {
        if let Some(i) = self.focused_panel_index() {
            if self.panels[i].global_menu.is_active() {
                self.panels[i].global_menu.deactivate();
            } else {
                self.panels[i].global_menu.activate();
            }
        }
    }

    /// A window entered (`on`) or left fullscreen: every Panel auto-hides or shows again.
    pub fn set_fullscreen_mode(&mut self, on: bool)
        ensures
            panels_fullscreen(*old(self), *final(self), on),
    {
        let mut i: usize = 0;
        while i < self.panels.len()
            invariant
                0 <= i <= self.panels@.len(),
                self.panels@.len() == old(self).panels@.len(),
                self.primary_output_id == old(self).primary_output_id,
                self.focused_output_id == old(self).focused_output_id,
                self.focus_handle == old(self).focus_handle,
                forall|j: int| 0 <= j < i ==> #[trigger] self.panels@[j] == (PanelEntry {
                    panel: Panel { is_fullscreen: on, slides_out: on && old(self).panels@[j].panel.slides_out, ..old(self).panels@[j].panel },
                    ..old(self).panels@[j]
                }),
                forall|j: int| i <= j < self.panels@.len() ==> #[trigger] self.panels@[j] == old(self).panels@[j],
            decreases self.panels@.len() - i,
        {
            if on {
                self.panels[i].panel.enter_fullscreen_mode();
            } else {
                self.panels[i].panel.exit_fullscreen_mode();
            }
            i = i + 1;
        }
    }

    /// Pointer motion reaches every panel: in fullscreen each one slides
    /// out unless the pointer is in the hot zone at the top edge.
    pub fn panels_pointer_motion(&mut self, in_hot_zone: bool)
        ensures
            final(self).primary_output_id == old(self).primary_output_id,
            final(self).focused_output_id == old(self).focused_output_id,
            final(self).focus_handle == old(self).focus_handle,
            final(self).panels@ == old(self).panels@.map_values(|e: PanelEntry| panel_after_motion(e, in_hot_zone)),
    {
        let mut i: usize = 0;
        while i < self.panels.len()
            invariant
                0 <= i <= self.panels@.len(),
                self.panels@.len() == old(self).panels@.len(),
                self.primary_output_id == old(self).primary_output_id,
                self.focused_output_id == old(self).focused_output_id,
                self.focus_handle == old(self).focus_handle,
                forall|j: int| 0 <= j < i ==> #[trigger] self.panels@[j] == panel_after_motion(old(self).panels@[j], in_hot_zone),
                forall|j: int| i <= j < self.panels@.len() ==> #[trigger] self.panels@[j] == old(self).panels@[j],
            decreases self.panels@.len() - i,
        {
            self.panels[i].panel.on_pointer_motion(in_hot_zone);
            i = i + 1;
        }
        assert(self.panels@ =~= old(self).panels@.map_values(|e: PanelEntry| panel_after_motion(e, in_hot_zone)));
    }

    /// The panel of output `output_id`, if any.
    pub fn panel_for_output(&self, output_id: u32) -> (r: Option<&PanelEntry>)
        ensures
            r matches Some(e) ==> find_output(self.panels@, output_id) matches Some(i) && *e == self.panels@[i],
            r is None ==> find_output(self.panels@, output_id) is None,
    {
        match find_output_index(&self.panels, output_id) {
            Some(i) => Some(&self.panels[i]),
            None => None,
        }
    }

    /// The panel marked primary, if any.
    pub fn primary_panel(&self) -> (r: Option<&PanelEntry>)
        ensures
            r matches Some(e) ==> find_primary(self.panels@) matches Some(i) && *e == self.panels@[i],
            r is None ==> find_primary(self.panels@) is None,
    {
        let mut i: usize = 0;
        while i < self.panels.len()
            invariant
                0 <= i <= self.panels@.len(),
                find_primary(self.panels@) == find_primary_from(self.panels@, i as int),
            decreases self.panels@.len() - i,
        {
            if self.panels[i].is_primary {
                return Some(&self.panels[i]);
            }
            i = i + 1;
        }
        None
    }

    /// The panel that shows the global menu.
    pub fn focused_panel(&self) -> (r: Option<&PanelEntry>)
        ensures
            r matches Some(e) ==> menu_panel(*self) matches Some(i) && *e == self.panels@[i],
            r is None ==> menu_panel(*self) is None,
    {
        match self.focused_panel_index() {
            Some(i) => Some(&self.panels[i]),
            None => None,
        }
    }
}

} // verus!
