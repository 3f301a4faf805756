//! The right-click context menu: its items, their selectable subset, and
//! keyboard and pointer navigation. Positions, springs and hit tests in
//! screen coordinates are the caller's; it reports which item row, if any,
//! lies under the pointer.
use vstd::prelude::*;

verus! {

/// Keysyms the menu reacts to.
pub const XK_ESCAPE: u32 = 0xff1b;
pub const XK_RETURN: u32 = 0xff0d;
pub const XK_UP: u32 = 0xff52;
pub const XK_DOWN: u32 = 0xff54;

/// Heights in pixels of a row, a separator, and the vertical padding.
pub const ITEM_HEIGHT: u64 = 30;
pub const SEPARATOR_HEIGHT: u64 = 9;
pub const PADDING_V: u64 = 4;

#[derive(PartialEq, Eq, Structural, Clone, Copy, Debug)]
pub enum ContextMenuItemType {
    Normal,
    Separator,
    Checkbox { checked: bool },
    Submenu,
}

/// A menu row; `A` is the type of the action run when it is chosen.
pub struct ContextMenuItem<A = fn()> {
    pub label: String,
    pub item_type: ContextMenuItemType,
    pub is_enabled: bool,
    pub shortcut: Option<String>,
    pub on_select: Option<A>,
    pub children: Vec<ContextMenuItem<A>>,
}

impl<A> ContextMenuItem<A> {
    /// An enabled plain item.
    pub fn new(label: &str) -> (it: Self)
        ensures
            it.label@ == label@,
            it.item_type == ContextMenuItemType::Normal,
            it.is_enabled,
            it.shortcut is None,
            it.on_select is None,
            it.children@.len() == 0,
    {
        ContextMenuItem {
            label: label.to_owned(),
            item_type: ContextMenuItemType::Normal,
            is_enabled: true,
            shortcut: None,
            on_select: None,
            children: Vec::new(),
        }
    }

    /// A divider line; never selectable.
    pub fn separator() -> (it: Self)
        ensures
            it.label@.len() == 0,
            it.item_type == ContextMenuItemType::Separator,
            !it.is_enabled,
            it.shortcut is None,
            it.on_select is None,
            it.children@.len() == 0,
    {
        ContextMenuItem {
            label: String::new(),
            item_type: ContextMenuItemType::Separator,
            is_enabled: false,
            shortcut: None,
            on_select: None,
            children: Vec::new(),
        }
    }

    /// An enabled checkbox item.
    pub fn checkbox(label: &str, checked: bool) -> (it: Self)
        ensures
            it.label@ == label@,
            it.item_type == (ContextMenuItemType::Checkbox { checked }),
            it.is_enabled,
            it.shortcut is None,
            it.on_select is None,
            it.children@.len() == 0,
    {
        ContextMenuItem {
            label: label.to_owned(),
            item_type: ContextMenuItemType::Checkbox { checked },
            is_enabled: true,
            shortcut: None,
            on_select: None,
            children: Vec::new(),
        }
    }

    /// The item with a keyboard shortcut hint.
    pub fn with_shortcut(self, shortcut: &str) -> (it: Self)
        ensures
            it.shortcut matches Some(s) && s@ == shortcut@,
            it.label == self.label,
            it.item_type == self.item_type,
            it.is_enabled == self.is_enabled,
            it.on_select == self.on_select,
            it.children == self.children,
    {
        ContextMenuItem { shortcut: Some(shortcut.to_owned()), ..self }
    }

    /// The item with the action run when it is chosen.
    pub fn with_action(self, action: A) -> (it: Self)
        ensures
            it == (ContextMenuItem { on_select: Some(action), ..self }),
    {
        ContextMenuItem { on_select: Some(action), ..self }
    }
}

/// The row can be hovered and chosen: not a separator, and enabled.
pub open spec fn selectable<A>(it: ContextMenuItem<A>) -> bool {
    it.item_type != ContextMenuItemType::Separator && it.is_enabled
}

/// The first selectable row at `from` or later.
pub open spec fn next_selectable<A>(s: Seq<ContextMenuItem<A>>, from: int) -> Option<int>
    decreases s.len() - from,
{
    if 0 <= from < s.len() {
        if selectable(s[from]) { Some(from) } else { next_selectable(s, from + 1) }
    } else {
        None
    }
}

/// The last selectable row before `before`.
pub open spec fn prev_selectable<A>(s: Seq<ContextMenuItem<A>>, before: int) -> Option<int>
    decreases before,
{
    if 0 < before <= s.len() {
        if selectable(s[before - 1]) { Some(before - 1) } else { prev_selectable(s, before - 1) }
    } else {
        None
    }
}

proof fn lemma_next_selectable<A>(s: Seq<ContextMenuItem<A>>, from: int)
    requires
        0 <= from,
    ensures
        next_selectable(s, from) matches Some(k) ==> from <= k < s.len() && selectable(s[k]) && forall|j: int|
            from <= j < k ==> !selectable(#[trigger] s[j]),
        next_selectable(s, from) is None ==> forall|j: int| from <= j < s.len() ==> !selectable(#[trigger] s[j]),
    decreases s.len() - from,
{
    if from < s.len() {
        lemma_next_selectable(s, from + 1);
    }
}

proof fn lemma_prev_selectable<A>(s: Seq<ContextMenuItem<A>>, before: int)
    requires
        before <= s.len(),
    ensures
        prev_selectable(s, before) matches Some(k) ==> 0 <= k < before && selectable(s[k]) && forall|j: int|
            k < j < before ==> !selectable(#[trigger] s[j]),
        prev_selectable(s, before) is None ==> forall|j: int| 0 <= j < before ==> !selectable(#[trigger] s[j]),
    decreases before,
{
    if 0 < before {
        lemma_prev_selectable(s, before - 1);
    }
}

/// Number of separator rows.
pub open spec fn separator_count<A>(s: Seq<ContextMenuItem<A>>) -> nat
    decreases s.len(),
{
    if s.len() == 0 {
        0
    } else {
        separator_count(s.drop_last()) + if s.last().item_type == ContextMenuItemType::Separator { 1nat } else { 0nat }
    }
}

proof fn lemma_separator_count_bound<A>(s: Seq<ContextMenuItem<A>>)
    ensures
        separator_count(s) <= s.len(),
    decreases s.len(),
{
    if s.len() > 0 {
        lemma_separator_count_bound(s.drop_last());
    }
}

/// Height in pixels of a menu with rows `s`.
pub open spec fn menu_height<A>(s: Seq<ContextMenuItem<A>>) -> int {
    (s.len() - separator_count(s)) * ITEM_HEIGHT + separator_count(s) * SEPARATOR_HEIGHT + 2 * PADDING_V
}

/// Height in pixels of one row.
pub open spec fn row_height<A>(it: ContextMenuItem<A>) -> int {
    if it.item_type == ContextMenuItemType::Separator { SEPARATOR_HEIGHT as int } else { ITEM_HEIGHT as int }
}

/// Offset of row `i` below the menu's top edge.
pub open spec fn row_top<A>(s: Seq<ContextMenuItem<A>>, i: int) -> int
    decreases i,
{
    if i <= 0 { PADDING_V as int } else { row_top(s, i - 1) + row_height(s[i - 1]) }
}

/// The row at `offset` pixels below the menu's top edge, searching from row `k`.
pub open spec fn row_at_from<A>(s: Seq<ContextMenuItem<A>>, offset: int, k: int) -> Option<int>
    decreases s.len() - k,
{
    if 0 <= k < s.len() {
        if row_top(s, k) <= offset < row_top(s, k) + row_height(s[k]) {
            Some(k)
        } else {
            row_at_from(s, offset, k + 1)
        }
    } else {
        None
    }
}

/// Rows start no higher than the rows above them.
proof fn lemma_row_top_monotone<A>(s: Seq<ContextMenuItem<A>>, i: int, j: int)
    requires
        0 <= i <= j,
    ensures
        row_top(s, i) <= row_top(s, j),
    decreases j,
{
    if i < j {
        lemma_row_top_monotone(s, i, j - 1);
    }
}

/// No row at or after `k` contains an offset above row `k`.
proof fn lemma_row_at_above<A>(s: Seq<ContextMenuItem<A>>, offset: int, k: int)
    requires
        0 <= k,
        offset < row_top(s, k),
    ensures
        row_at_from(s, offset, k) is None,
    decreases s.len() - k,
{
    if k < s.len() {
        lemma_row_top_monotone(s, k, k + 1);
        lemma_row_at_above(s, offset, k + 1);
    }
}

/// The context menu.
pub struct AEContextMenu<A = fn()> {
    pub items: Vec<ContextMenuItem<A>>,
    pub is_visible: bool,
    /// The highlighted row: always a row of `items`.
    pub hovered_index: Option<usize>,
    /// The row chosen by the last click or Return, whose action the caller
    /// runs.
    pub chosen_index: Option<usize>,
    /// Height in pixels of the shown menu.
    pub height: u64,
}

/// `b` is `a` dismissed: hidden, nothing highlighted.
pub open spec fn dismissed<A>(a: AEContextMenu<A>, b: AEContextMenu<A>) -> bool {
    b == (AEContextMenu { is_visible: false, hovered_index: None, ..a })
}

/// `b` is `a` after choosing row `i`: its action is to run and the menu closes.
pub open spec fn chose<A>(a: AEContextMenu<A>, b: AEContextMenu<A>, i: usize) -> bool {
    b == (AEContextMenu { is_visible: false, hovered_index: None, chosen_index: Some(i), ..a })
}

impl<A> AEContextMenu<A> {
    /// The highlight, when there is one, is a selectable row of the menu.
    pub open spec fn wf(&self) -> bool {
        self.hovered_index matches Some(i) ==> i < self.items@.len() && selectable(self.items@[i as int])
    }

    pub fn new() -> (m: Self)
        ensures
            m.wf(),
            m.items@.len() == 0,
            !m.is_visible,
            m.hovered_index is None,
            m.chosen_index is None,
            m.height == 0,
    {
        AEContextMenu { items: Vec::new(), is_visible: false, hovered_index: None, chosen_index: None, height: 0 }
    }

    /// The row under a pointer `offset` pixels below the menu's top edge:
    /// rows follow the top padding, separators being thinner than items.
    pub fn row_at(&self, offset: u64) -> (r: Option<usize>)
        ensures
            r matches Some(i) ==> row_at_from(self.items@, offset as int, 0) == Some(i as int),
            r is None ==> row_at_from(self.items@, offset as int, 0) is None,
    {
        if offset < PADDING_V {
            proof {
                lemma_row_at_above(self.items@, offset as int, 0);
            }
            return None;
        }
        let mut cur: u64 = PADDING_V;
        let mut i: usize = 0;
        while i < self.items.len()
            invariant
                0 <= i <= self.items@.len(),
                cur == row_top(self.items@, i as int),
                cur <= offset,
                row_at_from(self.items@, offset as int, 0) == row_at_from(self.items@, offset as int, i as int),
            decreases self.items@.len() - i,
        {
            let h: u64 = if self.items[i].item_type == ContextMenuItemType::Separator {
                SEPARATOR_HEIGHT
            } else {
                ITEM_HEIGHT
            };
            if offset - cur < h {
                return Some(i);
            }
            cur = cur + h;
            i = i + 1;
        }
        None
    }

    /// Shows `items` at the cursor (the caller clamps the position to the
    /// screen) with nothing highlighted.
    pub fn show(&mut self, items: Vec<ContextMenuItem<A>>)
        requires
            items@.len() * ITEM_HEIGHT + 2 * PADDING_V <= u64::MAX,
        ensures
            final(self).wf(),
            final(self).items == items,
            final(self).is_visible,
            final(self).hovered_index is None,
            final(self).chosen_index is None,
            final(self).height == menu_height(items@),
    {
        let mut separators: u64 = 0;
        let mut i: usize = 0;
        while i < items.len()
            invariant
                0 <= i <= items@.len(),
                separators == separator_count(items@.subrange(0, i as int)),
                separators <= i,
            decreases items@.len() - i,
        {
            proof {
                assert(items@.subrange(0, i + 1).drop_last() =~= items@.subrange(0, i as int));
            }
            if items[i].item_type == ContextMenuItemType::Separator {
                separators = separators + 1;
            }
            i = i + 1;
        }
        assert(items@.subrange(0, i as int) =~= items@);
        let n = items.len() as u64;
        let rows = n - separators;
        assert(rows * ITEM_HEIGHT + separators * SEPARATOR_HEIGHT <= n * ITEM_HEIGHT) by (nonlinear_arith)
            requires
                rows + separators == n,
        ;
        self.height = rows * ITEM_HEIGHT + separators * SEPARATOR_HEIGHT + 2 * PADDING_V;
        self.items = items;
        self.is_visible = true;
        self.hovered_index = None;
        self.chosen_index = None;
    }

    /// Closes the menu; nothing stays highlighted.
    pub fn dismiss(&mut self)
        ensures
            dismissed(*old(self), *final(self)),
    {
        self.is_visible = false;
        self.hovered_index = None;
    }

    fn pick(&mut self, i: usize)
        ensures
            chose(*old(self), *final(self), i),
    {
        self.chosen_index = Some(i);
        self.dismiss();
    }

    fn first_selectable_from(&self, from: usize) -> (r: Option<usize>)
        ensures
            r matches Some(k) ==> next_selectable(self.items@, from as int) == Some(k as int),
            r is None ==> next_selectable(self.items@, from as int) is None,
    {
        let mut k: usize = from;
        while k < self.items.len()
            invariant
                from <= k,
                next_selectable(self.items@, from as int) == next_selectable(self.items@, k as int),
            decreases self.items@.len() - k,
        {
            if self.items[k].item_type != ContextMenuItemType::Separator && self.items[k].is_enabled {
                return Some(k);
            }
            k = k + 1;
        }
        None
    }

    /// The pointer moved: `row` is the item row under it, `None` when it is
    /// outside the menu or between rows. Only selectable rows highlight.
    pub fn on_pointer_motion(&mut self, row: Option<usize>)
        requires
            old(self).wf(),
        ensures
            final(self).wf(),
            !old(self).is_visible ==> *final(self) == *old(self),
            old(self).is_visible ==> *final(self) == (AEContextMenu {
                hovered_index: match row {
                    Some(i) => if i < old(self).items@.len() && selectable(old(self).items@[i as int]) {
                        Some(i)
                    } else {
                        None
                    },
                    None => None,
                },
                ..*old(self)
            }),
    {
        if !self.is_visible {
            return;
        }
        if let Some(i) = row {
            if i < self.items.len() && self.items[i].item_type != ContextMenuItemType::Separator
                && self.items[i].is_enabled {
                self.hovered_index = Some(i);
                return;
            }
        }
        self.hovered_index = None;
    }

    /// A pointer button: `inside` says whether it is over the menu, `row`
    /// which item row. A press outside closes the menu; a press on a
    /// selectable row chooses it. True when the menu consumed the press.
    pub fn on_pointer_button(&mut self, inside: bool, row: Option<usize>, pressed: bool) -> (consumed: bool)
        requires
            old(self).wf(),
        ensures
            final(self).wf(),
            if !old(self).is_visible || !pressed {
                !consumed && *final(self) == *old(self)
            } else if !inside {
                consumed && dismissed(*old(self), *final(self))
            } else if row matches Some(i) && i < old(self).items@.len() && selectable(old(self).items@[i as int]) {
                consumed && chose(*old(self), *final(self), row.unwrap())
            } else {
                !consumed && *final(self) == *old(self)
            },
    {
        if !self.is_visible || !pressed {
            return false;
        }
        if !inside {
            self.dismiss();
            return true;
        }
        if let Some(i) = row {
            if i < self.items.len() && self.items[i].item_type != ContextMenuItemType::Separator
                && self.items[i].is_enabled {
                self.pick(i);
                return true;
            }
        }
        false
    }

    /// Keyboard: Esc closes, Return chooses the highlighted row, Down and
    /// Up move the highlight to the next or previous selectable row (Down
    /// with nothing highlighted takes the first). True when consumed.
    pub fn on_key(&mut self, sym: u32, mods: u32, pressed: bool) -> (consumed: bool)
        requires
            old(self).wf(),
        ensures
            final(self).wf(),
            if !old(self).is_visible || !pressed {
                !consumed && *final(self) == *old(self)
            } else if sym == XK_ESCAPE {
                consumed && dismissed(*old(self), *final(self))
            } else if sym == XK_RETURN {
                match old(self).hovered_index {
                    Some(i) => consumed && chose(*old(self), *final(self), i),
                    None => !consumed && *final(self) == *old(self),
                }
            } else if sym == XK_DOWN {
                &&& consumed
                &&& *final(self) == (AEContextMenu {
                    hovered_index: match old(self).hovered_index {
                        Some(i) => match next_selectable(old(self).items@, i + 1) {
                            Some(k) => Some(k as usize),
                            None => Some(i),
                        },
                        None => match next_selectable(old(self).items@, 0) {
                            Some(k) => Some(k as usize),
                            None => None,
                        },
                    },
                    ..*old(self)
                })
            } else if sym == XK_UP {
                &&& consumed
                &&& *final(self) == (AEContextMenu {
                    hovered_index: match old(self).hovered_index {
                        Some(i) => match prev_selectable(old(self).items@, i as int) {
                            Some(k) => Some(k as usize),
                            None => Some(i),
                        },
                        None => None,
                    },
                    ..*old(self)
                })
            } else {
                !consumed && *final(self) == *old(self)
            },
    {
        if !self.is_visible || !pressed {
            return false;
        }
        if sym == XK_ESCAPE {
            self.dismiss();
            return true;
        }
        if sym == XK_RETURN {
            match self.hovered_index {
                Some(i) => {
                    self.pick(i);
                    return true;
                },
                None => {
                    return false;
                },
            }
        }
        if sym == XK_DOWN {
            match self.hovered_index {
                Some(i) => {
                    assert(i < self.items.len());
                    if let Some(k) = self.first_selectable_from(i + 1) {
                        proof {
                            lemma_next_selectable(self.items@, i + 1);
                        }
                        self.hovered_index = Some(k);
                    }
                },
                None => {
                    if let Some(k) = self.first_selectable_from(0) {
                        proof {
                            lemma_next_selectable(self.items@, 0);
                        }
                        self.hovered_index = Some(k);
                    }
                },
            }
            return true;
        }
        if sym == XK_UP {
            if let Some(i) = self.hovered_index {
                proof {
                    lemma_prev_selectable(self.items@, i as int);
                }
                if i > 0 {
                    let mut prev: usize = i - 1;
                    while prev > 0 && (self.items[prev].item_type == ContextMenuItemType::Separator
                        || !self.items[prev].is_enabled)
                        invariant
                            0 <= prev < i,
                            i <= self.items@.len(),
                            forall|j: int| prev < j < i ==> !selectable(#[trigger] self.items@[j]),
                        decreases prev,
                    {
                        prev = prev - 1;
                    }
                    if self.items[prev].item_type != ContextMenuItemType::Separator && self.items[prev].is_enabled {
                        self.hovered_index = Some(prev);
                    }
                }
            }
            return true;
        }
        false
    }
}

} // verus!
