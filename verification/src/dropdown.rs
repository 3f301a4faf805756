//! The dropdown list that opens below its trigger. Geometry, springs and
//! the dismiss callback are the caller's; it reports the row under the
//! pointer.
use vstd::prelude::*;

verus! {

/// A dropdown row; `A` is the type of the action run when it is chosen.
pub struct DropdownItem<A = fn()> {
    pub label: String,
    pub is_enabled: bool,
    pub on_select: Option<A>,
}

impl<A> DropdownItem<A> {
    /// An enabled row without an action.
    pub fn new(label: &str) -> (it: Self)
        ensures
            it.label@ == label@,
            it.is_enabled,
            it.on_select is None,
    {
        DropdownItem { label: label.to_owned(), is_enabled: true, on_select: None }
    }

    /// The row with the action run when it is chosen.
    pub fn with_action(self, action: A) -> (it: Self)
        ensures
            it == (DropdownItem { on_select: Some(action), ..self }),
    {
        DropdownItem { on_select: Some(action), ..self }
    }
}

/// The dropdown.
pub struct AEDropdown<A = fn()> {
    pub items: Vec<DropdownItem<A>>,
    pub is_visible: bool,
    /// The highlighted row: always a row of `items`.
    pub hovered_index: Option<usize>,
    /// The row chosen by the last click, whose action the caller runs.
    pub chosen_index: Option<usize>,
}

/// `b` is `a` dismissed: hidden, nothing highlighted.
pub open spec fn dropdown_dismissed<A>(a: AEDropdown<A>, b: AEDropdown<A>) -> bool {
    b == (AEDropdown { is_visible: false, hovered_index: None, ..a })
}

impl<A> AEDropdown<A> {
    /// The highlight, when there is one, is a row of the list.
    pub open spec fn wf(&self) -> bool {
        self.hovered_index matches Some(i) ==> i < self.items@.len()
    }

    /// A closed dropdown over `items`.
    pub fn new(items: Vec<DropdownItem<A>>) -> (d: Self)
        ensures
            d.wf(),
            d.items == items,
            !d.is_visible,
            d.hovered_index is None,
            d.chosen_index is None,
    {
        AEDropdown { items, is_visible: false, hovered_index: None, chosen_index: None }
    }

    /// Drops the list open below its trigger.
    pub fn open(&mut self)
        ensures
            *final(self) == (AEDropdown { is_visible: true, ..*old(self) }),
    {
        self.is_visible = true;
    }

    /// Closes the list; the caller then runs the dismiss callback.
    pub fn dismiss(&mut self)
        ensures
            dropdown_dismissed(*old(self), *final(self)),
    {
        self.is_visible = false;
        self.hovered_index = None;
    }

    /// The pointer moved over row `row` (`None`: outside the list).
    pub fn on_pointer_motion(&mut self, row: Option<usize>)
        requires
            old(self).wf(),
        ensures
            final(self).wf(),
            !old(self).is_visible ==> *final(self) == *old(self),
            old(self).is_visible ==> *final(self) == (AEDropdown {
                hovered_index: match row {
                    Some(i) => if i < old(self).items@.len() { Some(i) } else { None },
                    None => None,
                },
                ..*old(self)
            }),
    {
        if !self.is_visible {
            return;
        }
        if let Some(i) = row {
            if i < self.items.len() {
                self.hovered_index = Some(i);
                return;
            }
        }
        self.hovered_index = None;
    }

    /// A pointer button over the list (`inside`) at row `row`: a press
    /// outside closes it, a press on an enabled row chooses it and closes
    /// it. True when consumed.
    pub fn on_pointer_button(&mut self, inside: bool, row: Option<usize>, pressed: bool) -> (consumed: bool)
        requires
            old(self).wf(),
        ensures
            final(self).wf(),
            if !old(self).is_visible || !pressed {
                !consumed && *final(self) == *old(self)
            } else if !inside {
                consumed && dropdown_dismissed(*old(self), *final(self))
            } else if row matches Some(i) && i < old(self).items@.len() && old(self).items@[i as int].is_enabled {
                &&& consumed
                &&& *final(self) == (AEDropdown {
                    is_visible: false,
                    hovered_index: None,
                    chosen_index: row,
                    ..*old(self)
                })
            } else {
                !consumed && *final(self) == *old(self)
            },
    {
        if !self.is_visible || !pressed {
            return false;
        }
        if !inside {
            self.dismiss();
            return true;
        }
        if let Some(i) = row {
            if i < self.items.len() && self.items[i].is_enabled {
                self.chosen_index = Some(i);
                self.dismiss();
                return true;
            }
        }
        false
    }
}

} // verus!
