//! CockpitView: the zoomed-out overview of all windows as cards. Clicking a
//! card focuses its window and closes the view.
use vstd::prelude::*;
use crate::events::ShellEvent;

verus! {

/// A window card in CockpitView.
pub struct CockpitCard {
    pub window_handle: u64,
    pub title: String,
    pub app_id: String,
}

impl CockpitCard {
    pub fn new(handle: u64, title: &str, app_id: &str) -> (c: Self)
        ensures
            c.window_handle == handle,
            c.title@ == title@,
            c.app_id@ == app_id@,
    {
        CockpitCard { window_handle: handle, title: title.to_owned(), app_id: app_id.to_owned() }
    }
}

/// The card grid for `n` cards with room for `max_per_row` per row:
/// (columns, rows).
pub open spec fn grid_shape_of(n: int, max_per_row: int) -> (int, int) {
    let cols = if max_per_row < 1 { 1 } else if max_per_row < n { max_per_row } else { n };
    (cols, if n == 0 { 0 } else { (n + cols - 1) / cols })
}

/// Columns and rows of the card grid: as many columns as fit (at least
/// one, at most one per card) and enough rows for every card.
pub fn card_grid(n: usize, max_per_row: usize) -> (shape: (usize, usize))
    ensures
        shape.0 == grid_shape_of(n as int, max_per_row as int).0,
        shape.1 == grid_shape_of(n as int, max_per_row as int).1,
{
    let cols = if max_per_row < 1 {
        1
    } else if max_per_row < n {
        max_per_row
    } else {
        n
    };
    if n == 0 {
        return (cols, 0);
    }
    proof {
        vstd::arithmetic::div_mod::lemma_div_plus_one((n - 1) as int, cols as int);
    }
    (cols, (n - 1) / cols + 1)
}

/// The grid cell (row, column) of card `i` in a grid `cols` wide.
pub fn card_slot(i: usize, cols: usize) -> (slot: (usize, usize))
    requires
        cols > 0,
    ensures
        slot == ((i / cols) as usize, (i % cols) as usize),
{
    (i / cols, i % cols)
}

/// Cards laid out in the grid never share a cell, and every card's cell
/// lies inside the grid.
pub proof fn cards_fill_distinct_cells(n: int, max_per_row: int, i: int, j: int)
    requires
        0 <= i < n,
        0 <= j < n,
        i != j,
    ensures
        ({
            let (cols, rows) = grid_shape_of(n, max_per_row);
            &&& cols > 0
            &&& i / cols < rows && i % cols < cols
            &&& (i / cols, i % cols) != (j / cols, j % cols)
        }),
{
    let (cols, rows) = grid_shape_of(n, max_per_row);
    assert(cols > 0);
    vstd::arithmetic::div_mod::lemma_fundamental_div_mod(i, cols);
    vstd::arithmetic::div_mod::lemma_fundamental_div_mod(j, cols);
    vstd::arithmetic::div_mod::lemma_mod_bound(i, cols);
    assert(i / cols < rows) by {
        vstd::arithmetic::div_mod::lemma_div_is_ordered(i, n - 1, cols);
        vstd::arithmetic::div_mod::lemma_fundamental_div_mod(n + cols - 1, cols);
        assert((n - 1) / cols + 1 == (n + cols - 1) / cols) by {
            vstd::arithmetic::div_mod::lemma_div_plus_one(n - 1, cols);
        }
    }
    if i / cols == j / cols && i % cols == j % cols {
        assert(i == cols * (i / cols) + i % cols);
        assert(j == cols * (j / cols) + j % cols);
    }
}

pub struct CockpitView {
    pub is_open: bool,
    pub active_desktop: usize,
    pub desktop_count: usize,
    pub cards: Vec<CockpitCard>,
}

impl CockpitView {
    pub fn new() -> (c: Self)
        ensures
            !c.is_open,
            c.active_desktop == 0,
            c.desktop_count == 1,
            c.cards@.len() == 0,
    {
        CockpitView { is_open: false, active_desktop: 0, desktop_count: 1, cards: Vec::new() }
    }

    /// Zooms out to the overview; publishes `CockpitViewOpened`.
    pub fn open(&mut self) -> (published: ShellEvent)
        ensures
            *final(self) == (CockpitView { is_open: true, ..*old(self) }),
            published == ShellEvent::CockpitViewOpened,
    {
        self.is_open = true;
        ShellEvent::CockpitViewOpened
    }

    /// Zooms back in; the cards spring back to their windows. Publishes
    /// `CockpitViewClosed`.
    pub fn close(&mut self) -> (published: ShellEvent)
        ensures
            *final(self) == (CockpitView { is_open: false, ..*old(self) }),
            published == ShellEvent::CockpitViewClosed,
    {
        self.is_open = false;
        ShellEvent::CockpitViewClosed
    }

    /// A pointer button over the card of window `card` (`None`: no card
    /// under the pointer). A press while open closes the view; the result
    /// is the window to focus and the close event to publish.
    pub fn on_pointer_button(&mut self, card: Option<u64>, pressed: bool) -> (r: (Option<u64>, Option<ShellEvent>))
        ensures
            (!old(self).is_open || !pressed) ==> *final(self) == *old(self) && r == (None::<u64>, None::<ShellEvent>),
            (old(self).is_open && pressed) ==> {
                &&& *final(self) == (CockpitView { is_open: false, ..*old(self) })
                &&& r == (card, Some(ShellEvent::CockpitViewClosed))
            },
    {
        if !self.is_open || !pressed {
            return (None, None);
        }
        let ev = self.close();
        (card, Some(ev))
    }

    /// Sets the window cards from the window manager.
    pub fn set_cards(&mut self, cards: Vec<CockpitCard>)
        ensures
            *final(self) == (CockpitView { cards: cards, ..*old(self) }),
    {
        self.cards = cards;
    }
}

} // verus!
