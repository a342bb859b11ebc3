//! The position in the node table: which row is selected, and which comes first.

use ratatui::widgets::TableState;
use vstd::prelude::*;

verus! {

/// Scroll offset and selected row of a table.
#[derive(Clone, Copy, Debug, PartialEq, Eq, Structural)]
pub struct TableSelection {
    /// Index of the first row on the screen.
    pub offset: usize,
    /// Index of the selected row, if one is selected.
    pub selected: Option<usize>,
}

/// `ratatui::widgets::TableState::select`, on a state that is given and handed back by
/// its offset and its selected row. The selected row becomes `index`; the offset stays,
/// but for `None`, with which it goes back to the first row.
#[verifier::external_body]
fn select_row(offset: usize, selected: Option<usize>, index: Option<usize>) -> (res: (
    usize,
    Option<usize>,
))
    ensures
        res.0 == (if index is None { 0 } else { offset }),
        res.1 == index,
{
    let mut state = TableState::new().with_offset(offset).with_selected(selected);
    state.select(index);
    (state.offset(), state.selected())
}

impl TableSelection {
    /// This position with `index` selected: scrolled to the top where nothing is.
    pub open spec fn selecting(self, index: Option<usize>) -> TableSelection {
        TableSelection {
            offset: if index is None { 0 } else { self.offset },
            selected: index,
        }
    }

    /// The position before anything was selected or scrolled.
    pub fn new() -> (res: TableSelection)
        ensures
            res == (TableSelection { offset: 0, selected: None }),
    {
        TableSelection { offset: 0, selected: None }
    }

    /// Selects the row `index`, or none.
    pub fn select(&mut self, index: Option<usize>)
        ensures
            *final(self) == old(self).selecting(index),
    {
        let (offset, selected): (usize, Option<usize>) = select_row(
            self.offset,
            self.selected,
            index,
        );
        self.offset = offset;
        self.selected = selected;
    }
}

} // verus!
