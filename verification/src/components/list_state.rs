//! The selection of a list, kept in `ratatui`'s `ListState` so that the
//! widget that draws the list can be handed the very same value.

use ratatui::widgets::ListState;
use vstd::prelude::*;

verus! {

/// `ratatui`'s `ListState`, taken as it is: the library reads and writes
/// its selection through the functions below and leaves the rest to the
/// widget that draws the list.
#[verifier::external_type_specification]
#[verifier::external_body]
pub struct ExListState(ratatui::widgets::ListState);

/// The index that a list state has selected, if any.
pub uninterp spec fn selected_of(state: ListState) -> Option<usize>;

/// The index that selecting the next item leads to: the first item where
/// nothing was selected, else one further, stopping at the largest `usize`.
pub open spec fn next_index(selected: Option<usize>) -> usize {
    match selected {
        None => 0,
        Some(i) => if i == usize::MAX {
            i
        } else {
            (i + 1) as usize
        },
    }
}

/// The index that selecting the previous item leads to: the largest `usize`
/// where nothing was selected, else one back, stopping at 0.
pub open spec fn previous_index(selected: Option<usize>) -> usize {
    match selected {
        None => usize::MAX,
        Some(i) => if i == 0 {
            0
        } else {
            (i - 1) as usize
        },
    }
}

/// `ListState::default`: a list state with nothing selected.
#[verifier::external_body]
pub(crate) fn new_list_state() -> (state: ListState)
    ensures
        selected_of(state) is None,
{
    ListState::default()
}

/// `ListState::selected`: the selected index.
#[verifier::external_body]
pub(crate) fn selected(state: &ListState) -> (index: Option<usize>)
    ensures
        index == selected_of(*state),
{
    state.selected()
}

/// `ListState::select`: `index` becomes the selection.
#[verifier::external_body]
pub(crate) fn select(state: &mut ListState, index: Option<usize>)
    ensures
        selected_of(*final(state)) == index,
{
    state.select(index)
}

/// `ListState::select_next`: the selection moves one item on, or onto the
/// first item where nothing was selected. The state knows no item count, so
/// the index may pass the end of the list until the list is drawn.
#[verifier::external_body]
pub(crate) fn select_next(state: &mut ListState)
    ensures
        selected_of(*final(state)) == Some(next_index(selected_of(*old(state)))),
{
    state.select_next()
}

/// `ListState::select_previous`: the selection moves one item back, or onto
/// the largest index where nothing was selected.
#[verifier::external_body]
pub(crate) fn select_previous(state: &mut ListState)
    ensures
        selected_of(*final(state)) == Some(previous_index(selected_of(*old(state)))),
{
    state.select_previous()
}

} // verus!
