//! The two widget states that a session holds: the list state of
//! `ratatui`, which says which entry of a list is highlighted, and the text
//! field of `tui_input`. Neither is verified here: what this module states
//! of them is taken from their sources.

use ratatui::widgets::ListState;
use tui_input::Input;
use vstd::prelude::*;

verus! {

#[verifier::external_type_specification]
#[verifier::external_body]
pub struct ExListState(ratatui::widgets::ListState);

#[verifier::external_type_specification]
#[verifier::external_body]
pub struct ExInput(tui_input::Input);

/// The entry that a list state has as selected, which a list draws
/// highlighted: what `ListState::selected` returns.
pub uninterp spec fn highlighted(state: ListState) -> Option<usize>;

/// The text that a text field holds: what `Input::value` returns.
pub uninterp spec fn typed(input: Input) -> Seq<char>;

/// `ListState::default`: a list state with no entry selected.
pub assume_specification[ <ListState as Default>::default ]() -> (r: ListState)
    ensures
        highlighted(r) is None,
;

/// `ListState::with_selected`: the list state with its selected entry set to
/// the one given.
pub assume_specification[ ListState::with_selected ](
    state: ListState,
    selected: Option<usize>,
) -> (r: ListState)
    ensures
        highlighted(r) == selected,
;

/// `ListState::select`: sets the selected entry to the one given.
pub assume_specification[ ListState::select ](state: &mut ListState, index: Option<usize>)
    ensures
        highlighted(*final(state)) == index,
;

/// `ListState::selected`: the selected entry.
pub assume_specification[ ListState::selected ](state: &ListState) -> (r: Option<usize>)
    ensures
        r == highlighted(*state),
;

/// `Input::default`: a text field that holds no text.
pub assume_specification[ <Input as Default>::default ]() -> (r: Input)
    ensures
        typed(r) == Seq::<char>::empty(),
;

/// `Input::value`: the text that the field holds.
pub assume_specification<'a>[ Input::value ](input: &'a Input) -> (r: &'a str)
    ensures
        r@ == typed(*input),
;

/// `Input::reset`: empties the field.
pub assume_specification[ Input::reset ](input: &mut Input)
    ensures
        typed(*final(input)) == Seq::<char>::empty(),
;

/// A fresh list state that has the given entry as selected.
pub fn list_state_at(entry: usize) -> (r: ListState)
    ensures
        highlighted(r) == Some(entry),
{
    let mut state = ListState::with_selected(ListState::default(), Some(entry));
    state.select(Some(entry));
    state
}

} // verus!
