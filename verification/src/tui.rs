//! Calls into the terminal toolkit.
//!
//! Each function here makes one call into `ratatui` or `tui-input`. Verus does
//! not read these bodies: their contracts restate what the toolkit's source
//! does, and the rest of the crate is proved from them.

use crate::model::input::{EditRequest, InputView};
use ratatui::widgets::ListState;
use tui_input::{Input, InputRequest};
use vstd::prelude::*;

verus! {

/// `ListState::select_next`, on a list state whose selection is `selected`.
///
/// The toolkit moves the selection one entry on without looking at the length
/// of any list: with no selection it selects index 0, and the index saturates
/// at `usize::MAX`.
#[verifier::external_body]
pub(crate) fn list_state_select_next(selected: Option<usize>) -> (moved: Option<usize>)
    ensures
        moved == Some(
            match selected {
                None => 0usize,
                Some(i) => if i < usize::MAX { (i + 1) as usize } else { usize::MAX },
            },
        ),
{
    let mut state = ListState::default().with_selected(selected);
    state.select_next();
    state.selected()
}

/// `ListState::select_previous`, on a list state whose selection is `selected`.
///
/// The toolkit moves the selection one entry back and stops at index 0. With no
/// selection it asks for the last entry by selecting `usize::MAX`.
#[verifier::external_body]
pub(crate) fn list_state_select_previous(selected: Option<usize>) -> (moved: Option<usize>)
    ensures
        moved == Some(
            match selected {
                None => usize::MAX,
                Some(i) => if i > 0 { (i - 1) as usize } else { 0usize },
            },
        ),
{
    let mut state = ListState::default().with_selected(selected);
    state.select_previous();
    state.selected()
}

/// `ListState::select_first`, on a list state whose selection is `selected`:
/// index 0 is selected, whatever was selected before.
#[verifier::external_body]
pub(crate) fn list_state_select_first(selected: Option<usize>) -> (moved: Option<usize>)
    ensures
        moved == Some(0usize),
{
    let mut state = ListState::default().with_selected(selected);
    state.select_first();
    state.selected()
}

/// `ListState::select_last`, on a list state whose selection is `selected`:
/// the toolkit asks for the last entry by selecting `usize::MAX`.
#[verifier::external_body]
pub(crate) fn list_state_select_last(selected: Option<usize>) -> (moved: Option<usize>)
    ensures
        moved == Some(usize::MAX),
{
    let mut state = ListState::default().with_selected(selected);
    state.select_last();
    state.selected()
}

/// `Input::handle`, on a text input that holds `value` with its cursor at
/// `cursor`, for the request that `request` stands for. The result is the
/// input's value and cursor after the call.
///
/// `Input::with_cursor` moves a cursor that lies behind the value to its end.
/// From there the toolkit inserts the character at the cursor and steps over
/// it, deletes the character before the cursor, or moves the cursor by one
/// character; at the start or the end of the value, where there is nothing to
/// delete or nowhere to go, it leaves the input as it is.
#[verifier::external_body]
pub(crate) fn input_handle(value: &str, cursor: usize, request: EditRequest) -> (edited: (
    String,
    usize,
))
    ensures
        (InputView { value: edited.0@, cursor: edited.1 as int }) == (InputView {
            value: value@,
            cursor: cursor as int,
        }).handle(request),
{
    let mut input = Input::new(value.to_string()).with_cursor(cursor);
    input.handle(
        match request {
            EditRequest::InsertChar(c) => InputRequest::InsertChar(c),
            EditRequest::DeletePrevChar => InputRequest::DeletePrevChar,
            EditRequest::GoToPrevChar => InputRequest::GoToPrevChar,
            EditRequest::GoToNextChar => InputRequest::GoToNextChar,
        },
    );
    (input.value().to_string(), input.cursor())
}

/// How far `Input::visual_scroll` scrolls an input that holds `value` with
/// its cursor at `cursor`, shown in a field `width` cells wide. The toolkit
/// counts in terminal cells, by the width that Unicode gives each character.
pub uninterp spec fn visual_scroll_of(value: Seq<char>, cursor: int, width: int) -> int;

/// `Input::visual_scroll`, on a text input that holds `value` with its cursor
/// at `cursor`, for a field `width` cells wide.
///
/// The contract gives the result its name and no more: the same value, cursor
/// and width always scroll by the same number of cells.
#[verifier::external_body]
pub(crate) fn input_visual_scroll(value: &str, cursor: usize, width: usize) -> (scroll: usize)
    ensures
        scroll == visual_scroll_of(value@, cursor as int, width as int),
{
    Input::new(value.to_string()).with_cursor(cursor).visual_scroll(width)
}

} // verus!
