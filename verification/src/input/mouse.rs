//! The mouse in normal mode: hovering selects, clicking copies.

use crate::auth_core::app::{App, InputMode, Session};
use crate::input::event::{Action, MouseEvent, MouseEventKind};
use crate::utils::clock::Moment;
use vstd::prelude::*;

verus! {

/// Handles a mouse event at the moment `now`. Outside normal mode the mouse
/// does nothing. In normal mode a click asks for the code of the selected
/// entry to be copied, and a move over the row of an entry selects it.
pub fn handle_mouse_event(app: &mut App, event: MouseEvent, now: Moment) -> (action: Action)
    requires
        old(app)@.selection_valid(),
    ensures
        final(app)@ == old(app)@.on_mouse(event),
        old(app)@.answered(old(app)@.mouse_asks(event), action, final(app)@, now),
        final(app)@.selection_valid(),
{
    match app.input_mode {
        InputMode::Normal => {},
        _ => { return Action::Idle; },
    }
    match event.kind {
        MouseEventKind::Down => handle_mouse_click(app, now),
        MouseEventKind::Moved => {
            handle_mouse_hover(app, event.row as usize);
            Action::Idle
        },
        MouseEventKind::Other => Action::Idle,
    }
}

/// A click: asks for the code of the selected entry to be copied.
fn handle_mouse_click(app: &App, now: Moment) -> (action: Action)
    requires
        app@.selection_valid(),
    ensures
        match action {
            Action::CopyCode(code) => app@.code_to_copy(now) == Some(code@),
            Action::Idle => app@.code_to_copy(now) is None,
            _ => false,
        },
{
    app.copy_current_code(now)
}

/// A move over `row`: selects the entry shown there, if there is one.
fn handle_mouse_hover(app: &mut App, row: usize)
    ensures
        final(app)@ == if 1 <= row <= old(app)@.entries.len() {
            (Session { selected: row - 1, ..old(app)@ })
        } else {
            old(app)@
        },
{
    if row >= 1 && row <= app.entries.len() {
        app.selected = row - 1;
    }
}

} // verus!
