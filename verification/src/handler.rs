//! The entry point for key events.

use crate::app::{App, AppResult, Screen};
use crate::key::Key;
use crate::views::home::{step, Home};
use vstd::prelude::*;

verus! {

/// Handles the key events and updates the state of [`App`]: hands the key to
/// the screen that is shown. It never fails.
pub fn handle_key_events(key_event: Key, app: &mut App) -> (result: AppResult<()>)
    ensures
        result is Ok,
        final(app)@ == step(old(app)@, key_event),
        final(app).screen == old(app).screen,
        old(app)@.wf() ==> final(app)@.wf(),
{
    let mut home = Home::new();
    match app.screen {
        Screen::Home => home.handle_key(key_event, app),
    }
    Ok(())
}

} // verus!
