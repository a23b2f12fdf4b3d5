//! Input router: maps discrete key-press events to application-state
//! operations, gated by the current screen mode.

use vstd::prelude::*;

use crate::app::{
    append_step, backspace_step, cancel_add_step, cursor_down_step, cursor_up_step,
    delete_ok_step, enter_add_step, is_write_error, save_ok_step, toggle_ok_step, App, AppError,
    Selection,
};

verus! {

/// A discrete key press, as the router sees it. Release events never reach
/// the router.
#[derive(Clone, Copy, Debug)]
pub enum Key {
    Char(char),
    Enter,
    Esc,
    Backspace,
    Up,
    Down,
    Other,
}

/// The dispatch table for the browsing screen: `q` quits, `d` deletes the
/// selection (a no-op on the "New Entry" row), `Enter` opens the add-item
/// prompt on the "New Entry" row and toggles completion on an item, the
/// arrow keys move the cursor, and every other key does nothing. A storage
/// error leaves the state unmodified and comes back to the caller.
pub open spec fn browsing_outcome(pre: App, post: App, key: Key, r: Result<bool, AppError>) -> bool {
    match key {
        Key::Char(c) => if c == 'q' {
            r == Ok::<bool, AppError>(true) && post == pre
        } else if c == 'd' {
            match pre.todo_cursor_pos {
                Selection::NewEntryRow => r == Ok::<bool, AppError>(false) && post == pre,
                Selection::ItemAt(_) => match r {
                    Ok(quit) => !quit && delete_ok_step(pre, post),
                    Err(e) => post == pre && is_write_error(e),
                },
            }
        } else {
            r == Ok::<bool, AppError>(false) && post == pre
        },
        Key::Enter => match pre.todo_cursor_pos {
            Selection::NewEntryRow => r == Ok::<bool, AppError>(false) && enter_add_step(pre, post),
            Selection::ItemAt(_) => match r {
                Ok(quit) => !quit && toggle_ok_step(pre, post),
                Err(e) => post == pre && is_write_error(e),
            },
        },
        Key::Up => r == Ok::<bool, AppError>(false) && cursor_up_step(pre, post),
        Key::Down => r == Ok::<bool, AppError>(false) && cursor_down_step(pre, post),
        Key::Esc | Key::Backspace | Key::Other => r == Ok::<bool, AppError>(false) && post == pre,
    }
}

/// The dispatch table for the add-item prompt: `Enter` submits the
/// buffered name (a no-op while the buffer is empty), `Esc` cancels,
/// `Backspace` erases one character, a printable character lands in the
/// buffer, and every other key does nothing. A storage error leaves the
/// state unmodified and comes back to the caller.
pub open spec fn adding_outcome(pre: App, post: App, key: Key, r: Result<bool, AppError>) -> bool {
    match key {
        Key::Enter => match r {
            Ok(quit) => !quit && save_ok_step(pre, post),
            Err(e) => post == pre && pre.input@.len() > 0 && is_write_error(e),
        },
        Key::Esc => r == Ok::<bool, AppError>(false) && cancel_add_step(pre, post),
        Key::Backspace => r == Ok::<bool, AppError>(false) && backspace_step(pre, post),
        Key::Char(c) => r == Ok::<bool, AppError>(false) && append_step(pre, post, c),
        Key::Up | Key::Down | Key::Other => r == Ok::<bool, AppError>(false) && post == pre,
    }
}

/// Apply one key press to the state, according to the dispatch table of
/// the current screen. Returns `Ok(true)` when the session should end,
/// `Ok(false)` to keep going, and an error when the triggered action
/// failed; an error never ends the session on its own, and the state then
/// holds exactly what it held before.
pub fn handle_key(app: &mut App, key: Key) -> (r: Result<bool, AppError>)
    requires
        old(app).inv(),
    ensures
        final(app).inv(),
        old(app).current_screen is Main ==> browsing_outcome(*old(app), *final(app), key, r),
        old(app).current_screen is Adding ==> adding_outcome(*old(app), *final(app), key, r),
{
    match app.current_screen {
        crate::app::CurrentScreen::Main => match key {
            Key::Char(c) => {
                if c == 'q' {
                    Ok(true)
                } else if c == 'd' {
                    match app.todo_cursor_pos {
                        Selection::NewEntryRow => Ok(false),
                        Selection::ItemAt(_) => match app.delete_todo_item() {
                            Ok(()) => Ok(false),
                            Err(e) => Err(e),
                        },
                    }
                } else {
                    Ok(false)
                }
            }
            Key::Enter => match app.todo_cursor_pos {
                Selection::NewEntryRow => {
                    app.enter_add_mode();
                    Ok(false)
                }
                Selection::ItemAt(_) => match app.mark_item_complete() {
                    Ok(()) => Ok(false),
                    Err(e) => Err(e),
                },
            },
            Key::Up => {
                app.move_list_cursor_up();
                Ok(false)
            }
            Key::Down => {
                app.move_list_cursor_down();
                Ok(false)
            }
            Key::Esc | Key::Backspace | Key::Other => Ok(false),
        },
        crate::app::CurrentScreen::Adding => match key {
            Key::Enter => match app.save_todo_item() {
                Ok(()) => Ok(false),
                Err(e) => Err(e),
            },
            Key::Esc => {
                app.cancel_add_mode();
                Ok(false)
            }
            Key::Backspace => {
                app.backspace_input();
                Ok(false)
            }
            Key::Char(c) => {
                app.append_to_input(c);
                Ok(false)
            }
            Key::Up | Key::Down | Key::Other => Ok(false),
        },
    }
}

} // verus!
