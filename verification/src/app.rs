//! Application state: the in-memory item list, the selection cursor, the
//! current screen mode and the pending input buffer, together with every
//! state-mutating operation and its interaction with the storage interface.

use vstd::prelude::*;

use crate::dbcontext::{DbContext, StorageError};

verus! {

/// Which screen the user is on: the main browsing list, or the add-item
/// prompt.
#[derive(Clone, Copy, PartialEq, Eq, Structural, Debug)]
pub enum CurrentScreen {
    Main,
    Adding,
}

/// What the selection cursor points at: the virtual "New Entry" row at the
/// top of the list, or the item at a given index.
#[derive(Clone, Copy, PartialEq, Eq, Structural, Debug)]
pub enum Selection {
    NewEntryRow,
    ItemAt(usize),
}

/// One todo entry. The identifier is a 128-bit value assigned at creation,
/// unique across all items, and the sole key for update and delete.
#[derive(Debug)]
pub struct TodoItem {
    pub id: u128,
    pub name: String,
    pub completed: bool,
}

/// Why an action failed: nothing was selected, or the store reported an
/// error.
#[derive(Clone, Copy, PartialEq, Eq, Structural, Debug)]
pub enum AppError {
    NoSelection,
    Storage(StorageError),
}

/// The application state. Created once per run, initialized by loading all
/// items from storage, and mutated in place by every user action.
pub struct App {
    pub db: DbContext,
    pub input: String,
    pub todo_cursor_pos: Selection,
    pub todo_items: Vec<TodoItem>,
    pub current_screen: CurrentScreen,
    pub currently_adding: bool,
}

/// The selection is either the virtual "New Entry" row or a valid index
/// into a list of `len` items.
pub open spec fn selection_in_range(s: Selection, len: nat) -> bool {
    match s {
        Selection::NewEntryRow => true,
        Selection::ItemAt(i) => i < len,
    }
}

/// Where the cursor lands after one step up: one index lower, stopping at
/// the "New Entry" row.
pub open spec fn cursor_up(s: Selection) -> Selection {
    match s {
        Selection::NewEntryRow => Selection::NewEntryRow,
        Selection::ItemAt(i) => if i == 0 {
            Selection::NewEntryRow
        } else {
            Selection::ItemAt((i - 1) as usize)
        },
    }
}

/// Where the cursor lands after one step down: one index higher, capped at
/// the last item; on an empty list the cursor does not move.
pub open spec fn cursor_down(s: Selection, len: nat) -> Selection {
    if len == 0 {
        s
    } else {
        match s {
            Selection::NewEntryRow => Selection::ItemAt(0),
            Selection::ItemAt(i) => if i + 1 < len {
                Selection::ItemAt((i + 1) as usize)
            } else {
                s
            },
        }
    }
}

/// Relies on uuid's `Uuid::new_v4`: a freshly generated version-4
/// identifier, taken as its 128-bit value. The value comes from the
/// process's randomness, so nothing is promised of it.
#[verifier::external_body]
fn fresh_id() -> u128 {
    uuid::Uuid::new_v4().as_u128()
}

/// Relies on the standard library's `String::push`: appends the given
/// character to the end of the string.
pub assume_specification[ String::push ](s: &mut String, ch: char)
    ensures
        final(s)@ == old(s)@.push(ch),
;

/// Relies on the standard library's `String::pop`: removes and returns the
/// last character, or returns `None` when the string is empty.
pub assume_specification[ String::pop ](s: &mut String) -> (r: Option<char>)
    ensures
        old(s)@.len() == 0 ==> r is None && final(s)@ == old(s)@,
        old(s)@.len() > 0 ==> r == Some(old(s)@.last()) && final(s)@ == old(s)@.drop_last(),
;

/// Everything but the cursor is the same in `pre` and `post`.
pub open spec fn fields_except_cursor_equal(pre: App, post: App) -> bool {
    &&& post.input == pre.input
    &&& post.todo_items == pre.todo_items
    &&& post.current_screen == pre.current_screen
    &&& post.currently_adding == pre.currently_adding
    &&& post.db == pre.db
}

/// Effect of `move_list_cursor_up`: the cursor took one step up and nothing
/// else changed.
pub open spec fn cursor_up_step(pre: App, post: App) -> bool {
    &&& post.todo_cursor_pos == cursor_up(pre.todo_cursor_pos)
    &&& fields_except_cursor_equal(pre, post)
}

/// Effect of `move_list_cursor_down`: the cursor took one step down and
/// nothing else changed.
pub open spec fn cursor_down_step(pre: App, post: App) -> bool {
    &&& post.todo_cursor_pos == cursor_down(pre.todo_cursor_pos, pre.todo_items@.len())
    &&& fields_except_cursor_equal(pre, post)
}

/// Effect of `enter_add_mode`: the screen switched to the add-item prompt
/// and nothing else changed.
pub open spec fn enter_add_step(pre: App, post: App) -> bool {
    &&& post.current_screen == CurrentScreen::Adding
    &&& post.currently_adding
    &&& post.input == pre.input
    &&& post.todo_items == pre.todo_items
    &&& post.todo_cursor_pos == pre.todo_cursor_pos
    &&& post.db == pre.db
}

/// Effect of `cancel_add_mode`: back to the browsing screen, the input
/// buffer discarded, the list and the cursor untouched.
pub open spec fn cancel_add_step(pre: App, post: App) -> bool {
    &&& post.current_screen == CurrentScreen::Main
    &&& !post.currently_adding
    &&& post.input@ == Seq::<char>::empty()
    &&& post.todo_items == pre.todo_items
    &&& post.todo_cursor_pos == pre.todo_cursor_pos
    &&& post.db == pre.db
}

/// Effect of `append_to_input`: one character appended to the input
/// buffer, everything else untouched.
pub open spec fn append_step(pre: App, post: App, c: char) -> bool {
    &&& post.input@ == pre.input@.push(c)
    &&& post.todo_items == pre.todo_items
    &&& post.todo_cursor_pos == pre.todo_cursor_pos
    &&& post.current_screen == pre.current_screen
    &&& post.currently_adding == pre.currently_adding
    &&& post.db == pre.db
}

/// Effect of `backspace_input`: the last character of the input buffer
/// removed (nothing happens on an empty buffer), everything else untouched.
pub open spec fn backspace_step(pre: App, post: App) -> bool {
    &&& post.input@ == (if pre.input@.len() == 0 {
            pre.input@
        } else {
            pre.input@.drop_last()
        })
    &&& post.todo_items == pre.todo_items
    &&& post.todo_cursor_pos == pre.todo_cursor_pos
    &&& post.current_screen == pre.current_screen
    &&& post.currently_adding == pre.currently_adding
    &&& post.db == pre.db
}

/// Effect of a successful `save_todo_item`. On an empty input buffer the
/// call is a no-op; otherwise one new item was appended with the buffered
/// name and `completed == false`, the buffer was cleared, and the screen
/// went back to browsing. The new item's identifier is freshly generated
/// and not pinned here.
pub open spec fn save_ok_step(pre: App, post: App) -> bool {
    if pre.input@.len() == 0 {
        post == pre
    } else {
        &&& post.todo_items@.len() == pre.todo_items@.len() + 1
        &&& (forall|i: int|
                0 <= i < pre.todo_items@.len() ==> post.todo_items@[i] == pre.todo_items@[i])
        &&& post.todo_items@.last().name@ == pre.input@
        &&& post.todo_items@.last().completed == false
        &&& post.input@ == Seq::<char>::empty()
        &&& post.current_screen == CurrentScreen::Main
        &&& !post.currently_adding
        &&& post.todo_cursor_pos == pre.todo_cursor_pos
        &&& post.db == pre.db
    }
}

/// Effect of a successful `delete_todo_item`: the selected item left the
/// list, and a cursor that pointed at the last item took one step up.
pub open spec fn delete_ok_step(pre: App, post: App) -> bool {
    match pre.todo_cursor_pos {
        Selection::NewEntryRow => false,
        Selection::ItemAt(i) => {
            &&& post.todo_items@ == pre.todo_items@.remove(i as int)
            &&& post.todo_cursor_pos == (if i + 1 == pre.todo_items@.len() {
                    cursor_up(pre.todo_cursor_pos)
                } else {
                    pre.todo_cursor_pos
                })
            &&& post.input == pre.input
            &&& post.current_screen == pre.current_screen
            &&& post.currently_adding == pre.currently_adding
            &&& post.db == pre.db
        },
    }
}

/// Effect of a successful `mark_item_complete`: the selected item's
/// completion flag flipped, its identifier and name kept, every other item
/// and every other field untouched.
pub open spec fn toggle_ok_step(pre: App, post: App) -> bool {
    match pre.todo_cursor_pos {
        Selection::NewEntryRow => false,
        Selection::ItemAt(i) => {
            &&& i < pre.todo_items@.len()
            &&& post.todo_items@.len() == pre.todo_items@.len()
            &&& post.todo_items@[i as int].id == pre.todo_items@[i as int].id
            &&& post.todo_items@[i as int].name@ == pre.todo_items@[i as int].name@
            &&& post.todo_items@[i as int].completed == !pre.todo_items@[i as int].completed
            &&& (forall|j: int|
                    0 <= j < pre.todo_items@.len() && j != i
                        ==> post.todo_items@[j] == pre.todo_items@[j])
            &&& post.todo_cursor_pos == pre.todo_cursor_pos
            &&& post.input == pre.input
            &&& post.current_screen == pre.current_screen
            &&& post.currently_adding == pre.currently_adding
            &&& post.db == pre.db
        },
    }
}

/// The cursor after a sequence of single-step moves over a list of `len`
/// items: `true` stands for a step down, `false` for a step up.
pub open spec fn apply_cursor_moves(s: Selection, len: nat, moves: Seq<bool>) -> Selection
    decreases moves.len(),
{
    if moves.len() == 0 {
        s
    } else {
        let stepped = if moves[0] {
            cursor_down(s, len)
        } else {
            cursor_up(s)
        };
        apply_cursor_moves(stepped, len, moves.subrange(1, moves.len() as int))
    }
}

/// For every sequence of cursor moves, up or down in any order, a
/// selection that starts in range stays in range: on the virtual "New
/// Entry" row or at an index below the list's length.
pub proof fn lemma_cursor_moves_stay_in_range(s: Selection, len: nat, moves: Seq<bool>)
    requires
        selection_in_range(s, len),
    ensures
        selection_in_range(apply_cursor_moves(s, len, moves), len),
    decreases moves.len(),
{
    if moves.len() > 0 {
        let stepped = if moves[0] {
            cursor_down(s, len)
        } else {
            cursor_up(s)
        };
        lemma_cursor_moves_stay_in_range(stepped, len, moves.subrange(1, moves.len() as int));
    }
}

/// Deleting the currently selected last item clamps the cursor to the new
/// last item, or to the "New Entry" row when the list becomes empty.
pub proof fn lemma_delete_last_clamps(pre: App, post: App, i: usize)
    requires
        pre.inv(),
        pre.todo_cursor_pos == Selection::ItemAt(i),
        i + 1 == pre.todo_items@.len(),
        delete_ok_step(pre, post),
    ensures
        post.todo_items@.len() == pre.todo_items@.len() - 1,
        post.todo_cursor_pos == (if i == 0 {
            Selection::NewEntryRow
        } else {
            Selection::ItemAt((i - 1) as usize)
        }),
{
}

/// Toggling completion twice with the same item selected returns every
/// item to its original state: identifiers, names and completion flags all
/// hold what they held before the first toggle, and nothing else moved.
pub proof fn lemma_toggle_twice_restores(pre: App, mid: App, post: App)
    requires
        toggle_ok_step(pre, mid),
        toggle_ok_step(mid, post),
    ensures
        post.todo_items@.len() == pre.todo_items@.len(),
        forall|j: int|
            0 <= j < pre.todo_items@.len() ==> {
                &&& post.todo_items@[j].id == pre.todo_items@[j].id
                &&& post.todo_items@[j].name@ == pre.todo_items@[j].name@
                &&& post.todo_items@[j].completed == pre.todo_items@[j].completed
            },
        post.todo_cursor_pos == pre.todo_cursor_pos,
        post.input == pre.input,
        post.current_screen == pre.current_screen,
        post.currently_adding == pre.currently_adding,
        post.db == pre.db,
{
}

/// The given error is one a failed write to the store produces.
pub open spec fn is_write_error(e: AppError) -> bool {
    e == AppError::Storage(StorageError::ConnectionFailed)
        || e == AppError::Storage(StorageError::WriteFailed)
}

impl App {
    /// The state invariant: the selection cursor always points at the
    /// virtual "New Entry" row or at an existing item.
    pub open spec fn inv(self) -> bool {
        selection_in_range(self.todo_cursor_pos, self.todo_items@.len())
    }

    /// A fresh state over the given store: empty list, empty input buffer,
    /// "New Entry" row selected, browsing screen.
    pub fn new(db: DbContext) -> (r: App)
        ensures
            r.input@ == Seq::<char>::empty(),
            r.todo_cursor_pos == Selection::NewEntryRow,
            r.todo_items@ == Seq::<TodoItem>::empty(),
            r.current_screen == CurrentScreen::Main,
            !r.currently_adding,
            r.db == db,
            r.inv(),
    {
        App {
            db,
            input: String::new(),
            todo_cursor_pos: Selection::NewEntryRow,
            todo_items: Vec::<TodoItem>::new(),
            current_screen: CurrentScreen::Main,
            currently_adding: false,
        }
    }

    /// Move the selection one row up, stopping at the "New Entry" row.
    pub fn move_list_cursor_up(&mut self)
        ensures
            cursor_up_step(*old(self), *final(self)),
            old(self).inv() ==> final(self).inv(),
    {
        match self.todo_cursor_pos {
            Selection::NewEntryRow => {}
            Selection::ItemAt(i) => {
                if i == 0 {
                    self.todo_cursor_pos = Selection::NewEntryRow;
                } else {
                    self.todo_cursor_pos = Selection::ItemAt(i - 1);
                }
            }
        }
    }

    /// Move the selection one row down, capped at the last item; on an
    /// empty list the cursor stays on the "New Entry" row.
    pub fn move_list_cursor_down(&mut self)
        ensures
            cursor_down_step(*old(self), *final(self)),
            old(self).inv() ==> final(self).inv(),
    {
        let len: usize = self.todo_items.len();
        if len == 0 {
            return;
        }
        match self.todo_cursor_pos {
            Selection::NewEntryRow => {
                self.todo_cursor_pos = Selection::ItemAt(0);
            }
            Selection::ItemAt(i) => {
                if i < len - 1 {
                    self.todo_cursor_pos = Selection::ItemAt(i + 1);
                }
            }
        }
    }

    /// Persist the buffered name as a new, uncompleted item, then append it
    /// to the list, clear the buffer and go back to browsing. On an empty
    /// buffer this is a no-op: the entry box stays open and nothing is
    /// stored. On a storage failure the error is surfaced and the state is
    /// left unmodified, so memory never runs ahead of the store.
    pub fn save_todo_item(&mut self) -> (r: Result<(), AppError>)
        requires
            old(self).current_screen is Adding,
        ensures
            old(self).inv() ==> final(self).inv(),
            match r {
                Ok(()) => save_ok_step(*old(self), *final(self)),
                Err(e) => {
                    &&& *final(self) == *old(self)
                    &&& old(self).input@.len() > 0
                    &&& is_write_error(e)
                },
            },
    {
        if self.input.as_str().is_empty() {
            return Ok(());
        }
        let new_item = TodoItem { id: fresh_id(), name: self.input.clone(), completed: false };
        match self.db.store_todo_item(&new_item) {
            Ok(()) => {}
            Err(e) => return Err(AppError::Storage(e)),
        }
        self.todo_items.push(new_item);
        self.input = String::new();
        self.current_screen = CurrentScreen::Main;
        self.currently_adding = false;
        Ok(())
    }

    /// Remove the selected item from the store, then from the list, and
    /// clamp the cursor back into range. With the "New Entry" row selected
    /// there is nothing to delete and `NoSelection` comes back. On a
    /// storage failure the error is surfaced and the state is left
    /// unmodified.
    pub fn delete_todo_item(&mut self) -> (r: Result<(), AppError>)
        requires
            old(self).inv(),
        ensures
            final(self).inv(),
            match r {
                Ok(()) => {
                    &&& old(self).todo_cursor_pos is ItemAt
                    &&& delete_ok_step(*old(self), *final(self))
                },
                Err(e) => {
                    &&& *final(self) == *old(self)
                    &&& if e == AppError::NoSelection {
                            old(self).todo_cursor_pos is NewEntryRow
                        } else {
                            old(self).todo_cursor_pos is ItemAt && is_write_error(e)
                        }
                },
            },
    {
        let i: usize = match self.todo_cursor_pos {
            Selection::NewEntryRow => return Err(AppError::NoSelection),
            Selection::ItemAt(i) => i,
        };
        match self.db.delete_todo_item(&self.todo_items[i]) {
            Ok(()) => {}
            Err(e) => return Err(AppError::Storage(e)),
        }
        self.todo_items.remove(i);
        if i == self.todo_items.len() {
            self.move_list_cursor_up();
        }
        Ok(())
    }

    /// Replace the in-memory list with everything the store holds, in
    /// store-native order. Meant for the start of a run, before any item is
    /// selected. On a storage failure the error is surfaced and the state
    /// is left unmodified.
    pub fn load_todo_items(&mut self) -> (r: Result<(), AppError>)
        requires
            old(self).todo_cursor_pos is NewEntryRow,
        ensures
            final(self).inv(),
            final(self).todo_cursor_pos == old(self).todo_cursor_pos,
            final(self).input == old(self).input,
            final(self).current_screen == old(self).current_screen,
            final(self).currently_adding == old(self).currently_adding,
            final(self).db == old(self).db,
            r matches Err(e) ==> *final(self) == *old(self)
                && (e == AppError::Storage(StorageError::ConnectionFailed)
                    || e == AppError::Storage(StorageError::ReadFailed)),
    {
        match self.db.load_all_todo_items() {
            Ok(items) => {
                self.todo_items = items;
                Ok(())
            }
            Err(e) => Err(AppError::Storage(e)),
        }
    }

    /// Flip the completion flag of the selected item in the store, then in
    /// memory, so that the two stay consistent. With the "New Entry" row
    /// selected `NoSelection` comes back. On a storage failure the error is
    /// surfaced and the state is left unmodified.
    pub fn mark_item_complete(&mut self) -> (r: Result<(), AppError>)
        requires
            old(self).inv(),
        ensures
            final(self).inv(),
            match r {
                Ok(()) => {
                    &&& old(self).todo_cursor_pos is ItemAt
                    &&& toggle_ok_step(*old(self), *final(self))
                },
                Err(e) => {
                    &&& *final(self) == *old(self)
                    &&& if e == AppError::NoSelection {
                            old(self).todo_cursor_pos is NewEntryRow
                        } else {
                            old(self).todo_cursor_pos is ItemAt && is_write_error(e)
                        }
                },
            },
    {
        let i: usize = match self.todo_cursor_pos {
            Selection::NewEntryRow => return Err(AppError::NoSelection),
            Selection::ItemAt(i) => i,
        };
        let updated = TodoItem {
            id: self.todo_items[i].id,
            name: self.todo_items[i].name.clone(),
            completed: !self.todo_items[i].completed,
        };
        match self.db.update_todo_item(&updated) {
            Ok(()) => {}
            Err(e) => return Err(AppError::Storage(e)),
        }
        self.todo_items.set(i, updated);
        Ok(())
    }

    /// Open the add-item prompt. Only reachable while the virtual "New
    /// Entry" row is selected on the browsing screen.
    pub fn enter_add_mode(&mut self)
        requires
            old(self).current_screen is Main,
            old(self).todo_cursor_pos is NewEntryRow,
        ensures
            enter_add_step(*old(self), *final(self)),
            old(self).inv() ==> final(self).inv(),
    {
        self.current_screen = CurrentScreen::Adding;
        self.currently_adding = true;
    }

    /// Close the add-item prompt, discarding the input buffer without
    /// persisting anything.
    pub fn cancel_add_mode(&mut self)
        requires
            old(self).current_screen is Adding,
        ensures
            cancel_add_step(*old(self), *final(self)),
            old(self).inv() ==> final(self).inv(),
    {
        self.current_screen = CurrentScreen::Main;
        self.currently_adding = false;
        self.input = String::new();
    }

    /// Append one character to the input buffer. Only meaningful while the
    /// add-item prompt is open.
    pub fn append_to_input(&mut self, c: char)
        requires
            old(self).current_screen is Adding,
        ensures
            append_step(*old(self), *final(self), c),
            old(self).inv() ==> final(self).inv(),
    {
        self.input.push(c);
    }

    /// Drop the last character of the input buffer, if there is one. Only
    /// meaningful while the add-item prompt is open.
    pub fn backspace_input(&mut self)
        requires
            old(self).current_screen is Adding,
        ensures
            backspace_step(*old(self), *final(self)),
            old(self).inv() ==> final(self).inv(),
    {
        let _last = self.input.pop();
    }
}

} // verus!
