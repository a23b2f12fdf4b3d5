use std::time::{SystemTime, UNIX_EPOCH};

use todo_tui::app::{App, AppError, CurrentScreen, Selection, TodoItem};
use todo_tui::dbcontext::{DbContext, StorageError};
use todo_tui::router::{handle_key, Key};

fn fresh_path(tag: &str) -> String {
    let nanos = SystemTime::now()
        .duration_since(UNIX_EPOCH)
        .unwrap()
        .as_nanos();
    format!("/tmp/todo_tui_{}_{}.db", tag, nanos)
}

fn fresh_db(tag: &str) -> DbContext {
    let db = DbContext::new(fresh_path(tag));
    db.try_init_db().unwrap();
    db
}

fn reloaded(app: &App) -> App {
    let mut loaded = App::new(DbContext::new(app.db.path.clone()));
    loaded.load_todo_items().unwrap();
    loaded
}

fn add_item(app: &mut App, name: &str) {
    app.enter_add_mode();
    for c in name.chars() {
        app.append_to_input(c);
    }
    app.save_todo_item().unwrap();
}

#[test]
fn init_is_idempotent() {
    let db = fresh_db("init_twice");
    assert!(db.try_init_db().is_ok());
    assert!(db.try_init_db().is_ok());
}

#[test]
fn submit_then_load_contains_the_new_item() {
    let db = fresh_db("submit_load");
    let mut app = App::new(db);
    add_item(&mut app, "Buy milk");
    let id = app.todo_items[0].id;

    let loaded = reloaded(&app);
    assert_eq!(loaded.todo_items.len(), 1);
    assert_eq!(loaded.todo_items[0].id, id);
    assert_eq!(loaded.todo_items[0].name, "Buy milk");
    assert!(!loaded.todo_items[0].completed);
}

#[test]
fn round_trip_of_three_items() {
    let db = fresh_db("round_trip");
    let mut app = App::new(db);
    for name in ["alpha", "beta", "gamma"] {
        add_item(&mut app, name);
    }
    assert_eq!(app.todo_items.len(), 3);
    assert!(app.todo_items[0].id != app.todo_items[1].id);
    assert!(app.todo_items[1].id != app.todo_items[2].id);
    assert!(app.todo_items[0].id != app.todo_items[2].id);

    let loaded = reloaded(&app);
    assert_eq!(loaded.todo_items.len(), 3);
    for item in &app.todo_items {
        let found = loaded
            .todo_items
            .iter()
            .find(|l| l.id == item.id)
            .expect("an inserted item did not come back");
        assert_eq!(found.name, item.name);
        assert_eq!(found.completed, item.completed);
    }
}

#[test]
fn toggle_twice_restores_and_the_store_follows() {
    let db = fresh_db("toggle_twice");
    let mut app = App::new(db);
    add_item(&mut app, "task");
    app.move_list_cursor_down();
    assert_eq!(app.todo_cursor_pos, Selection::ItemAt(0));
    let original = app.todo_items[0].completed;

    app.mark_item_complete().unwrap();
    assert_eq!(app.todo_items[0].completed, !original);
    let after_first = reloaded(&app);
    assert_eq!(after_first.todo_items[0].completed, !original);

    app.mark_item_complete().unwrap();
    assert_eq!(app.todo_items[0].completed, original);
    let after_second = reloaded(&app);
    assert_eq!(after_second.todo_items[0].completed, original);
}

#[test]
fn deleting_the_selected_last_item_clamps_the_cursor() {
    let db = fresh_db("delete_clamp");
    let mut app = App::new(db);
    add_item(&mut app, "first");
    add_item(&mut app, "second");
    app.move_list_cursor_down();
    app.move_list_cursor_down();
    assert_eq!(app.todo_cursor_pos, Selection::ItemAt(1));

    app.delete_todo_item().unwrap();
    assert_eq!(app.todo_items.len(), 1);
    assert_eq!(app.todo_cursor_pos, Selection::ItemAt(0));
    assert_eq!(app.todo_items[0].name, "first");

    app.delete_todo_item().unwrap();
    assert!(app.todo_items.is_empty());
    assert_eq!(app.todo_cursor_pos, Selection::NewEntryRow);

    let loaded = reloaded(&app);
    assert!(loaded.todo_items.is_empty());
}

#[test]
fn full_session_scenario() {
    let db = fresh_db("scenario");
    let mut app = App::new(db);
    assert_eq!(app.todo_cursor_pos, Selection::NewEntryRow);

    assert_eq!(handle_key(&mut app, Key::Enter), Ok(false));
    assert_eq!(app.current_screen, CurrentScreen::Adding);
    for c in "Buy milk".chars() {
        assert_eq!(handle_key(&mut app, Key::Char(c)), Ok(false));
    }
    assert_eq!(handle_key(&mut app, Key::Enter), Ok(false));
    assert_eq!(app.todo_items.len(), 1);
    assert_eq!(app.todo_items[0].name, "Buy milk");
    assert!(!app.todo_items[0].completed);
    assert_eq!(app.current_screen, CurrentScreen::Main);
    assert_eq!(app.todo_cursor_pos, Selection::NewEntryRow);

    assert_eq!(handle_key(&mut app, Key::Down), Ok(false));
    assert_eq!(app.todo_cursor_pos, Selection::ItemAt(0));

    assert_eq!(handle_key(&mut app, Key::Enter), Ok(false));
    assert!(app.todo_items[0].completed);

    assert_eq!(handle_key(&mut app, Key::Char('d')), Ok(false));
    assert!(app.todo_items.is_empty());
    assert_eq!(app.todo_cursor_pos, Selection::NewEntryRow);
}

#[test]
fn submit_with_empty_buffer_is_a_noop() {
    let db = fresh_db("empty_submit");
    let mut app = App::new(db);
    app.enter_add_mode();
    assert_eq!(app.save_todo_item(), Ok(()));
    assert_eq!(app.current_screen, CurrentScreen::Adding);
    assert!(app.todo_items.is_empty());

    let loaded = reloaded(&app);
    assert!(loaded.todo_items.is_empty());
}

#[test]
fn update_or_delete_of_a_missing_row_is_silent_success() {
    let db = fresh_db("missing_row");
    let ghost_item = TodoItem {
        id: 42,
        name: String::from("ghost"),
        completed: false,
    };
    assert_eq!(db.update_todo_item(&ghost_item), Ok(()));
    assert_eq!(db.delete_todo_item(&ghost_item), Ok(()));
}

#[test]
fn unopenable_store_is_connection_failed() {
    let db = DbContext::new(String::from("/todo_tui_no_such_dir/x.db"));
    assert_eq!(db.try_init_db(), Err(StorageError::ConnectionFailed));
    let mut app = App::new(db);
    assert_eq!(
        app.load_todo_items(),
        Err(AppError::Storage(StorageError::ConnectionFailed))
    );
}

#[test]
fn load_without_a_table_is_read_failed() {
    let mut app = App::new(DbContext::new(fresh_path("no_table_read")));
    assert_eq!(
        app.load_todo_items(),
        Err(AppError::Storage(StorageError::ReadFailed))
    );
}

#[test]
fn store_without_a_table_is_write_failed_and_leaves_memory_alone() {
    let mut app = App::new(DbContext::new(fresh_path("no_table_write")));
    app.enter_add_mode();
    app.append_to_input('x');
    assert_eq!(
        app.save_todo_item(),
        Err(AppError::Storage(StorageError::WriteFailed))
    );
    assert!(app.todo_items.is_empty());
    assert_eq!(app.current_screen, CurrentScreen::Adding);
    assert_eq!(app.input, "x");
}
