//! Storage interface: durable CRUD over todo items, backed by a local
//! SQLite database file. Each operation opens its own connection scope and
//! releases it on return. The calls into the database engine are trusted;
//! everything around them is verified.

use vstd::prelude::*;

use crate::app::TodoItem;

verus! {

/// How a storage operation failed.
#[derive(Clone, Copy, PartialEq, Eq, Structural, Debug)]
pub enum StorageError {
    /// The backing database file could not be opened.
    ConnectionFailed,
    /// A query failed, or a row could not be decoded into a `TodoItem`.
    ReadFailed,
    /// An insert, update or delete failed at the store level.
    WriteFailed,
}

/// A handle on the backing store: the path of the database file.
///
/// An instance is injected into the application state at construction, so
/// that tests can point it at a store of their own.
pub struct DbContext {
    pub path: String,
}

impl DbContext {
    pub fn new(path: String) -> (r: DbContext)
        ensures
            r.path == path,
    {
        DbContext { path }
    }

    /// Idempotently ensures the todo table exists.
    ///
    /// Relies on rusqlite's `Connection::open` and `Connection::execute`:
    /// `open` fails only when the database file cannot be opened; the
    /// `CREATE TABLE` outcome is swallowed on purpose, so that a table left
    /// from an earlier run does not fail startup.
    #[verifier::external_body]
    pub fn try_init_db(&self) -> (r: Result<(), StorageError>)
        ensures
            r matches Err(e) ==> e == StorageError::ConnectionFailed,
    {
        let conn = match rusqlite::Connection::open(&self.path) {
            Ok(c) => c,
            Err(_) => return Err(StorageError::ConnectionFailed),
        };
        let _ = conn.execute(
            "CREATE TABLE todo (
                id        INTEGER PRIMARY KEY,
                todo_id   UUID BLOB NOT NULL,
                name      TEXT NOT NULL,
                completed BOOL
            )",
            (),
        );
        Ok(())
    }

    /// Persists a new row keyed by the item's identifier.
    ///
    /// Relies on rusqlite's `Connection::open` and `Connection::execute`
    /// and on uuid's `Uuid::from_u128`: a failure to open the file maps to
    /// `ConnectionFailed`, a failed insert to `WriteFailed`. What lands on
    /// disk depends on the store and is not stated here; the round trip is
    /// exercised by tests.
    #[verifier::external_body]
    pub fn store_todo_item(&self, todo_item: &TodoItem) -> (r: Result<(), StorageError>)
        ensures
            r matches Err(e) ==> e == StorageError::ConnectionFailed || e == StorageError::WriteFailed,
    {
        let conn = rusqlite::Connection::open(&self.path)
            .map_err(|_| StorageError::ConnectionFailed)?;
        conn.execute(
            "INSERT INTO todo (todo_id, name, completed) VALUES (?1, ?2, ?3)",
            (&uuid::Uuid::from_u128(todo_item.id), &todo_item.name, &todo_item.completed),
        ).map_err(|_| StorageError::WriteFailed)?;
        Ok(())
    }

    /// Returns every persisted item, in store-native order.
    ///
    /// Relies on rusqlite's `Connection::open`, `Connection::prepare` and
    /// `Statement::query_map`, and on uuid's `Uuid::as_u128`: a failure to
    /// open the file maps to `ConnectionFailed`; a failed query, or a row
    /// that does not decode into an identifier, a text name and a boolean
    /// flag, maps to `ReadFailed`. What comes back depends on the store and
    /// is not stated here.
    #[verifier::external_body]
    pub fn load_all_todo_items(&self) -> (r: Result<Vec<TodoItem>, StorageError>)
        ensures
            r matches Err(e) ==> e == StorageError::ConnectionFailed || e == StorageError::ReadFailed,
    {
        let conn = rusqlite::Connection::open(&self.path)
            .map_err(|_| StorageError::ConnectionFailed)?;
        let mut stmt = conn.prepare("SELECT todo_id, name, completed FROM todo")
            .map_err(|_| StorageError::ReadFailed)?;
        let rows = stmt.query_map([], |row| {
            let id: uuid::Uuid = row.get(0)?;
            Ok(TodoItem { id: id.as_u128(), name: row.get(1)?, completed: row.get(2)? })
        }).map_err(|_| StorageError::ReadFailed)?;
        let items: Result<Vec<TodoItem>, rusqlite::Error> = rows.collect();
        items.map_err(|_| StorageError::ReadFailed)
    }

    /// Overwrites name and completion flag for the row matching the item's
    /// identifier; silently succeeds when no row matches.
    ///
    /// Relies on rusqlite's `Connection::open` and `Connection::execute`
    /// and on uuid's `Uuid::from_u128`: a failure to open the file maps to
    /// `ConnectionFailed`, a failed update to `WriteFailed`.
    #[verifier::external_body]
    pub fn update_todo_item(&self, todo_item: &TodoItem) -> (r: Result<(), StorageError>)
        ensures
            r matches Err(e) ==> e == StorageError::ConnectionFailed || e == StorageError::WriteFailed,
    {
        let conn = rusqlite::Connection::open(&self.path)
            .map_err(|_| StorageError::ConnectionFailed)?;
        conn.execute(
            "UPDATE todo SET (name, completed) = (?2, ?3) WHERE todo_id = ?1",
            (&uuid::Uuid::from_u128(todo_item.id), &todo_item.name, &todo_item.completed),
        ).map_err(|_| StorageError::WriteFailed)?;
        Ok(())
    }

    /// Removes the row matching the item's identifier; silently succeeds
    /// when no row matches.
    ///
    /// Relies on rusqlite's `Connection::open` and `Connection::execute`
    /// and on uuid's `Uuid::from_u128`: a failure to open the file maps to
    /// `ConnectionFailed`, a failed delete to `WriteFailed`.
    #[verifier::external_body]
    pub fn delete_todo_item(&self, todo_item: &TodoItem) -> (r: Result<(), StorageError>)
        ensures
            r matches Err(e) ==> e == StorageError::ConnectionFailed || e == StorageError::WriteFailed,
    {
        let conn = rusqlite::Connection::open(&self.path)
            .map_err(|_| StorageError::ConnectionFailed)?;
        conn.execute(
            "DELETE FROM todo WHERE todo_id = ?1",
            [&uuid::Uuid::from_u128(todo_item.id)],
        ).map_err(|_| StorageError::WriteFailed)?;
        Ok(())
    }
}

} // verus!
