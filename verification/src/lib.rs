//! Core of a keyboard-driven todo-list manager with durable local storage.
//!
//! The library holds the application state machine (item list, selection
//! cursor, screen mode, input buffer), the key-event router, and the storage
//! interface over an embedded SQLite database. Terminal rendering and raw
//! input plumbing live outside the library.

pub mod app;
pub mod dbcontext;
pub mod router;
