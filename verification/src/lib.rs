//! Helpers for keeping records in SQLite tables through `rusqlite`.
//!
//! A [`Table`] names a table and declares its columns. [`tables`] reads
//! which tables a database holds, [`Table::create`] brings a table about,
//! [`Table::insert`] writes one record and [`Table::query`] reads records
//! back. Records pass as what `serde_rusqlite` makes of them: named values
//! on the way in, and a function that decodes a row on the way out.
//!
//! ```ignore
//! let conn = rusqlite::Connection::open_in_memory()?;
//! let mut session = Session::new(&conn);
//! let accounts = Table::new("accounts", "acct TEXT PRIMARY KEY, name TEXT NOT NULL");
//! let present = tables(&mut session)?;
//! accounts.create(&mut session, &present, false)?;
//! ```
//!
//! Every call goes through a [`Session`]. The contracts say which
//! statements a call hands to the engine, with which values, and how its
//! result follows from the engine's answers. What a statement does inside
//! the database is the engine's part and is not stated here.
//!
//! Names of tables and fields, column definitions and caller-supplied
//! fragments are written into the statements as they are: none of them may
//! come from an untrusted source.

pub mod catalog;
pub mod error;
pub mod fields;
pub mod rows;
pub mod session;
pub mod sql;
pub mod table;

pub use catalog::{tables, CatalogEntry};
pub use error::RusqliteHelperError;
pub use session::Session;
pub use table::{InsertConflictResolution, Table};
