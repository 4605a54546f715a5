//! The backends that come with the library.

pub mod sqlite;
