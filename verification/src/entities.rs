//! Rows of the database tables.

pub mod show;
