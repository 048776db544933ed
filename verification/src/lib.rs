//! An in-memory key-value store over text keys and values, with a
//! line-oriented command language to drive it.
//!
//! * [`text`] splits a line into words and joins words back together.
//! * [`store`] holds the mapping itself.
//! * [`command`] turns a line into a [`command::Command`].
//! * [`session`] runs one command against a store and says what to report.
//! * [`laws`] states what holds of every store.

pub mod text;
pub mod store;
pub mod command;
pub mod session;
pub mod laws;
