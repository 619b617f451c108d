//! Records of the characters of a valley: who they are, when their birthday
//! is, whether they can be married and which gift they like best.
//!
//! The library validates what is typed or sent for each field, decides which
//! one field a change request replaces, builds the statements that a record
//! store is asked to carry out, and reads the answers of the store back into
//! typed records. It never reaches a store itself: the statements are plain
//! values, run by whoever holds the connection. A store in memory is part of
//! the library.

pub mod change;
pub mod character;
pub mod column;
pub mod commands;
pub mod error;
pub mod handlers;
pub mod row;
pub mod season;
pub mod service;
pub mod setup;
pub mod statement;
pub mod store;
pub mod table;
pub mod text;
pub mod validate;
