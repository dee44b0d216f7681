//! A to-do list kept in a key-value store, with a single owner who may write.
//!
//! The list is a table of entries keyed by an id that a counter hands out. The
//! owner creates, updates and deletes entries; anyone may read one entry or
//! page through the table in ascending id order.
//!
//! - [`state`]: the entry and its fields, and how an entry is written down as
//!   a record.
//! - [`storage`]: the handles on the store, the model of what it holds, and
//!   the calls that read and write it.
//! - [`scan`]: the ascending walk over the table, the page that a list query
//!   cuts from it, and what holds of both.
//! - [`msg`], [`error`]: what handlers take and return.
//! - [`contract`]: the handlers.
//! - [`laws`]: properties of the handlers, proved from their contracts.

pub mod contract;
pub mod error;
pub mod laws;
pub mod msg;
pub mod scan;
pub mod state;
pub mod storage;

pub use crate::error::ContractError;
