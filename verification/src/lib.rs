//! A pull-based pagination engine for consuming server-paged collections.
//!
//! The engine turns a caller-supplied "fetch one page given an optional
//! continuation" operation into two consumer-facing lazy sequences: a
//! page-level sequence ([`iter::PageIterator`]) and an item-level sequence
//! ([`iter::ItemIterator`]). It guarantees exactly one fetch per produced
//! page, threads continuation values between fetches unchanged, and turns
//! fetch errors into terminal stream events.

pub mod error;
pub mod iter;
pub mod laws;
pub mod pager;
pub mod poll;
pub mod process;
pub mod producer;
pub mod response;
pub mod timeout;

pub use error::{Error, ErrorKind};
