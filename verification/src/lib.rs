//! Secondary indexing for records kept in a key-value store.
//!
//! A record is encoded, given a fresh identifier, and written together with
//! its exact-match and numeric index entries as one atomic transaction.

pub mod error;
pub mod ident;
pub mod score;
pub mod index;
pub mod transaction;
pub mod pipeline;
pub mod store_model;
pub mod record;
pub mod codec;
pub mod user;
