//! An in-memory record store with a request router in front of it.

pub mod criteria;
pub mod text;
pub mod store;
pub mod parse;
pub mod router;
