//! The core of a small question-and-answer service: the entity store, the
//! pagination of list queries, the request handlers and the mapping of
//! failures to HTTP replies. Transport, locking and serialisation belong to
//! the program built around this library.

pub mod reply;
pub mod error;
pub mod types;
pub mod store;
pub mod routes;
pub mod laws;
