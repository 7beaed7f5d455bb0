//! The values that travel between the transport layer, the handlers and the
//! store.

pub mod number;
pub mod params;
pub mod pagination;
pub mod question;
pub mod answer;
