//! One handler for each operation of the service.

pub mod question;
pub mod answer;
