//! The records of the application, one module per table family.

pub mod accounts;
pub mod posts;
pub mod users;
