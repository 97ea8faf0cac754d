//! The persisted side of the application: records, the identity store that
//! keeps them, and the pool that meters access to it.

pub mod models;
pub mod store;
pub mod pool;
pub mod guarantees;
