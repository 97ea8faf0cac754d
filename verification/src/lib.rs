//! Verified core of a small web application: credential hashing, an
//! identity store with users and their accounts, a bounded connection pool,
//! the authentication backend built from the three, and what each page of
//! the application answers.

pub mod clock;
pub mod hasher;
pub mod text;
pub mod db;
pub mod templates;
pub mod handlers;
