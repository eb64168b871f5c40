//! What the store of applications holds.

pub mod schema;
