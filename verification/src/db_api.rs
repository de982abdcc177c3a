//! Handlers that tell in words what a deletion did.

pub mod book_api;
pub mod reading_api;
