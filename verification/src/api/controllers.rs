//! The handlers: one per operation and record type.

pub mod book;
pub mod common;
pub mod reading;
pub mod search;
