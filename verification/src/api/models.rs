//! The records, and the data access functions of each.

pub mod book;
pub mod common;
pub mod reading;
