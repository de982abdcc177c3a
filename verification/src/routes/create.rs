//! The routes of one method, for each kind of record.

pub mod book;
pub mod reading;
