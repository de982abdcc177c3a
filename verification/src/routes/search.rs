//! The routes of the filters.

pub mod search;
