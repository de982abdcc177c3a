//! The service itself: the records and their data access, and the handlers
//! that answer requests.

pub mod controllers;
pub mod models;
