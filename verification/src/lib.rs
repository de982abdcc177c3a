//! A small record service for a personal library: books, and the readings
//! that refer to them, kept in a relational store and served over HTTP.
//!
//! The crate holds the rules of the service: which requests are understood,
//! what a payload must look like, which statement is handed to the store and
//! which response answers each outcome.

pub mod api;
pub mod db_api;
pub mod db_storage;
pub mod http;
pub mod json;
pub mod pairs;
pub mod payload;
pub mod query;
pub mod routes;
pub mod text;
