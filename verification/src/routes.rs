//! The routes: which method and path lead to which handler.

pub mod create;
pub mod delete;
pub mod get;
pub mod master_route;
pub mod route;
pub mod search;
pub mod update;
