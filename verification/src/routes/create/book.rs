//! The route that inserts a book.

use vstd::prelude::*;
use crate::routes::route::{plain_route, Endpoint, Method, Route, RouteView};

verus! {

/// `POST /create/book`.
pub open spec fn new_book_route() -> RouteView {
    plain_route(Method::Post, "create"@, "book"@, Endpoint::CreateBook)
}

/// The route `POST /create/book`.
pub fn new_book() -> (route: Route)
    ensures
        route@ == new_book_route(),
{
    Route::plain(Method::Post, "create", "book", Endpoint::CreateBook)
}

} // verus!
