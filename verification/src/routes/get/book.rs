//! The route that fetches a book.

use vstd::prelude::*;
use crate::routes::route::{record_route, Endpoint, Method, Route, RouteView};

verus! {

/// `GET /book/id/{id}`.
pub open spec fn by_id_route() -> RouteView {
    record_route(Method::Get, "book"@, "id"@, Endpoint::BookById)
}

/// The route `GET /book/id/{id}`.
pub fn by_id() -> (route: Route)
    ensures
        route@ == by_id_route(),
{
    Route::record(Method::Get, "book", "id", Endpoint::BookById)
}

} // verus!
