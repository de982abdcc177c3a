//! The route that updates a book.

use vstd::prelude::*;
use crate::routes::route::{plain_route, Endpoint, Method, Route, RouteView};

verus! {

/// `PUT /update/book`.
pub open spec fn by_id_route() -> RouteView {
    plain_route(Method::Put, "update"@, "book"@, Endpoint::UpdateBook)
}

/// The route `PUT /update/book`.
pub fn by_id() -> (route: Route)
    ensures
        route@ == by_id_route(),
{
    Route::plain(Method::Put, "update", "book", Endpoint::UpdateBook)
}

} // verus!
