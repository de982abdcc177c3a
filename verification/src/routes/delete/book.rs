//! The route that deletes a book.

use vstd::prelude::*;
use crate::routes::route::{record_route, Endpoint, Method, Route, RouteView};

verus! {

/// `DELETE /book/id/{id}`.
pub open spec fn by_id_route() -> RouteView {
    record_route(Method::Delete, "book"@, "id"@, Endpoint::DeleteBook)
}

/// The route `DELETE /book/id/{id}`.
pub fn by_id() -> (route: Route)
    ensures
        route@ == by_id_route(),
{
    Route::record(Method::Delete, "book", "id", Endpoint::DeleteBook)
}

} // verus!
