//! The route that fetches a reading.

use vstd::prelude::*;
use crate::routes::route::{record_route, Endpoint, Method, Route, RouteView};

verus! {

/// `GET /reading/id/{id}`.
pub open spec fn by_id_route() -> RouteView {
    record_route(Method::Get, "reading"@, "id"@, Endpoint::ReadingById)
}

/// The route `GET /reading/id/{id}`.
pub fn by_id() -> (route: Route)
    ensures
        route@ == by_id_route(),
{
    Route::record(Method::Get, "reading", "id", Endpoint::ReadingById)
}

} // verus!
