//! The route that updates a reading.

use vstd::prelude::*;
use crate::routes::route::{plain_route, Endpoint, Method, Route, RouteView};

verus! {

/// `PUT /update/reading`.
pub open spec fn by_id_route() -> RouteView {
    plain_route(Method::Put, "update"@, "reading"@, Endpoint::UpdateReading)
}

/// The route `PUT /update/reading`.
pub fn by_id() -> (route: Route)
    ensures
        route@ == by_id_route(),
{
    Route::plain(Method::Put, "update", "reading", Endpoint::UpdateReading)
}

} // verus!
