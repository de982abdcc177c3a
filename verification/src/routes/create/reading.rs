//! The route that inserts a reading.

use vstd::prelude::*;
use crate::routes::route::{plain_route, Endpoint, Method, Route, RouteView};

verus! {

/// `POST /create/reading`.
pub open spec fn new_reading_route() -> RouteView {
    plain_route(Method::Post, "create"@, "reading"@, Endpoint::CreateReading)
}

/// The route `POST /create/reading`.
pub fn new_reading() -> (route: Route)
    ensures
        route@ == new_reading_route(),
{
    Route::plain(Method::Post, "create", "reading", Endpoint::CreateReading)
}

} // verus!
