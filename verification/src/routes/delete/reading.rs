//! The route that deletes a reading.

use vstd::prelude::*;
use crate::routes::route::{record_route, Endpoint, Method, Route, RouteView};

verus! {

/// `DELETE /reading/id/{id}`.
pub open spec fn by_id_route() -> RouteView {
    record_route(Method::Delete, "reading"@, "id"@, Endpoint::DeleteReading)
}

/// The route `DELETE /reading/id/{id}`.
pub fn by_id() -> (route: Route)
    ensures
        route@ == by_id_route(),
{
    Route::record(Method::Delete, "reading", "id", Endpoint::DeleteReading)
}

} // verus!
