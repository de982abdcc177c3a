//! The routes of the filters.

use vstd::prelude::*;
use crate::routes::route::{plain_route, routes_view, Endpoint, Method, Route, RouteView};

verus! {

/// `GET /search/books` and `GET /search/readings`, in this order.
pub open spec fn search_routes() -> Seq<RouteView> {
    seq![
        plain_route(Method::Get, "search"@, "books"@, Endpoint::SearchBooks),
        plain_route(Method::Get, "search"@, "readings"@, Endpoint::SearchReadings),
    ]
}

/// The routes of the filters, that of books first.
pub fn search_content() -> (routes: Vec<Route>)
    ensures
        routes_view(routes@) == search_routes(),
{
    let mut routes: Vec<Route> = Vec::new();
    routes.push(Route::plain(Method::Get, "search", "books", Endpoint::SearchBooks));
    routes.push(Route::plain(Method::Get, "search", "readings", Endpoint::SearchReadings));
    assert(routes_view(routes@) =~= search_routes());
    routes
}

} // verus!
