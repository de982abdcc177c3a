//! What a route is, when a request fits one, and how a request is served.
//!
//! A route binds a method and a path template to an endpoint. The segments
//! of a template are fixed texts, but for one at most, which stands for an
//! identifier. A request takes the first route of the table that it fits;
//! one that fits none is left to whoever hosts the service.

use vstd::prelude::*;
use crate::api::controllers::book::{
    answers_book_by_id,
    answers_create_book,
    answers_update_book,
    book_by_id_handler,
    create_book_handler,
    delete_book_handler,
    update_book_handler,
};
use crate::api::controllers::common::answers_change;
use crate::api::controllers::reading::{
    answers_create_reading,
    answers_reading_by_id,
    answers_update_reading,
    create_reading_handler,
    delete_reading_handler,
    reading_by_id_handler,
    update_reading_handler,
};
use crate::api::controllers::search::{
    answers_books_search,
    answers_readings_search,
    search_books_handler,
    search_readings_handler,
};
use crate::api::models::book::delete_book_command;
use crate::api::models::reading::delete_reading_command;
use crate::db_storage::Gateway;
use crate::http::{Response, ResponseView};
use crate::query::QueryParams;
use crate::text::{number_of, parse_number, same_text};

verus! {

/// The methods that the service answers.
#[derive(Debug, Clone, Copy, PartialEq, Eq, Structural)]
pub enum Method {
    Get,
    Post,
    Put,
    Delete,
}

/// What a route leads to.
#[derive(Debug, Clone, Copy, PartialEq, Eq, Structural)]
pub enum Endpoint {
    CreateBook,
    CreateReading,
    BookById,
    ReadingById,
    UpdateBook,
    UpdateReading,
    DeleteBook,
    DeleteReading,
    SearchBooks,
    SearchReadings,
}

/// A segment of a path template.
#[derive(Debug, Clone, PartialEq, Eq)]
pub enum Segment {
    /// Fits the segment that is this very text.
    Exact(String),
    /// Fits a segment that writes an identifier.
    Id,
}

/// A `Segment` as a mathematical value.
pub enum SegmentView {
    Exact(Seq<char>),
    Id,
}

impl View for Segment {
    type V = SegmentView;

    open spec fn view(&self) -> SegmentView {
        match self {
            Segment::Exact(text) => SegmentView::Exact(text@),
            Segment::Id => SegmentView::Id,
        }
    }
}

/// A route.
#[derive(Debug, Clone, PartialEq, Eq)]
pub struct Route {
    pub method: Method,
    pub path: Vec<Segment>,
    pub endpoint: Endpoint,
}

/// A `Route` as a mathematical value.
pub struct RouteView {
    pub method: Method,
    pub path: Seq<SegmentView>,
    pub endpoint: Endpoint,
}

impl View for Route {
    type V = RouteView;

    open spec fn view(&self) -> RouteView {
        RouteView {
            method: self.method,
            path: Seq::new(self.path.len() as nat, |i: int| self.path[i]@),
            endpoint: self.endpoint,
        }
    }
}

/// Routes, each as a mathematical value.
pub open spec fn routes_view(routes: Seq<Route>) -> Seq<RouteView> {
    Seq::new(routes.len(), |i: int| routes[i]@)
}

/// The segments of a path, each as a sequence of characters.
pub open spec fn path_view(path: Seq<String>) -> Seq<Seq<char>> {
    Seq::new(path.len(), |i: int| path[i]@)
}

/// A request, as far as the service looks at it: the method, the segments
/// of the path, the parameters of the query string and the body.
#[derive(Debug, Clone, PartialEq, Eq)]
pub struct Request {
    pub method: Method,
    pub path: Vec<String>,
    pub query: QueryParams,
    pub body: String,
}

/// What a request asks for, once a route is found for it.
#[derive(Debug, Clone, Copy, PartialEq, Eq, Structural)]
pub enum Call {
    CreateBook,
    CreateReading,
    BookById(u32),
    ReadingById(u32),
    UpdateBook,
    UpdateReading,
    DeleteBook(u32),
    DeleteReading(u32),
    SearchBooks,
    SearchReadings,
}

/// Whether a segment of a path fits a segment of a template.
pub open spec fn segment_fits(pattern: SegmentView, segment: Seq<char>) -> bool {
    match pattern {
        SegmentView::Exact(text) => segment == text,
        SegmentView::Id => number_of(segment) is Some,
    }
}

/// Whether a path fits a template: segment by segment, none left over.
pub open spec fn path_fits(pattern: Seq<SegmentView>, path: Seq<Seq<char>>) -> bool {
    pattern.len() == path.len() && forall|i: int|
        0 <= i < pattern.len() ==> segment_fits(#[trigger] pattern[i], path[i])
}

/// The identifier that a path holds where the template asks for one: that of
/// the first such segment.
pub open spec fn identifier(pattern: Seq<SegmentView>, path: Seq<Seq<char>>) -> Option<u32>
    decreases pattern.len(),
{
    if pattern.len() == 0 || path.len() == 0 {
        None
    } else if pattern[0] is Id {
        number_of(path[0])
    } else {
        identifier(pattern.drop_first(), path.drop_first())
    }
}

/// The call to an endpoint. An endpoint that works on one record needs its
/// identifier.
pub open spec fn call_of(endpoint: Endpoint, id: Option<u32>) -> Option<Call> {
    match endpoint {
        Endpoint::CreateBook => Some(Call::CreateBook),
        Endpoint::CreateReading => Some(Call::CreateReading),
        Endpoint::UpdateBook => Some(Call::UpdateBook),
        Endpoint::UpdateReading => Some(Call::UpdateReading),
        Endpoint::SearchBooks => Some(Call::SearchBooks),
        Endpoint::SearchReadings => Some(Call::SearchReadings),
        Endpoint::BookById => match id {
            Some(id) => Some(Call::BookById(id)),
            None => None,
        },
        Endpoint::ReadingById => match id {
            Some(id) => Some(Call::ReadingById(id)),
            None => None,
        },
        Endpoint::DeleteBook => match id {
            Some(id) => Some(Call::DeleteBook(id)),
            None => None,
        },
        Endpoint::DeleteReading => match id {
            Some(id) => Some(Call::DeleteReading(id)),
            None => None,
        },
    }
}

/// What a request asks of one route: the call to its endpoint where method
/// and path fit, nothing otherwise.
pub open spec fn route_call(route: RouteView, method: Method, path: Seq<Seq<char>>) -> Option<
    Call,
> {
    if route.method == method && path_fits(route.path, path) {
        call_of(route.endpoint, identifier(route.path, path))
    } else {
        None
    }
}

/// What a request asks of a table of routes: what it asks of the first
/// route that it asks anything of.
pub open spec fn resolve(routes: Seq<RouteView>, method: Method, path: Seq<Seq<char>>) -> Option<
    Call,
>
    decreases routes.len(),
{
    if routes.len() == 0 {
        None
    } else if route_call(routes[0], method, path) is Some {
        route_call(routes[0], method, path)
    } else {
        resolve(routes.drop_first(), method, path)
    }
}

/// Whether `response` answers `call`, made with the parameters `query` and
/// the payload `body` at the store at `location`: each call is answered as
/// its handler answers.
pub open spec fn answers(
    location: Seq<char>,
    call: Call,
    query: Seq<(Seq<char>, Seq<char>)>,
    body: Seq<char>,
    response: ResponseView,
) -> bool {
    match call {
        Call::CreateBook => answers_create_book(location, body, response),
        Call::CreateReading => answers_create_reading(location, body, response),
        Call::BookById(id) => answers_book_by_id(location, id, response),
        Call::ReadingById(id) => answers_reading_by_id(location, id, response),
        Call::UpdateBook => answers_update_book(location, body, response),
        Call::UpdateReading => answers_update_reading(location, body, response),
        Call::DeleteBook(id) => answers_change(
            location,
            delete_book_command(id),
            "Rows-Changed"@,
            response,
        ),
        Call::DeleteReading(id) => answers_change(
            location,
            delete_reading_command(id),
            "Rows-Changed"@,
            response,
        ),
        Call::SearchBooks => answers_books_search(location, query, response),
        Call::SearchReadings => answers_readings_search(location, query, response),
    }
}

/// The route that binds `method` and the path `/first/second` to `endpoint`.
pub open spec fn plain_route(
    method: Method,
    first: Seq<char>,
    second: Seq<char>,
    endpoint: Endpoint,
) -> RouteView {
    RouteView {
        method,
        path: seq![SegmentView::Exact(first), SegmentView::Exact(second)],
        endpoint,
    }
}

/// The route that binds `method` and the paths `/first/second/{id}` to
/// `endpoint`.
pub open spec fn record_route(
    method: Method,
    first: Seq<char>,
    second: Seq<char>,
    endpoint: Endpoint,
) -> RouteView {
    RouteView {
        method,
        path: seq![SegmentView::Exact(first), SegmentView::Exact(second), SegmentView::Id],
        endpoint,
    }
}

impl Endpoint {
    /// The call to this endpoint, for the identifier that the path held.
    pub fn call(self, id: Option<u32>) -> (call: Option<Call>)
        ensures
            call == call_of(self, id),
    {
        match self {
            Endpoint::CreateBook => Some(Call::CreateBook),
            Endpoint::CreateReading => Some(Call::CreateReading),
            Endpoint::UpdateBook => Some(Call::UpdateBook),
            Endpoint::UpdateReading => Some(Call::UpdateReading),
            Endpoint::SearchBooks => Some(Call::SearchBooks),
            Endpoint::SearchReadings => Some(Call::SearchReadings),
            Endpoint::BookById => match id {
                Some(id) => Some(Call::BookById(id)),
                None => None,
            },
            Endpoint::ReadingById => match id {
                Some(id) => Some(Call::ReadingById(id)),
                None => None,
            },
            Endpoint::DeleteBook => match id {
                Some(id) => Some(Call::DeleteBook(id)),
                None => None,
            },
            Endpoint::DeleteReading => match id {
                Some(id) => Some(Call::DeleteReading(id)),
                None => None,
            },
        }
    }
}

impl Route {
    /// Binds `method` and the path `/first/second` to `endpoint`.
    pub fn plain(method: Method, first: &str, second: &str, endpoint: Endpoint) -> (route: Route)
        ensures
            route@ == plain_route(method, first@, second@, endpoint),
    {
        let mut path: Vec<Segment> = Vec::new();
        path.push(Segment::Exact(String::from_str(first)));
        path.push(Segment::Exact(String::from_str(second)));
        let route = Route { method, path, endpoint };
        assert(route@.path =~= plain_route(method, first@, second@, endpoint).path);
        route
    }

    /// Binds `method` and the paths `/first/second/{id}` to `endpoint`.
    pub fn record(method: Method, first: &str, second: &str, endpoint: Endpoint) -> (route: Route)
        ensures
            route@ == record_route(method, first@, second@, endpoint),
    {
        let mut path: Vec<Segment> = Vec::new();
        path.push(Segment::Exact(String::from_str(first)));
        path.push(Segment::Exact(String::from_str(second)));
        path.push(Segment::Id);
        let route = Route { method, path, endpoint };
        assert(route@.path =~= record_route(method, first@, second@, endpoint).path);
        route
    }

    /// What a request asks of this route.
    pub fn call(&self, method: Method, path: &Vec<String>) -> (call: Option<Call>)
        ensures
            call == route_call(self@, method, path_view(path@)),
    {
        if self.method != method || self.path.len() != path.len() {
            return None;
        }
        let mut id: Option<u32> = None;
        let mut seen = false;
        let mut i: usize = 0;
        proof {
            assert(self@.path.subrange(0, self@.path.len() as int) =~= self@.path);
            assert(path_view(path@).subrange(0, path@.len() as int) =~= path_view(path@));
        }
        while i < path.len()
            invariant
                i <= path.len(),
                self.path.len() == path.len(),
                forall|k: int|
                    0 <= k < i ==> segment_fits(#[trigger] self@.path[k], path_view(path@)[k]),
                !seen ==> id is None,
                identifier(self@.path, path_view(path@)) == if seen {
                    id
                } else {
                    identifier(
                        self@.path.subrange(i as int, self@.path.len() as int),
                        path_view(path@).subrange(i as int, path@.len() as int),
                    )
                },
            decreases path.len() - i,
        {
            let ghost pattern = self@.path.subrange(i as int, self@.path.len() as int);
            let ghost rest = path_view(path@).subrange(i as int, path@.len() as int);
            proof {
                assert(pattern[0] == self@.path[i as int]);
                assert(rest[0] == path_view(path@)[i as int]);
                assert(pattern.drop_first() =~= self@.path.subrange(
                    i + 1,
                    self@.path.len() as int,
                ));
                assert(rest.drop_first() =~= path_view(path@).subrange(i + 1, path@.len() as int));
            }
            match &self.path[i] {
                Segment::Exact(text) => {
                    if !same_text(path[i].as_str(), text.as_str()) {
                        return None;
                    }
                },
                Segment::Id => {
                    let number = parse_number(path[i].as_str());
                    if number.is_none() {
                        return None;
                    }
                    if !seen {
                        id = number;
                        seen = true;
                    }
                },
            }
            i += 1;
        }
        proof {
            if !seen {
                assert(self@.path.subrange(i as int, self@.path.len() as int).len() == 0);
            }
        }
        self.endpoint.call(id)
    }
}

/// Finds what a request asks of a table of routes.
pub fn find_call(routes: &Vec<Route>, method: Method, path: &Vec<String>) -> (call: Option<Call>)
    ensures
        call == resolve(routes_view(routes@), method, path_view(path@)),
{
    let mut i: usize = 0;
    proof {
        assert(routes_view(routes@).subrange(0, routes@.len() as int) =~= routes_view(routes@));
    }
    while i < routes.len()
        invariant
            i <= routes.len(),
            resolve(routes_view(routes@), method, path_view(path@)) == resolve(
                routes_view(routes@).subrange(i as int, routes@.len() as int),
                method,
                path_view(path@),
            ),
        decreases routes.len() - i,
    {
        let ghost rest = routes_view(routes@).subrange(i as int, routes@.len() as int);
        proof {
            assert(rest[0] == routes@[i as int]@);
            assert(rest.drop_first() =~= routes_view(routes@).subrange(
                i + 1,
                routes@.len() as int,
            ));
        }
        let call = routes[i].call(method, path);
        if call.is_some() {
            return call;
        }
        i += 1;
    }
    assert(routes_view(routes@).subrange(i as int, routes@.len() as int).len() == 0);
    None
}

/// Answers a call.
pub fn answer(gateway: &Gateway, call: Call, query: QueryParams, body: String) -> (response:
    Response)
    ensures
        answers(gateway@, call, query@, body@, response@),
{
    match call {
        Call::CreateBook => create_book_handler(gateway, body),
        Call::CreateReading => create_reading_handler(gateway, body),
        Call::BookById(id) => book_by_id_handler(gateway, id),
        Call::ReadingById(id) => reading_by_id_handler(gateway, id),
        Call::UpdateBook => update_book_handler(gateway, body),
        Call::UpdateReading => update_reading_handler(gateway, body),
        Call::DeleteBook(id) => delete_book_handler(gateway, id),
        Call::DeleteReading(id) => delete_reading_handler(gateway, id),
        Call::SearchBooks => search_books_handler(gateway, query),
        Call::SearchReadings => search_readings_handler(gateway, query),
    }
}

/// Serves a request: the answer to what it asks of the table, and nothing
/// where it asks nothing of any route.
pub fn serve(gateway: &Gateway, routes: &Vec<Route>, request: Request) -> (served: Option<
    Response,
>)
    ensures
        match resolve(routes_view(routes@), request.method, path_view(request.path@)) {
            Some(call) => served matches Some(response) && answers(
                gateway@,
                call,
                request.query@,
                request.body@,
                response@,
            ),
            None => served is None,
        },
{
    match find_call(routes, request.method, &request.path) {
        Some(call) => Some(answer(gateway, call, request.query, request.body)),
        None => None,
    }
}

} // verus!
