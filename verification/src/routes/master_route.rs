//! The table of all routes, put together method by method.

use vstd::prelude::*;
use crate::routes::route::{
    identifier,
    resolve,
    route_call,
    routes_view,
    Call,
    Method,
    Route,
    RouteView,
};
use crate::routes::search::search::{search_content, search_routes};
use crate::text::number_of;

verus! {

/// The routes that insert: a book, a reading.
pub open spec fn create_routes() -> Seq<RouteView> {
    seq![
        crate::routes::create::book::new_book_route(),
        crate::routes::create::reading::new_reading_route(),
    ]
}

/// The routes that fetch: a book, a reading.
pub open spec fn get_routes() -> Seq<RouteView> {
    seq![crate::routes::get::book::by_id_route(), crate::routes::get::reading::by_id_route()]
}

/// The routes that update: a book, a reading.
pub open spec fn update_routes() -> Seq<RouteView> {
    seq![crate::routes::update::book::by_id_route(), crate::routes::update::reading::by_id_route()]
}

/// The routes that delete: a book, a reading.
pub open spec fn delete_routes() -> Seq<RouteView> {
    seq![crate::routes::delete::book::by_id_route(), crate::routes::delete::reading::by_id_route()]
}

/// The table of all routes: those that insert, fetch, update and delete, in
/// this order, and the filters behind them.
pub open spec fn master_route() -> Seq<RouteView> {
    create_routes() + get_routes() + update_routes() + delete_routes() + search_routes()
}

fn generate_create_routes() -> (routes: Vec<Route>)
    ensures
        routes_view(routes@) == create_routes(),
{
    let mut routes: Vec<Route> = Vec::new();
    routes.push(crate::routes::create::book::new_book());
    routes.push(crate::routes::create::reading::new_reading());
    assert(routes_view(routes@) =~= create_routes());
    routes
}

fn generate_get_routes() -> (routes: Vec<Route>)
    ensures
        routes_view(routes@) == get_routes(),
{
    let mut routes: Vec<Route> = Vec::new();
    routes.push(crate::routes::get::book::by_id());
    routes.push(crate::routes::get::reading::by_id());
    assert(routes_view(routes@) =~= get_routes());
    routes
}

fn generate_update_routes() -> (routes: Vec<Route>)
    ensures
        routes_view(routes@) == update_routes(),
{
    let mut routes: Vec<Route> = Vec::new();
    routes.push(crate::routes::update::book::by_id());
    routes.push(crate::routes::update::reading::by_id());
    assert(routes_view(routes@) =~= update_routes());
    routes
}

fn generate_delete_routes() -> (routes: Vec<Route>)
    ensures
        routes_view(routes@) == delete_routes(),
{
    let mut routes: Vec<Route> = Vec::new();
    routes.push(crate::routes::delete::book::by_id());
    routes.push(crate::routes::delete::reading::by_id());
    assert(routes_view(routes@) =~= delete_routes());
    routes
}

/// Puts the table of all routes together.
pub fn generate_master_route() -> (routes: Vec<Route>)
    ensures
        routes_view(routes@) == master_route(),
{
    let mut routes = generate_create_routes();
    let mut read = generate_get_routes();
    let mut update = generate_update_routes();
    let mut delete = generate_delete_routes();
    let mut search = search_content();
    routes.append(&mut read);
    routes.append(&mut update);
    routes.append(&mut delete);
    routes.append(&mut search);
    assert(routes_view(routes@) =~= master_route());
    routes
}

/// What a request asks for, path by path: the routes of the service, read
/// off as one table.
pub open spec fn asked(method: Method, path: Seq<Seq<char>>) -> Option<Call> {
    if path.len() == 2 {
        if method == Method::Post && path[0] == "create"@ && path[1] == "book"@ {
            Some(Call::CreateBook)
        } else if method == Method::Post && path[0] == "create"@ && path[1] == "reading"@ {
            Some(Call::CreateReading)
        } else if method == Method::Put && path[0] == "update"@ && path[1] == "book"@ {
            Some(Call::UpdateBook)
        } else if method == Method::Put && path[0] == "update"@ && path[1] == "reading"@ {
            Some(Call::UpdateReading)
        } else if method == Method::Get && path[0] == "search"@ && path[1] == "books"@ {
            Some(Call::SearchBooks)
        } else if method == Method::Get && path[0] == "search"@ && path[1] == "readings"@ {
            Some(Call::SearchReadings)
        } else {
            None
        }
    } else if path.len() == 3 && path[1] == "id"@ && number_of(path[2]) is Some {
        let id = number_of(path[2])->0;
        if method == Method::Get && path[0] == "book"@ {
            Some(Call::BookById(id))
        } else if method == Method::Get && path[0] == "reading"@ {
            Some(Call::ReadingById(id))
        } else if method == Method::Delete && path[0] == "book"@ {
            Some(Call::DeleteBook(id))
        } else if method == Method::Delete && path[0] == "reading"@ {
            Some(Call::DeleteReading(id))
        } else {
            None
        }
    } else {
        None
    }
}

/// The table of all routes holds ten routes, each with one segment for an
/// identifier at most, and no two of them bind the same method and path
/// template.
pub proof fn lemma_master_route_binds_once()
    ensures
        master_route().len() == 10,
        forall|i: int, k: int|
            0 <= i < 10 && 0 <= k < master_route()[i].path.len() && (
            #[trigger] master_route()[i].path[k]) is Id ==> k == 2,
        forall|i: int, j: int|
            0 <= i < j < 10 ==> (#[trigger] master_route()[i]).method != (
            #[trigger] master_route()[j]).method || master_route()[i].path
                != master_route()[j].path,
{
    reveal_strlit("create");
    reveal_strlit("update");
    reveal_strlit("search");
    reveal_strlit("book");
    reveal_strlit("reading");
    reveal_strlit("books");
    reveal_strlit("readings");
    reveal_strlit("id");
    let table = master_route();
    assert(table.len() == 10);
    assert("book"@.len() == 4 && "reading"@.len() == 7);
    assert("books"@.len() == 5 && "readings"@.len() == 8);
    assert forall|i: int, j: int| 0 <= i < j < 10 implies (#[trigger] table[i]).method != (
    #[trigger] table[j]).method || table[i].path != table[j].path by {
        if table[i].method == table[j].method && table[i].path == table[j].path {
            assert(table[i].path[0] == table[j].path[0]);
            assert(table[i].path[1] == table[j].path[1]);
        }
    }
}

/// The table of all routes leads each request where `asked` says.
pub proof fn lemma_master_route_resolves(method: Method, path: Seq<Seq<char>>)
    ensures
        resolve(master_route(), method, path) == asked(method, path),
{
    reveal_strlit("create");
    reveal_strlit("update");
    reveal_strlit("search");
    reveal_strlit("book");
    reveal_strlit("reading");
    reveal_strlit("books");
    reveal_strlit("readings");
    reveal_strlit("id");
    assert("create"@.len() == 6 && "create"@[0] == 'c');
    assert("update"@.len() == 6 && "update"@[0] == 'u');
    assert("search"@.len() == 6 && "search"@[0] == 's');
    assert("book"@.len() == 4 && "reading"@.len() == 7);
    assert("books"@.len() == 5 && "readings"@.len() == 8);
    assert("id"@.len() == 2);
    reveal_with_fuel(identifier, 4);
    let table = master_route();
    assert(table.len() == 10);
    lemma_resolve_from(table, method, path, 0);
    lemma_resolve_from(table, method, path, 1);
    lemma_resolve_from(table, method, path, 2);
    lemma_resolve_from(table, method, path, 3);
    lemma_resolve_from(table, method, path, 4);
    lemma_resolve_from(table, method, path, 5);
    lemma_resolve_from(table, method, path, 6);
    lemma_resolve_from(table, method, path, 7);
    lemma_resolve_from(table, method, path, 8);
    lemma_resolve_from(table, method, path, 9);
    assert(table.skip(10).len() == 0);
    assert(table.skip(0) =~= table);
}

/// What a request asks of the routes from the `n`th on is what it asks of
/// the `n`th, and else what it asks of the routes behind it.
pub proof fn lemma_resolve_from(
    routes: Seq<RouteView>,
    method: Method,
    path: Seq<Seq<char>>,
    n: int,
)
    requires
        0 <= n < routes.len(),
    ensures
        resolve(routes.skip(n), method, path) == if route_call(routes[n], method, path) is Some {
            route_call(routes[n], method, path)
        } else {
            resolve(routes.skip(n + 1), method, path)
        },
{
    assert(routes.skip(n)[0] == routes[n]);
    assert(routes.skip(n).drop_first() =~= routes.skip(n + 1));
}

} // verus!
