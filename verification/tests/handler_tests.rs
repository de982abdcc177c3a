use alexandria_db::api::controllers::book::{
    book_by_id_handler, book_by_id_reply, create_book_handler, delete_book_handler,
    update_book_handler,
};
use alexandria_db::api::controllers::common::{change_reply, reject};
use alexandria_db::api::controllers::reading::{
    create_reading_handler, delete_reading_handler, reading_by_id_handler, reading_by_id_reply,
    update_reading_handler,
};
use alexandria_db::api::controllers::search::{
    books_search_reply, failed_search_reply, missing_param_reply, params_are_valid,
    readings_search_reply, search_books_handler, search_readings_handler, SearchParam,
};
use alexandria_db::api::models::book::Book;
use alexandria_db::api::models::reading::Reading;
use alexandria_db::db_storage::{DbError, Gateway};
use alexandria_db::http::Response;
use alexandria_db::payload::PayloadError;
use alexandria_db::query::QueryParams;

const SCHEMA: &str = "
    CREATE TABLE book (id INTEGER PRIMARY KEY, title TEXT NOT NULL, author TEXT NOT NULL,
        pages INTEGER, genre TEXT, medium TEXT NOT NULL, rating INTEGER, notes TEXT);
    CREATE TABLE reading (id INTEGER PRIMARY KEY, book INTEGER NOT NULL,
        start_date TEXT NOT NULL, end_date TEXT, notes TEXT);";

/// A store in memory, alive as long as the connection that comes with it.
fn service_store(name: &str) -> (Gateway, rusqlite::Connection) {
    let gateway = Gateway::at(&format!("file:{}?mode=memory&cache=shared", name));
    let anchor = gateway.open().unwrap();
    anchor.execute_batch(SCHEMA).unwrap();
    (gateway, anchor)
}

fn nowhere() -> Gateway {
    Gateway::at("/nowhere/at/all/service.db")
}

fn plain(status: u16, body: &str) -> Response {
    Response { status, headers: vec![], body: body.to_string() }
}

fn bare(status: u16, name: &str, value: &str) -> Response {
    Response {
        status,
        headers: vec![(name.to_string(), value.to_string())],
        body: String::new(),
    }
}

fn params(pairs: &[(&str, &str)]) -> QueryParams {
    let mut params = QueryParams::new();
    for (name, value) in pairs {
        params.insert(name.to_string(), value.to_string());
    }
    params
}

fn count_of(anchor: &rusqlite::Connection, table: &str) -> i64 {
    anchor.query_row(&format!("SELECT COUNT(*) FROM {}", table), [], |row| row.get(0)).unwrap()
}

fn a_book() -> Book {
    Book {
        id: Some(1),
        title: "T".to_string(),
        author: "A".to_string(),
        pages: None,
        genre: None,
        medium: "print".to_string(),
        rating: None,
        notes: None,
    }
}

const THE_BOOK: &str = "{\"id\":1,\"title\":\"T\",\"author\":\"A\",\"pages\":null,\"genre\":null,\"medium\":\"print\",\"rating\":null,\"notes\":null}";

#[test]
fn responses_are_built_from_their_parts() {
    assert_eq!(Response::with_body(404, "gone".to_string()), plain(404, "gone"));
    assert_eq!(Response::with_header(204, "Rows-Changed", "1".to_string()), bare(204, "Rows-Changed", "1"));
}

#[test]
fn a_change_is_answered_with_its_count() {
    assert_eq!(change_reply("Rows-Changed", Ok(0)), bare(204, "Rows-Changed", "0"));
    assert_eq!(change_reply("Rows-Changed", Ok(1)), bare(204, "Rows-Changed", "1"));
    assert_eq!(change_reply("RowsChanged", Ok(12)), bare(204, "RowsChanged", "12"));
    assert_eq!(
        change_reply("Rows-Changed", Err(DbError::Store("disk I/O error".to_string()))),
        plain(500, "disk I/O error")
    );
    assert_eq!(
        change_reply("Rows-Changed", Err(DbError::Connection("unable to open".to_string()))),
        plain(500, "unable to open")
    );
    assert_eq!(change_reply("Rows-Changed", Err(DbError::NotFound)), plain(500, "Query returned no rows"));
}

#[test]
fn a_payload_at_fault_is_answered_with_400() {
    assert_eq!(
        reject(&PayloadError::MissingField("medium".to_string())),
        plain(400, "missing field `medium`")
    );
    assert_eq!(
        reject(&PayloadError::Malformed("expected value at line 1 column 1".to_string())),
        plain(400, "expected value at line 1 column 1")
    );
}

#[test]
fn a_fetch_is_answered_by_its_outcome() {
    assert_eq!(book_by_id_reply(Ok(a_book())), plain(200, THE_BOOK));
    assert_eq!(book_by_id_reply(Err(DbError::NotFound)), plain(404, "No book was found with that id"));
    assert_eq!(
        book_by_id_reply(Err(DbError::Store("no such table: book".to_string()))),
        plain(500, "no such table: book")
    );
    assert_eq!(
        book_by_id_reply(Err(DbError::Connection("unable to open".to_string()))),
        plain(500, "unable to open")
    );
    assert_eq!(book_by_id_reply(Err(DbError::InvalidCell(3))), plain(500, "Invalid column type at index: 3"));
    assert_eq!(
        book_by_id_reply(Err(DbError::InvalidColumn("x".to_string()))),
        plain(500, "Invalid column name: x")
    );
    let reading = Reading {
        id: Some(2),
        book: 1,
        start_date: "2020-03-01".to_string(),
        end_date: None,
        notes: None,
    };
    assert_eq!(
        reading_by_id_reply(Ok(reading)),
        plain(200, "{\"id\":2,\"book\":1,\"start_date\":\"2020-03-01\",\"end_date\":null,\"notes\":null}")
    );
    assert_eq!(
        reading_by_id_reply(Err(DbError::NotFound)),
        plain(404, "No reading was found with that id")
    );
    assert_eq!(reading_by_id_reply(Err(DbError::InvalidCell(1))), plain(500, "Invalid column type at index: 1"));
}

#[test]
fn create_then_get() {
    let (gateway, _anchor) = service_store("create_then_get");
    let created =
        create_book_handler(&gateway, r#"{"title":"T","author":"A","medium":"print"}"#.to_string());
    assert_eq!(created.status, 204);
    assert_eq!(created.body, "");
    assert_eq!(created, bare(204, "RowsChanged", "1"));
    let fetched = book_by_id_handler(&gateway, 1);
    assert_eq!(fetched.status, 200);
    assert!(fetched.body.contains("\"title\":\"T\""), "{}", fetched.body);
    assert_eq!(fetched, plain(200, THE_BOOK));
}

#[test]
fn get_of_a_book_that_is_not_there() {
    let (gateway, _anchor) = service_store("get_of_a_book_that_is_not_there");
    assert_eq!(book_by_id_handler(&gateway, 999999), plain(404, "No book was found with that id"));
    assert_eq!(
        reading_by_id_handler(&gateway, 999999),
        plain(404, "No reading was found with that id")
    );
}

#[test]
fn delete_of_what_is_not_there_is_no_error() {
    let (gateway, _anchor) = service_store("delete_of_what_is_not_there_is_no_error");
    assert_eq!(delete_book_handler(&gateway, 999999), bare(204, "Rows-Changed", "0"));
    assert_eq!(delete_reading_handler(&gateway, 999999), bare(204, "Rows-Changed", "0"));
}

#[test]
fn delete_twice_is_answered_204_both_times() {
    let (gateway, _anchor) = service_store("delete_twice_is_answered_204_both_times");
    create_book_handler(&gateway, r#"{"title":"T","author":"A","medium":"print"}"#.to_string());
    create_reading_handler(&gateway, r#"{"book":1,"start_date":"2020-03-01"}"#.to_string());
    assert_eq!(delete_book_handler(&gateway, 1), bare(204, "Rows-Changed", "1"));
    assert_eq!(delete_book_handler(&gateway, 1), bare(204, "Rows-Changed", "0"));
    assert_eq!(delete_reading_handler(&gateway, 1), bare(204, "Rows-Changed", "1"));
    assert_eq!(delete_reading_handler(&gateway, 1), bare(204, "Rows-Changed", "0"));
    assert_eq!(book_by_id_handler(&gateway, 1).status, 404);
}

#[test]
fn create_without_a_required_field_never_reaches_the_store() {
    let (gateway, anchor) = service_store("create_without_a_required_field");
    for (payload, field) in [
        (r#"{"author":"A","medium":"print"}"#, "title"),
        (r#"{"title":"T","medium":"print"}"#, "author"),
        (r#"{"title":"T","author":"A"}"#, "medium"),
    ] {
        let expected = plain(400, &format!("missing field `{}`", field));
        assert_eq!(create_book_handler(&gateway, payload.to_string()), expected);
        assert_eq!(update_book_handler(&gateway, payload.to_string()), expected);
        assert_eq!(create_book_handler(&nowhere(), payload.to_string()), expected);
        assert_eq!(update_book_handler(&nowhere(), payload.to_string()), expected);
    }
    assert_eq!(count_of(&anchor, "book"), 0);
    for (payload, field) in
        [(r#"{"start_date":"2020-03-01"}"#, "book"), (r#"{"book":1}"#, "start_date")]
    {
        let expected = plain(400, &format!("missing field `{}`", field));
        assert_eq!(create_reading_handler(&gateway, payload.to_string()), expected);
        assert_eq!(update_reading_handler(&nowhere(), payload.to_string()), expected);
    }
    assert_eq!(count_of(&anchor, "reading"), 0);
}

#[test]
fn a_payload_that_is_no_json_is_answered_with_the_parsers_words() {
    let (gateway, anchor) = service_store("a_payload_that_is_no_json");
    assert_eq!(
        create_book_handler(&gateway, "book=T".to_string()),
        plain(400, "expected value at line 1 column 1")
    );
    assert_eq!(
        update_reading_handler(&gateway, "".to_string()),
        plain(400, "EOF while parsing a value at line 1 column 0")
    );
    assert_eq!(
        create_reading_handler(&gateway, "[1]".to_string()),
        plain(400, "invalid type: expected a JSON object")
    );
    assert_eq!(
        update_book_handler(&gateway, r#"{"title":"T","author":"A","medium":"print","rating":"5"}"#.to_string()),
        plain(400, "invalid value for field `rating`")
    );
    assert_eq!(count_of(&anchor, "book"), 0);
}

#[test]
fn update_overwrites_the_record_of_the_identifier() {
    let (gateway, _anchor) = service_store("update_overwrites_the_record");
    create_book_handler(&gateway, r#"{"title":"T","author":"A","medium":"print"}"#.to_string());
    let payload = r#"{"id":1,"title":"T2","author":"A","medium":"audio","pages":300}"#;
    assert_eq!(update_book_handler(&gateway, payload.to_string()), bare(204, "Rows-Changed", "1"));
    assert_eq!(
        book_by_id_handler(&gateway, 1),
        plain(200, "{\"id\":1,\"title\":\"T2\",\"author\":\"A\",\"pages\":300,\"genre\":null,\"medium\":\"audio\",\"rating\":null,\"notes\":null}")
    );
    let absent = r#"{"id":5,"title":"T2","author":"A","medium":"audio"}"#;
    assert_eq!(update_book_handler(&gateway, absent.to_string()), bare(204, "Rows-Changed", "0"));
    create_reading_handler(&gateway, r#"{"book":1,"start_date":"2020-03-01"}"#.to_string());
    let payload = r#"{"id":1,"book":1,"start_date":"2020-03-01","end_date":"2020-04-01"}"#;
    assert_eq!(update_reading_handler(&gateway, payload.to_string()), bare(204, "Rows-Changed", "1"));
    assert_eq!(
        reading_by_id_handler(&gateway, 1),
        plain(200, "{\"id\":1,\"book\":1,\"start_date\":\"2020-03-01\",\"end_date\":\"2020-04-01\",\"notes\":null}")
    );
}

#[test]
fn a_store_that_fails_is_answered_with_500() {
    let gateway = Gateway::at("file:a_store_that_fails?mode=memory&cache=shared");
    let _anchor = gateway.open().unwrap();
    let payload = r#"{"title":"T","author":"A","medium":"print"}"#;
    assert_eq!(create_book_handler(&gateway, payload.to_string()), plain(500, "no such table: book"));
    assert_eq!(update_book_handler(&gateway, payload.to_string()), plain(500, "no such table: book"));
    assert_eq!(book_by_id_handler(&gateway, 1), plain(500, "no such table: book"));
    assert_eq!(delete_book_handler(&gateway, 1), plain(500, "no such table: book"));
    assert_eq!(delete_reading_handler(&gateway, 1), plain(500, "no such table: reading"));
    let unreachable = book_by_id_handler(&nowhere(), 1);
    assert_eq!(unreachable.status, 500);
    assert!(unreachable.body.contains("unable to open"), "{}", unreachable.body);
    assert_eq!(create_book_handler(&nowhere(), payload.to_string()).status, 500);
    assert_eq!(delete_book_handler(&nowhere(), 1).status, 500);
}

#[test]
fn search_parameters_are_checked_in_order() {
    assert_eq!(params_are_valid(&params(&[])), Err(SearchParam::FilterBy));
    assert_eq!(params_are_valid(&params(&[("query", "X")])), Err(SearchParam::FilterBy));
    assert_eq!(params_are_valid(&params(&[("filterBy", "title")])), Err(SearchParam::Query));
    assert_eq!(params_are_valid(&params(&[("filterby", "title"), ("query", "X")])), Err(SearchParam::FilterBy));
    assert_eq!(params_are_valid(&params(&[("query", "X"), ("filterBy", "title")])), Ok(()));
    assert_eq!(params_are_valid(&params(&[("filterBy", ""), ("query", ""), ("limit", "3")])), Ok(()));
}

#[test]
fn search_without_filter_by() {
    let response = search_books_handler(&nowhere(), params(&[("query", "X")]));
    assert_eq!(response.status, 422);
    assert!(response.body.contains("filterBy"), "{}", response.body);
    assert_eq!(response, plain(422, "Missing required parameter: filterBy"));
    assert_eq!(missing_param_reply(SearchParam::FilterBy), response);
    assert_eq!(search_readings_handler(&nowhere(), params(&[])), response);
}

#[test]
fn search_without_query() {
    let response = search_books_handler(&nowhere(), params(&[("filterBy", "title")]));
    assert_eq!(response, plain(422, "Missing required parameter: query"));
    assert_eq!(missing_param_reply(SearchParam::Query), response);
    assert_eq!(
        search_readings_handler(&nowhere(), params(&[("filterBy", "nonsense")])),
        response
    );
}

#[test]
fn search_by_a_column_outside_the_list() {
    for column in ["id", "notes", "colour", "", "title; DROP TABLE book"] {
        let response = search_books_handler(&nowhere(), params(&[("filterBy", column), ("query", "X")]));
        assert_eq!(response.status, 404);
        assert!(response.body.contains(column));
        assert_eq!(response, plain(404, &format!("Invalid column name for query: {}", column)));
        assert_eq!(
            search_readings_handler(&nowhere(), params(&[("query", "X"), ("filterBy", column)])),
            response
        );
    }
}

#[test]
fn a_failed_search_is_answered_by_its_error() {
    assert_eq!(
        failed_search_reply(&DbError::InvalidColumn("colour".to_string())),
        plain(404, "Invalid column name for query: colour")
    );
    assert_eq!(
        failed_search_reply(&DbError::Store("no such column: book".to_string())),
        plain(500, "no such column: book")
    );
    assert_eq!(failed_search_reply(&DbError::NotFound), plain(500, "Query returned no rows"));
    assert_eq!(books_search_reply(Err(DbError::InvalidCell(2))), plain(500, "Invalid column type at index: 2"));
    assert_eq!(books_search_reply(Ok(vec![])), plain(200, "[]"));
    assert_eq!(readings_search_reply(Ok(vec![])), plain(200, "[]"));
    assert_eq!(books_search_reply(Ok(vec![a_book(), a_book()])), plain(200, &format!("[{},{}]", THE_BOOK, THE_BOOK)));
}

#[test]
fn search_finds_the_records_of_a_value() {
    let (gateway, _anchor) = service_store("search_finds_the_records_of_a_value");
    create_book_handler(&gateway, r#"{"title":"T","author":"A","medium":"print"}"#.to_string());
    create_book_handler(&gateway, r#"{"title":"U","author":"B","medium":"print"}"#.to_string());
    create_reading_handler(&gateway, r#"{"book":2,"start_date":"2020-03-01"}"#.to_string());
    assert_eq!(
        search_books_handler(&gateway, params(&[("filterBy", "title"), ("query", "T")])),
        plain(200, &format!("[{}]", THE_BOOK))
    );
    assert_eq!(
        search_books_handler(&gateway, params(&[("filterBy", "author"), ("query", "C")])),
        plain(200, "[]")
    );
    assert_eq!(
        search_readings_handler(&gateway, params(&[("filterBy", "book"), ("query", "2")])),
        plain(200, "[{\"id\":1,\"book\":2,\"start_date\":\"2020-03-01\",\"end_date\":null,\"notes\":null}]")
    );
    assert_eq!(
        search_books_handler(&gateway, params(&[("filterBy", "end_date"), ("query", "x")])),
        plain(500, "no such column: end_date")
    );
    assert_eq!(
        search_books_handler(&nowhere(), params(&[("filterBy", "title"), ("query", "T")])).status,
        500
    );
}
