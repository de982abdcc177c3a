//! The handlers for filters: the records of one kind whose column, named by
//! the parameter `filterBy`, equals the parameter `query`.

use vstd::prelude::*;
use vstd::pervasive::unreached;
use crate::api::models::book::{
    books_document,
    books_filtered,
    books_to_json,
    books_view,
    found_books_view,
    lemma_books_document_has_no_decimal,
    query_books_by_filter,
    Book,
    BookView,
};
use crate::api::models::common::is_filter_column;
use crate::api::models::reading::{
    found_readings_view,
    lemma_readings_document_has_no_decimal,
    query_readings_by_filter,
    readings_document,
    readings_filtered,
    readings_to_json,
    readings_view,
    Reading,
    ReadingView,
};
use crate::db_storage::{DbError, DbErrorView, Gateway};
use crate::http::{
    plain,
    Response,
    ResponseView,
    INTERNAL_SERVER_ERROR,
    NOT_FOUND,
    OK,
    UNPROCESSABLE_ENTITY,
};
use crate::json::json_text;
use crate::pairs::lookup;
use crate::query::QueryParams;
use crate::text::join;

verus! {

/// A parameter that a filter cannot do without.
#[derive(Debug, Clone, Copy, PartialEq, Eq, Structural)]
pub enum SearchParam {
    FilterBy,
    Query,
}

/// The required parameter that is not there: `filterBy` before `query`.
pub open spec fn missing_param(params: Seq<(Seq<char>, Seq<char>)>) -> Option<SearchParam> {
    if lookup(params, "filterBy"@) is None {
        Some(SearchParam::FilterBy)
    } else if lookup(params, "query"@) is None {
        Some(SearchParam::Query)
    } else {
        None
    }
}

/// The answer to a filter that lacks a parameter: status 422, and the
/// parameter by name.
pub open spec fn missing_param_answer(param: SearchParam) -> ResponseView {
    match param {
        SearchParam::FilterBy => plain(
            UNPROCESSABLE_ENTITY,
            "Missing required parameter: filterBy"@,
        ),
        SearchParam::Query => plain(UNPROCESSABLE_ENTITY, "Missing required parameter: query"@),
    }
}

/// The answer to a failed filter: 404 with the column by name where the
/// column is not one to filter by, 500 with the error in words otherwise.
pub open spec fn failed_search_answer(error: DbErrorView) -> ResponseView {
    match error {
        DbErrorView::InvalidColumn(column) => plain(
            NOT_FOUND,
            "Invalid column name for query: "@ + column,
        ),
        _ => plain(INTERNAL_SERVER_ERROR, error.message()),
    }
}

/// The answer to a filter of books: the books as a JSON array with status
/// 200, or the answer to the failure. A failure to write the JSON is
/// answered with 500.
pub open spec fn books_search_answer(found: Result<Seq<BookView>, DbErrorView>) -> ResponseView {
    match found {
        Ok(books) => match json_text(books_document(books)) {
            Ok(text) => plain(OK, text),
            Err(words) => plain(INTERNAL_SERVER_ERROR, words),
        },
        Err(error) => failed_search_answer(error),
    }
}

/// The answer to a filter of readings: the readings as a JSON array with
/// status 200, or the answer to the failure. A failure to write the JSON is
/// answered with 500.
pub open spec fn readings_search_answer(found: Result<Seq<ReadingView>, DbErrorView>)
    -> ResponseView {
    match found {
        Ok(readings) => match json_text(readings_document(readings)) {
            Ok(text) => plain(OK, text),
            Err(words) => plain(INTERNAL_SERVER_ERROR, words),
        },
        Err(error) => failed_search_answer(error),
    }
}

/// Checks that both required parameters are there, `filterBy` first.
pub fn params_are_valid(params: &QueryParams) -> (checked: Result<(), SearchParam>)
    ensures
        match checked {
            Ok(_) => missing_param(params@) is None,
            Err(param) => missing_param(params@) == Some(param),
        },
{
    if !params.contains_key("filterBy") {
        Err(SearchParam::FilterBy)
    } else if !params.contains_key("query") {
        Err(SearchParam::Query)
    } else {
        Ok(())
    }
}

/// Answers a filter that lacks a parameter.
pub fn missing_param_reply(param: SearchParam) -> (response: Response)
    ensures
        response@ == missing_param_answer(param),
{
    match param {
        SearchParam::FilterBy => Response::with_body(
            UNPROCESSABLE_ENTITY,
            String::from_str("Missing required parameter: filterBy"),
        ),
        SearchParam::Query => Response::with_body(
            UNPROCESSABLE_ENTITY,
            String::from_str("Missing required parameter: query"),
        ),
    }
}

/// Answers a failed filter.
pub fn failed_search_reply(error: &DbError) -> (response: Response)
    ensures
        response@ == failed_search_answer(error@),
{
    match error {
        DbError::InvalidColumn(column) => Response::with_body(
            NOT_FOUND,
            join("Invalid column name for query: ", column.as_str()),
        ),
        _ => Response::with_body(INTERNAL_SERVER_ERROR, error.message()),
    }
}

/// Answers a filter of books. Books that were found are answered with
/// status 200 and the text of their document.
pub fn books_search_reply(found: Result<Vec<Book>, DbError>) -> (response: Response)
    ensures
        response@ == books_search_answer(found_books_view(found)),
        found matches Ok(books) ==> response@.status == OK && json_text(
            books_document(books_view(books@)),
        ) == Ok::<Seq<char>, Seq<char>>(response@.body),
{
    match found {
        Ok(books) => {
            proof {
                lemma_books_document_has_no_decimal(books_view(books@));
            }
            match books_to_json(&books).to_text() {
                Ok(text) => Response::with_body(OK, text),
                Err(words) => Response::with_body(INTERNAL_SERVER_ERROR, words),
            }
        },
        Err(error) => failed_search_reply(&error),
    }
}

/// Answers a filter of readings. Readings that were found are answered with
/// status 200 and the text of their document.
pub fn readings_search_reply(found: Result<Vec<Reading>, DbError>) -> (response: Response)
    ensures
        response@ == readings_search_answer(found_readings_view(found)),
        found matches Ok(readings) ==> response@.status == OK && json_text(
            readings_document(readings_view(readings@)),
        ) == Ok::<Seq<char>, Seq<char>>(response@.body),
{
    match found {
        Ok(readings) => {
            proof {
                lemma_readings_document_has_no_decimal(readings_view(readings@));
            }
            match readings_to_json(&readings).to_text() {
                Ok(text) => Response::with_body(OK, text),
                Err(words) => Response::with_body(INTERNAL_SERVER_ERROR, words),
            }
        },
        Err(error) => failed_search_reply(&error),
    }
}

/// Whether `response` answers a filter of books with the parameters
/// `params`, at the store at `location`: 422 where a parameter is missing;
/// else the answer to what was found for the column `filterBy` and the
/// value `query`, which is 404 where the column is not one to filter by, and
/// has status 200 where the store answered.
pub open spec fn answers_books_search(
    location: Seq<char>,
    params: Seq<(Seq<char>, Seq<char>)>,
    response: ResponseView,
) -> bool {
    match missing_param(params) {
        Some(param) => response == missing_param_answer(param),
        None => exists|found: Result<Vec<Book>, DbError>|
            #[trigger] books_filtered(
                location,
                lookup(params, "filterBy"@)->0,
                lookup(params, "query"@)->0,
                found,
            ) && response == books_search_answer(found_books_view(found)) && (found is Ok
                ==> response.status == OK),
    }
}

/// Answers `GET /search/books`. A missing parameter is answered with 422,
/// `filterBy` before `query`; a column that is not one to filter by with
/// 404; neither answer depends on the store. For any other request the
/// response is the answer to what the store gave.
pub fn search_books_handler(gateway: &Gateway, params: QueryParams) -> (response: Response)
    ensures
        answers_books_search(gateway@, params@, response@),
{
    match params_are_valid(&params) {
        Ok(_) => {},
        Err(param) => {
            return missing_param_reply(param);
        },
    }
    let filter_col = match params.get("filterBy") {
        Some(column) => column.clone(),
        None => unreached(),
    };
    let filter_query = match params.get("query") {
        Some(value) => value.clone(),
        None => unreached(),
    };
    let found = query_books_by_filter(gateway, filter_col, filter_query);
    let ghost outcome = found;
    let response = books_search_reply(found);
    assert(books_filtered(
        gateway@,
        lookup(params@, "filterBy"@)->0,
        lookup(params@, "query"@)->0,
        outcome,
    ));
    response
}

/// Whether `response` answers a filter of readings with the parameters
/// `params`, at the store at `location`: 422 where a parameter is missing;
/// else the answer to what was found for the column `filterBy` and the
/// value `query`, which is 404 where the column is not one to filter by, and
/// has status 200 where the store answered.
pub open spec fn answers_readings_search(
    location: Seq<char>,
    params: Seq<(Seq<char>, Seq<char>)>,
    response: ResponseView,
) -> bool {
    match missing_param(params) {
        Some(param) => response == missing_param_answer(param),
        None => exists|found: Result<Vec<Reading>, DbError>|
            #[trigger] readings_filtered(
                location,
                lookup(params, "filterBy"@)->0,
                lookup(params, "query"@)->0,
                found,
            ) && response == readings_search_answer(found_readings_view(found)) && (found is Ok
                ==> response.status == OK),
    }
}

/// Answers `GET /search/readings`. A missing parameter is answered with 422,
/// `filterBy` before `query`; a column that is not one to filter by with
/// 404; neither answer depends on the store. For any other request the
/// response is the answer to what the store gave.
pub fn search_readings_handler(gateway: &Gateway, params: QueryParams) -> (response: Response)
    ensures
        answers_readings_search(gateway@, params@, response@),
{
    match params_are_valid(&params) {
        Ok(_) => {},
        Err(param) => {
            return missing_param_reply(param);
        },
    }
    let filter_col = match params.get("filterBy") {
        Some(column) => column.clone(),
        None => unreached(),
    };
    let filter_query = match params.get("query") {
        Some(value) => value.clone(),
        None => unreached(),
    };
    let found = query_readings_by_filter(gateway, filter_col, filter_query);
    let ghost outcome = found;
    let response = readings_search_reply(found);
    assert(readings_filtered(
        gateway@,
        lookup(params@, "filterBy"@)->0,
        lookup(params@, "query"@)->0,
        outcome,
    ));
    response
}

/// A filter by a column that is not one to filter by is answered with 404,
/// by `search_books_handler` and by `search_readings_handler`, and the body
/// of the answer ends with the column as it was given.
pub proof fn lemma_invalid_column_is_not_found(
    location: Seq<char>,
    params: Seq<(Seq<char>, Seq<char>)>,
    response: ResponseView,
)
    ensures
        ({
            let column = lookup(params, "filterBy"@)->0;
            missing_param(params) is None && !is_filter_column(column) && (answers_books_search(
                location,
                params,
                response,
            ) || answers_readings_search(location, params, response)) ==> response.status
                == NOT_FOUND
                && response.body.len() >= column.len() && response.body.subrange(
                response.body.len() - column.len(),
                response.body.len() as int,
            ) == column
        }),
{
    let column = lookup(params, "filterBy"@)->0;
    let body = "Invalid column name for query: "@ + column;
    assert(body.subrange(body.len() - column.len(), body.len() as int) =~= column);
}

} // verus!
