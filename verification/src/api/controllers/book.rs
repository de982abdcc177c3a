//! The handlers for books. Each one asks the store and answers with the
//! response that its outcome calls for; the answer to each outcome is a
//! function of its own.

use vstd::prelude::*;
use crate::api::controllers::common::{
    answers_change,
    change_answer,
    change_reply,
    reject,
    rejection,
};
use crate::api::models::book::{
    book_document,
    book_from_payload,
    book_of_payload,
    book_queried,
    book_to_json,
    delete_book_by_id,
    delete_book_command,
    first_book_of,
    found_book_view,
    insert_book_command,
    lemma_book_document_has_no_decimal,
    lemma_book_needs_required_fields,
    query_book_by_id,
    update_book_command,
    update_book_in_db,
    write_book_to_db,
    Book,
    BookView,
};
use crate::db_storage::{executed_at, DbError, DbErrorView, Gateway};
use crate::http::{
    plain,
    Response,
    ResponseView,
    BAD_REQUEST,
    INTERNAL_SERVER_ERROR,
    NOT_FOUND,
    NO_CONTENT,
    OK,
};
use crate::json::{json_parse, json_text};

verus! {

/// The answer to a fetch by identifier: the book as JSON with status 200,
/// 404 where no book has the identifier, and 500 with the error in words for
/// any other failure, that of writing the JSON among them.
pub open spec fn book_by_id_answer(found: Result<BookView, DbErrorView>) -> ResponseView {
    match found {
        Ok(book) => match json_text(book_document(book)) {
            Ok(text) => plain(OK, text),
            Err(words) => plain(INTERNAL_SERVER_ERROR, words),
        },
        Err(DbErrorView::NotFound) => plain(NOT_FOUND, "No book was found with that id"@),
        Err(error) => plain(INTERNAL_SERVER_ERROR, error.message()),
    }
}

/// Whether `response` answers a fetch of the book `id` from the store at
/// `location`: the store was asked for that book, and `response` is the
/// answer to what was found. A book that was found has its identifier and
/// is answered with status 200.
pub open spec fn answers_book_by_id(
    location: Seq<char>,
    id: u32,
    response: ResponseView,
) -> bool {
    exists|found: Result<Book, DbError>|
        #[trigger] book_queried(location, id, found) && response == book_by_id_answer(
            found_book_view(found),
        ) && (found matches Ok(book) ==> book.id is Some && response.status == OK)
}

/// Whether `response` answers a payload to insert, at the store at
/// `location`: 400 for a payload that describes no book, and for any other
/// the answer to what the store gave for the insert of the book that it
/// describes.
pub open spec fn answers_create_book(
    location: Seq<char>,
    payload: Seq<char>,
    response: ResponseView,
) -> bool {
    match book_of_payload(payload) {
        Err(error) => response == rejection(error),
        Ok(book) => answers_change(
            location,
            insert_book_command(book),
            "RowsChanged"@,
            response,
        ),
    }
}

/// Whether `response` answers a payload to update, at the store at
/// `location`: 400 for a payload that describes no book, and for any other
/// the answer to what the store gave for the update of the book that it
/// describes.
pub open spec fn answers_update_book(
    location: Seq<char>,
    payload: Seq<char>,
    response: ResponseView,
) -> bool {
    match book_of_payload(payload) {
        Err(error) => response == rejection(error),
        Ok(book) => answers_change(
            location,
            update_book_command(book),
            "Rows-Changed"@,
            response,
        ),
    }
}

/// Answers a fetch by identifier. A book that was found is answered with
/// status 200 and the text of its document.
pub fn book_by_id_reply(found: Result<Book, DbError>) -> (response: Response)
    ensures
        response@ == book_by_id_answer(found_book_view(found)),
        found matches Ok(book) ==> response@.status == OK && json_text(
            book_document(book@),
        ) == Ok::<Seq<char>, Seq<char>>(response@.body),
{
    match found {
        Ok(book) => {
            proof {
                lemma_book_document_has_no_decimal(book@);
            }
            match book_to_json(&book).to_text() {
                Ok(text) => Response::with_body(OK, text),
                Err(words) => Response::with_body(INTERNAL_SERVER_ERROR, words),
            }
        },
        Err(DbError::NotFound) => Response::with_body(
            NOT_FOUND,
            String::from_str("No book was found with that id"),
        ),
        Err(error) => Response::with_body(INTERNAL_SERVER_ERROR, error.message()),
    }
}

/// Answers `GET /book/id/{id}`: whatever the store gives, the response is
/// the answer to it, and a book that is given back has its identifier.
pub fn book_by_id_handler(gateway: &Gateway, id: u32) -> (response: Response)
    ensures
        answers_book_by_id(gateway@, id, response@),
{
    let found = query_book_by_id(gateway, id);
    let ghost outcome = found;
    let response = book_by_id_reply(found);
    assert(book_queried(gateway@, id, outcome));
    response
}

/// Answers `DELETE /book/id/{id}`: 204 whether or not a row was removed, the
/// header `Rows-Changed` telling how many were; 500 where the store failed.
pub fn delete_book_handler(gateway: &Gateway, id: u32) -> (response: Response)
    ensures
        answers_change(gateway@, delete_book_command(id), "Rows-Changed"@, response@),
{
    let removed = delete_book_by_id(gateway, id);
    let ghost outcome = removed;
    let response = change_reply("Rows-Changed", removed);
    assert(executed_at(gateway@, delete_book_command(id), outcome));
    response
}

/// Answers `POST /create/book`. A payload that describes no book is turned
/// down with 400, and that answer depends on the payload alone. Any other
/// payload is inserted: 204 with the header `RowsChanged`, or 500 where the
/// store failed.
pub fn create_book_handler(gateway: &Gateway, payload: String) -> (response: Response)
    ensures
        answers_create_book(gateway@, payload@, response@),
{
    match book_from_payload(payload.as_str()) {
        Ok(book) => {
            let ghost described = book@;
            let written = write_book_to_db(gateway, book);
            let ghost outcome = written;
            let response = change_reply("RowsChanged", written);
            assert(executed_at(gateway@, insert_book_command(described), outcome));
            response
        },
        Err(error) => reject(&error),
    }
}

/// Answers `PUT /update/book`. A payload that describes no book is turned
/// down with 400, and that answer depends on the payload alone. Any other
/// payload overwrites the book of its identifier: 204 with the header
/// `Rows-Changed`, or 500 where the store failed.
pub fn update_book_handler(gateway: &Gateway, payload: String) -> (response: Response)
    ensures
        answers_update_book(gateway@, payload@, response@),
{
    match book_from_payload(payload.as_str()) {
        Ok(book) => {
            let ghost described = book@;
            let changed = update_book_in_db(gateway, book);
            let ghost outcome = changed;
            let response = change_reply("Rows-Changed", changed);
            assert(executed_at(gateway@, update_book_command(described), outcome));
            response
        },
        Err(error) => reject(&error),
    }
}

/// Where the store holds no book of an identifier, it answers a fetch
/// with no row and a deletion by removing none: the fetch is answered with
/// 404, the deletion with 204.
pub proof fn lemma_absent_book()
    ensures
        book_by_id_answer(first_book_of(Seq::empty())).status == NOT_FOUND,
        change_answer("Rows-Changed"@, Ok(0)).status == NO_CONTENT,
{
}

/// A deletion that the store carried out is answered with 204 and no body,
/// whatever the number of rows it removed. So a second deletion of the same
/// book, which finds nothing to remove, is answered as the first was.
pub proof fn lemma_delete_book_twice(first: usize, second: usize)
    ensures
        change_answer("Rows-Changed"@, Ok(first)).status == NO_CONTENT,
        change_answer("Rows-Changed"@, Ok(second)).status == NO_CONTENT,
        change_answer("Rows-Changed"@, Ok(first)).body == change_answer(
            "Rows-Changed"@,
            Ok(second),
        ).body,
        change_answer("Rows-Changed"@, Ok(first)).body.len() == 0,
{
}

/// A payload that lacks a required field, or that is no JSON, is answered
/// with 400 and the error in words, by `create_book_handler` and by
/// `update_book_handler`: the answer is settled before either turns to the
/// store.
pub proof fn lemma_incomplete_book_is_rejected(
    location: Seq<char>,
    payload: Seq<char>,
    name: Seq<char>,
    response: ResponseView,
)
    requires
        name == "title"@ || name == "author"@ || name == "medium"@,
    ensures
        (json_parse(payload) matches Ok(doc) ==> doc.member(name) is None) && (
        answers_create_book(location, payload, response) || answers_update_book(
            location,
            payload,
            response,
        ))
            ==> book_of_payload(payload) is Err && response == plain(
            BAD_REQUEST,
            book_of_payload(payload)->Err_0.message(),
        ),
{
    match json_parse(payload) {
        Ok(doc) => {
            if doc.member(name) is None {
                lemma_book_needs_required_fields(doc, name);
            }
        },
        Err(_) => {},
    }
}

} // verus!
