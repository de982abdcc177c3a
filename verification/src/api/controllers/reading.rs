//! The handlers for readings. Each one asks the store and answers with the
//! response that its outcome calls for; the answer to each outcome is a
//! function of its own.

use vstd::prelude::*;
use crate::api::controllers::common::{
    answers_change,
    change_answer,
    change_reply,
    reject,
    rejection,
};
use crate::api::models::reading::{
    delete_reading_by_id,
    delete_reading_command,
    first_reading_of,
    found_reading_view,
    insert_reading_command,
    lemma_reading_document_has_no_decimal,
    lemma_reading_needs_required_fields,
    query_reading_by_id,
    reading_document,
    reading_from_payload,
    reading_of_payload,
    reading_queried,
    reading_to_json,
    update_reading_command,
    update_reading_in_db,
    write_reading_to_db,
    Reading,
    ReadingView,
};
use crate::db_storage::{executed_at, DbError, DbErrorView, Gateway};
use crate::http::{
    plain,
    Response,
    ResponseView,
    BAD_REQUEST,
    INTERNAL_SERVER_ERROR,
    NOT_FOUND,
    NO_CONTENT,
    OK,
};
use crate::json::{json_parse, json_text};

verus! {

/// The answer to a fetch by identifier: the reading as JSON with status 200,
/// 404 where no reading has the identifier, and 500 with the error in words for
/// any other failure, that of writing the JSON among them.
pub open spec fn reading_by_id_answer(found: Result<ReadingView, DbErrorView>) -> ResponseView {
    match found {
        Ok(reading) => match json_text(reading_document(reading)) {
            Ok(text) => plain(OK, text),
            Err(words) => plain(INTERNAL_SERVER_ERROR, words),
        },
        Err(DbErrorView::NotFound) => plain(NOT_FOUND, "No reading was found with that id"@),
        Err(error) => plain(INTERNAL_SERVER_ERROR, error.message()),
    }
}

/// Whether `response` answers a fetch of the reading `id` from the store at
/// `location`: the store was asked for that reading, and `response` is the
/// answer to what was found. A reading that was found has its identifier and
/// is answered with status 200.
pub open spec fn answers_reading_by_id(
    location: Seq<char>,
    id: u32,
    response: ResponseView,
) -> bool {
    exists|found: Result<Reading, DbError>|
        #[trigger] reading_queried(location, id, found) && response == reading_by_id_answer(
            found_reading_view(found),
        ) && (found matches Ok(reading) ==> reading.id is Some && response.status == OK)
}

/// Whether `response` answers a payload to insert, at the store at
/// `location`: 400 for a payload that describes no reading, and for any other
/// the answer to what the store gave for the insert of the reading that it
/// describes.
pub open spec fn answers_create_reading(
    location: Seq<char>,
    payload: Seq<char>,
    response: ResponseView,
) -> bool {
    match reading_of_payload(payload) {
        Err(error) => response == rejection(error),
        Ok(reading) => answers_change(
            location,
            insert_reading_command(reading),
            "RowsChanged"@,
            response,
        ),
    }
}

/// Whether `response` answers a payload to update, at the store at
/// `location`: 400 for a payload that describes no reading, and for any other
/// the answer to what the store gave for the update of the reading that it
/// describes.
pub open spec fn answers_update_reading(
    location: Seq<char>,
    payload: Seq<char>,
    response: ResponseView,
) -> bool {
    match reading_of_payload(payload) {
        Err(error) => response == rejection(error),
        Ok(reading) => answers_change(
            location,
            update_reading_command(reading),
            "Rows-Changed"@,
            response,
        ),
    }
}

/// Answers a fetch by identifier. A reading that was found is answered with
/// status 200 and the text of its document.
pub fn reading_by_id_reply(found: Result<Reading, DbError>) -> (response: Response)
    ensures
        response@ == reading_by_id_answer(found_reading_view(found)),
        found matches Ok(reading) ==> response@.status == OK && json_text(
            reading_document(reading@),
        ) == Ok::<Seq<char>, Seq<char>>(response@.body),
{
    match found {
        Ok(reading) => {
            proof {
                lemma_reading_document_has_no_decimal(reading@);
            }
            match reading_to_json(&reading).to_text() {
                Ok(text) => Response::with_body(OK, text),
                Err(words) => Response::with_body(INTERNAL_SERVER_ERROR, words),
            }
        },
        Err(DbError::NotFound) => Response::with_body(
            NOT_FOUND,
            String::from_str("No reading was found with that id"),
        ),
        Err(error) => Response::with_body(INTERNAL_SERVER_ERROR, error.message()),
    }
}

/// Answers `GET /reading/id/{id}`: whatever the store gives, the response is
/// the answer to it, and a reading that is given back has its identifier.
pub fn reading_by_id_handler(gateway: &Gateway, id: u32) -> (response: Response)
    ensures
        answers_reading_by_id(gateway@, id, response@),
{
    let found = query_reading_by_id(gateway, id);
    let ghost outcome = found;
    let response = reading_by_id_reply(found);
    assert(reading_queried(gateway@, id, outcome));
    response
}

/// Answers `DELETE /reading/id/{id}`: 204 whether or not a row was removed, the
/// header `Rows-Changed` telling how many were; 500 where the store failed.
pub fn delete_reading_handler(gateway: &Gateway, id: u32) -> (response: Response)
    ensures
        answers_change(gateway@, delete_reading_command(id), "Rows-Changed"@, response@),
{
    let removed = delete_reading_by_id(gateway, id);
    let ghost outcome = removed;
    let response = change_reply("Rows-Changed", removed);
    assert(executed_at(gateway@, delete_reading_command(id), outcome));
    response
}

/// Answers `POST /create/reading`. A payload that describes no reading is turned
/// down with 400, and that answer depends on the payload alone. Any other
/// payload is inserted: 204 with the header `RowsChanged`, or 500 where the
/// store failed.
pub fn create_reading_handler(gateway: &Gateway, payload: String) -> (response: Response)
    ensures
        answers_create_reading(gateway@, payload@, response@),
{
    match reading_from_payload(payload.as_str()) {
        Ok(reading) => {
            let ghost described = reading@;
            let written = write_reading_to_db(gateway, reading);
            let ghost outcome = written;
            let response = change_reply("RowsChanged", written);
            assert(executed_at(gateway@, insert_reading_command(described), outcome));
            response
        },
        Err(error) => reject(&error),
    }
}

/// Answers `PUT /update/reading`. A payload that describes no reading is turned
/// down with 400, and that answer depends on the payload alone. Any other
/// payload overwrites the reading of its identifier: 204 with the header
/// `Rows-Changed`, or 500 where the store failed.
pub fn update_reading_handler(gateway: &Gateway, payload: String) -> (response: Response)
    ensures
        answers_update_reading(gateway@, payload@, response@),
{
    match reading_from_payload(payload.as_str()) {
        Ok(reading) => {
            let ghost described = reading@;
            let changed = update_reading_in_db(gateway, reading);
            let ghost outcome = changed;
            let response = change_reply("Rows-Changed", changed);
            assert(executed_at(gateway@, update_reading_command(described), outcome));
            response
        },
        Err(error) => reject(&error),
    }
}

/// Where the store holds no reading of an identifier, it answers a fetch
/// with no row and a deletion by removing none: the fetch is answered with
/// 404, the deletion with 204.
pub proof fn lemma_absent_reading()
    ensures
        reading_by_id_answer(first_reading_of(Seq::empty())).status == NOT_FOUND,
        change_answer("Rows-Changed"@, Ok(0)).status == NO_CONTENT,
{
}

/// A deletion that the store carried out is answered with 204 and no body,
/// whatever the number of rows it removed. So a second deletion of the same
/// reading, which finds nothing to remove, is answered as the first was.
pub proof fn lemma_delete_reading_twice(first: usize, second: usize)
    ensures
        change_answer("Rows-Changed"@, Ok(first)).status == NO_CONTENT,
        change_answer("Rows-Changed"@, Ok(second)).status == NO_CONTENT,
        change_answer("Rows-Changed"@, Ok(first)).body == change_answer(
            "Rows-Changed"@,
            Ok(second),
        ).body,
        change_answer("Rows-Changed"@, Ok(first)).body.len() == 0,
{
}

/// A payload that lacks a required field, or that is no JSON, is answered
/// with 400 and the error in words, by `create_reading_handler` and by
/// `update_reading_handler`: the answer is settled before either turns to the
/// store.
pub proof fn lemma_incomplete_reading_is_rejected(
    location: Seq<char>,
    payload: Seq<char>,
    name: Seq<char>,
    response: ResponseView,
)
    requires
        name == "book"@ || name == "start_date"@,
    ensures
        (json_parse(payload) matches Ok(doc) ==> doc.member(name) is None) && (
        answers_create_reading(location, payload, response) || answers_update_reading(
            location,
            payload,
            response,
        ))
            ==> reading_of_payload(payload) is Err && response == plain(
            BAD_REQUEST,
            reading_of_payload(payload)->Err_0.message(),
        ),
{
    match json_parse(payload) {
        Ok(doc) => {
            if doc.member(name) is None {
                lemma_reading_needs_required_fields(doc, name);
            }
        },
        Err(_) => {},
    }
}

} // verus!
