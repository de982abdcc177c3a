//! Fetching and deleting a reading, the deletion reported in words.

use vstd::prelude::*;
use crate::api::controllers::reading::{answers_reading_by_id, reading_by_id_handler};
use crate::api::models::reading::{delete_reading_by_id, delete_reading_command};
use crate::db_storage::{count_view, executed_at, Changed, DbError, Gateway};
use crate::http::{bare, plain, Response, ResponseView, INTERNAL_SERVER_ERROR, NO_CONTENT};
use crate::text::{decimal, decimal_text};

verus! {

/// What a deletion of `count` readings did, in words. More than one row gone
/// means that the identifier was no key: the words warn of it.
pub open spec fn deleted_readings_note(count: usize) -> Seq<char> {
    if count == 0 {
        "No reading found with that id, no rows changed"@
    } else if count == 1 {
        "A single reading has been deleted"@
    } else {
        decimal_text(count as nat) + " rows were changed!! Something may have gone wrong!"@
    }
}

/// The answer to a deletion: status 204 with no body, what it did in the
/// header `RowsChanged`; 500 with the error in words where the store failed.
pub open spec fn delete_reading_answer(removed: Changed) -> ResponseView {
    match removed {
        Ok(count) => bare(NO_CONTENT, "RowsChanged"@, deleted_readings_note(count)),
        Err(error) => plain(INTERNAL_SERVER_ERROR, error.message()),
    }
}

/// Whether `response` answers a deletion of the reading `id`, at the store at
/// `location`: the store was handed the deletion by that identifier, and
/// `response` is the answer to what it gave.
pub open spec fn answers_delete_reading(
    location: Seq<char>,
    id: u32,
    response: ResponseView,
) -> bool {
    exists|removed: Result<usize, DbError>|
        #[trigger] executed_at(location, delete_reading_command(id), removed) && response
            == delete_reading_answer(count_view(removed))
}

/// Says in words what a deletion of `count` readings did.
pub fn deleted_readings_message(count: usize) -> (note: String)
    ensures
        note@ == deleted_readings_note(count),
{
    if count == 0 {
        String::from_str("No reading found with that id, no rows changed")
    } else if count == 1 {
        String::from_str("A single reading has been deleted")
    } else {
        let mut note = decimal(count as u64);
        note.append(" rows were changed!! Something may have gone wrong!");
        note
    }
}

/// Answers a deletion.
pub fn delete_reading_reply(removed: Result<usize, DbError>) -> (response: Response)
    ensures
        response@ == delete_reading_answer(count_view(removed)),
{
    match removed {
        Ok(count) => Response::with_header(
            NO_CONTENT,
            "RowsChanged",
            deleted_readings_message(count),
        ),
        Err(error) => Response::with_body(INTERNAL_SERVER_ERROR, error.message()),
    }
}

/// Answers a fetch of the reading `id`: whatever the store gives, the response
/// is the answer to it.
pub fn reading_by_id_response(gateway: &Gateway, id: u32) -> (response: Response)
    ensures
        answers_reading_by_id(gateway@, id, response@),
{
    reading_by_id_handler(gateway, id)
}

/// Answers a deletion of the reading `id`: 204 whether or not a row was
/// removed, with what was done in words; 500 where the store failed.
pub fn delete_reading_response(gateway: &Gateway, id: u32) -> (response: Response)
    ensures
        answers_delete_reading(gateway@, id, response@),
{
    let removed = delete_reading_by_id(gateway, id);
    let ghost outcome = removed;
    let response = delete_reading_reply(removed);
    assert(executed_at(gateway@, delete_reading_command(id), outcome));
    response
}

} // verus!
