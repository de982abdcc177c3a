//! Fetching and deleting a book, the deletion reported in words.

use vstd::prelude::*;
use crate::api::controllers::book::{answers_book_by_id, book_by_id_handler};
use crate::api::models::book::{delete_book_by_id, delete_book_command};
use crate::db_storage::{count_view, executed_at, Changed, DbError, Gateway};
use crate::http::{bare, plain, Response, ResponseView, INTERNAL_SERVER_ERROR, NO_CONTENT};
use crate::text::{decimal, decimal_text};

verus! {

/// What a deletion of `count` books did, in words. More than one row gone
/// means that the identifier was no key: the words warn of it.
pub open spec fn deleted_books_note(count: usize) -> Seq<char> {
    if count == 0 {
        "No book found with that id, no rows changed"@
    } else if count == 1 {
        "A single book has been deleted"@
    } else {
        decimal_text(count as nat) + " rows were changed!! Something may have gone wrong!"@
    }
}

/// The answer to a deletion: status 204 with no body, what it did in the
/// header `RowsChanged`; 500 with the error in words where the store failed.
pub open spec fn delete_book_answer(removed: Changed) -> ResponseView {
    match removed {
        Ok(count) => bare(NO_CONTENT, "RowsChanged"@, deleted_books_note(count)),
        Err(error) => plain(INTERNAL_SERVER_ERROR, error.message()),
    }
}

/// Whether `response` answers a deletion of the book `id`, at the store at
/// `location`: the store was handed the deletion by that identifier, and
/// `response` is the answer to what it gave.
pub open spec fn answers_delete_book(
    location: Seq<char>,
    id: u32,
    response: ResponseView,
) -> bool {
    exists|removed: Result<usize, DbError>|
        #[trigger] executed_at(location, delete_book_command(id), removed) && response
            == delete_book_answer(count_view(removed))
}

/// Says in words what a deletion of `count` books did.
pub fn deleted_books_message(count: usize) -> (note: String)
    ensures
        note@ == deleted_books_note(count),
{
    if count == 0 {
        String::from_str("No book found with that id, no rows changed")
    } else if count == 1 {
        String::from_str("A single book has been deleted")
    } else {
        let mut note = decimal(count as u64);
        note.append(" rows were changed!! Something may have gone wrong!");
        note
    }
}

/// Answers a deletion.
pub fn delete_book_reply(removed: Result<usize, DbError>) -> (response: Response)
    ensures
        response@ == delete_book_answer(count_view(removed)),
{
    match removed {
        Ok(count) => Response::with_header(NO_CONTENT, "RowsChanged", deleted_books_message(count)),
        Err(error) => Response::with_body(INTERNAL_SERVER_ERROR, error.message()),
    }
}

/// Answers a fetch of the book `id`: whatever the store gives, the response
/// is the answer to it.
pub fn book_by_id_response(gateway: &Gateway, id: u32) -> (response: Response)
    ensures
        answers_book_by_id(gateway@, id, response@),
{
    book_by_id_handler(gateway, id)
}

/// Answers a deletion of the book `id`: 204 whether or not a row was
/// removed, with what was done in words; 500 where the store failed.
pub fn delete_book_response(gateway: &Gateway, id: u32) -> (response: Response)
    ensures
        answers_delete_book(gateway@, id, response@),
{
    let removed = delete_book_by_id(gateway, id);
    let ghost outcome = removed;
    let response = delete_book_reply(removed);
    assert(executed_at(gateway@, delete_book_command(id), outcome));
    response
}

} // verus!
