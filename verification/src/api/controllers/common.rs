//! The answers that the handlers of both records share.

use vstd::prelude::*;
use crate::db_storage::{count_view, executed_at, Changed, DbError, SqlStatementView};
use crate::http::{
    bare,
    plain,
    Response,
    ResponseView,
    BAD_REQUEST,
    INTERNAL_SERVER_ERROR,
    NO_CONTENT,
};
use crate::payload::{PayloadError, PayloadErrorView};
use crate::text::{decimal, decimal_text};

verus! {

/// The answer to a change of rows: status 204 with no body and the number of
/// rows changed in the header `header`, or 500 with the error in words.
pub open spec fn change_answer(header: Seq<char>, changed: Changed) -> ResponseView {
    match changed {
        Ok(count) => bare(NO_CONTENT, header, decimal_text(count as nat)),
        Err(error) => plain(INTERNAL_SERVER_ERROR, error.message()),
    }
}

/// The answer to a payload that describes no record: status 400 with the
/// error in words.
pub open spec fn rejection(error: PayloadErrorView) -> ResponseView {
    plain(BAD_REQUEST, error.message())
}

/// Whether `response` answers a change of rows, asked of the store at
/// `location` with `statement`: the store was handed that statement, and
/// `response` is the answer to what it gave, the number of rows in the
/// header `header`.
pub open spec fn answers_change(
    location: Seq<char>,
    statement: SqlStatementView,
    header: Seq<char>,
    response: ResponseView,
) -> bool {
    exists|changed: Result<usize, DbError>|
        #[trigger] executed_at(location, statement, changed) && response == change_answer(
            header,
            count_view(changed),
        )
}

/// Answers a change of rows.
pub fn change_reply(header: &str, changed: Result<usize, DbError>) -> (response: Response)
    ensures
        response@ == change_answer(header@, count_view(changed)),
{
    match changed {
        Ok(count) => Response::with_header(NO_CONTENT, header, decimal(count as u64)),
        Err(error) => Response::with_body(INTERNAL_SERVER_ERROR, error.message()),
    }
}

/// Answers a payload that describes no record.
pub fn reject(error: &PayloadError) -> (response: Response)
    ensures
        response@ == rejection(error@),
{
    Response::with_body(BAD_REQUEST, error.message())
}

} // verus!
