//! What the data access functions of both records share: the connection to
//! the service's store and the allow-list of filter columns.

use vstd::prelude::*;
use crate::db_storage::{opened_at, Gateway, FIXED_LOCATION};
use crate::text::same_text;

verus! {

/// Whether `name` is one of the columns that a filter may name.
pub open spec fn is_filter_column(name: Seq<char>) -> bool {
    ||| name == "title"@
    ||| name == "author"@
    ||| name == "pages"@
    ||| name == "genre"@
    ||| name == "medium"@
    ||| name == "rating"@
    ||| name == "book"@
    ||| name == "start_date"@
    ||| name == "end_date"@
}

/// Opens a connection to the service's store. Its location is fixed, and
/// relative to the directory that the service was started from: the outcome
/// is that of opening the store there.
pub fn get_database_connection() -> (opened: Result<rusqlite::Connection, rusqlite::Error>)
    ensures
        opened_at(FIXED_LOCATION@, opened),
{
    let gateway = Gateway::fixed();
    let opened = gateway.open();
    assert(call_ensures(Gateway::open, (&gateway,), opened));
    opened
}

/// Whether `col` is exactly one of the columns that a filter may name. A
/// column name is spliced into the text of a statement, so this is asked
/// before any such text is built.
pub fn column_name_is_valid(col: &str) -> (valid: bool)
    ensures
        valid == is_filter_column(col@),
{
    same_text(col, "title")
        || same_text(col, "author")
        || same_text(col, "pages")
        || same_text(col, "genre")
        || same_text(col, "medium")
        || same_text(col, "rating")
        || same_text(col, "book")
        || same_text(col, "start_date")
        || same_text(col, "end_date")
}

} // verus!
