//! Readings: the record, its form as a JSON document and as a row of the
//! store, the statements that read and write it, and its data access
//! functions. A reading names the book that was read by its identifier;
//! nothing asks that such a book be there.

use vstd::prelude::*;
use crate::api::models::common::{column_name_is_valid, is_filter_column};
use crate::db_storage::{
    count_view,
    executed_at,
    failure,
    fetched_at,
    fetched_view,
    first_fetched_at,
    may_change,
    number_or_null,
    of_store,
    row_view,
    rows_view,
    stored,
    stored_row,
    text_or_null,
    DbError,
    DbErrorView,
    Fetched,
    Gateway,
    SqlArgument,
    SqlArgumentView,
    SqlStatement,
    SqlStatementView,
    SqlValue,
    SqlValueView,
};
use crate::db_storage::row::{number_cell, optional_text_cell, text_cell};
use crate::json::{
    items_view,
    json_parse,
    lemma_array_view,
    lemma_object_view,
    members_view,
    no_decimal,
    JsonDoc,
    JsonValue,
};
use crate::pairs::{lemma_lookup_found, lemma_lookup_push};
use crate::payload::{
    optional_number,
    optional_text,
    read_optional_number,
    read_optional_text,
    read_required_number,
    read_required_text,
    required_number,
    required_text,
    PayloadError,
    PayloadErrorView,
};
use crate::text::{join, optional_text_view};

verus! {

/// A reading of a book. It has no identifier until the store assigns one on
/// insert.
#[derive(Debug, Clone, PartialEq, Eq)]
pub struct Reading {
    pub id: Option<u32>,
    pub book: u32,
    pub start_date: String,
    pub end_date: Option<String>,
    pub notes: Option<String>,
}

/// A `Reading` as a mathematical value.
pub struct ReadingView {
    pub id: Option<u32>,
    pub book: u32,
    pub start_date: Seq<char>,
    pub end_date: Option<Seq<char>>,
    pub notes: Option<Seq<char>>,
}

impl View for Reading {
    type V = ReadingView;

    open spec fn view(&self) -> ReadingView {
        ReadingView {
            id: self.id,
            book: self.book,
            start_date: self.start_date@,
            end_date: optional_text_view(self.end_date),
            notes: optional_text_view(self.notes),
        }
    }
}

/// Readings, each as a mathematical value.
pub open spec fn readings_view(readings: Seq<Reading>) -> Seq<ReadingView> {
    Seq::new(readings.len(), |i: int| readings[i]@)
}

/// The outcome of a fetch by identifier, as a mathematical value.
pub open spec fn found_reading_view(found: Result<Reading, DbError>) -> Result<
    ReadingView,
    DbErrorView,
> {
    match found {
        Ok(reading) => Ok(reading@),
        Err(error) => Err(error@),
    }
}

/// The outcome of a filter, as a mathematical value.
pub open spec fn found_readings_view(found: Result<Vec<Reading>, DbError>) -> Result<
    Seq<ReadingView>,
    DbErrorView,
> {
    match found {
        Ok(readings) => Ok(readings_view(readings@)),
        Err(error) => Err(error@),
    }
}

/// The outcome of reading a payload, as a mathematical value.
pub open spec fn read_reading_view(read: Result<Reading, PayloadError>) -> Result<
    ReadingView,
    PayloadErrorView,
> {
    match read {
        Ok(reading) => Ok(reading@),
        Err(error) => Err(error@),
    }
}

/// The reading that a JSON document describes. The document must be an
/// object; `book` is a required number, `start_date` a required text, whose
/// form is not looked at, `end_date` and `notes` are optional texts and `id`
/// an optional number. The first field at fault, in this order, decides the
/// error: `id`, `book`, `start_date`, `end_date`, `notes`.
pub open spec fn decode_reading(doc: JsonDoc) -> Result<ReadingView, PayloadErrorView> {
    let id = optional_number(doc, "id"@);
    let book = required_number(doc, "book"@);
    let start_date = required_text(doc, "start_date"@);
    let end_date = optional_text(doc, "end_date"@);
    let notes = optional_text(doc, "notes"@);
    if !(doc is Object) {
        Err(PayloadErrorView::NotAnObject)
    } else if id is Err {
        Err(id->Err_0)
    } else if book is Err {
        Err(book->Err_0)
    } else if start_date is Err {
        Err(start_date->Err_0)
    } else if end_date is Err {
        Err(end_date->Err_0)
    } else if notes is Err {
        Err(notes->Err_0)
    } else {
        Ok(
            ReadingView {
                id: id->Ok_0,
                book: book->Ok_0,
                start_date: start_date->Ok_0,
                end_date: end_date->Ok_0,
                notes: notes->Ok_0,
            },
        )
    }
}

/// The reading that the text of a payload describes: the text must be JSON,
/// and the document a reading.
pub open spec fn reading_of_payload(payload: Seq<char>) -> Result<ReadingView, PayloadErrorView> {
    match json_parse(payload) {
        Ok(doc) => decode_reading(doc),
        Err(words) => Err(PayloadErrorView::Malformed(words)),
    }
}

/// A document that lacks `book` or `start_date` describes no reading.
pub proof fn lemma_reading_needs_required_fields(doc: JsonDoc, name: Seq<char>)
    requires
        name == "book"@ || name == "start_date"@,
        doc.member(name) is None,
    ensures
        decode_reading(doc) is Err,
{
}

/// A member that no field names is passed over: a document describes the
/// same reading with such a member behind the others as without it.
pub proof fn lemma_reading_passes_over_other_members(
    members: Seq<(Seq<char>, JsonDoc)>,
    name: Seq<char>,
    value: JsonDoc,
)
    requires
        name != "id"@,
        name != "book"@,
        name != "start_date"@,
        name != "end_date"@,
        name != "notes"@,
    ensures
        decode_reading(JsonDoc::Object(members.push((name, value)))) == decode_reading(
            JsonDoc::Object(members),
        ),
{
    lemma_lookup_push(members, (name, value), "id"@);
    lemma_lookup_push(members, (name, value), "book"@);
    lemma_lookup_push(members, (name, value), "start_date"@);
    lemma_lookup_push(members, (name, value), "end_date"@);
    lemma_lookup_push(members, (name, value), "notes"@);
}

/// The JSON document of a reading: an object with every field, in the order
/// of the record, `null` standing for a field that is not there.
pub open spec fn reading_document(reading: ReadingView) -> JsonDoc {
    JsonDoc::Object(
        seq![
            ("id"@, crate::json::number_or_null(reading.id)),
            ("book"@, JsonDoc::Unsigned(reading.book as u64)),
            ("start_date"@, JsonDoc::Text(reading.start_date)),
            ("end_date"@, crate::json::text_or_null(reading.end_date)),
            ("notes"@, crate::json::text_or_null(reading.notes)),
        ],
    )
}

/// The JSON document of a reading holds no `Decimal`: it is always written.
pub proof fn lemma_reading_document_has_no_decimal(reading: ReadingView)
    ensures
        no_decimal(reading_document(reading)),
{
    let members = reading_document(reading)->Object_0;
    assert forall|i: int| 0 <= i < members.len() implies no_decimal((#[trigger] members[i]).1) by {}
}

/// The JSON document of a list of readings holds no `Decimal`: it is always
/// written.
pub proof fn lemma_readings_document_has_no_decimal(readings: Seq<ReadingView>)
    ensures
        no_decimal(readings_document(readings)),
{
    let items = readings_document(readings)->Array_0;
    assert forall|i: int| 0 <= i < items.len() implies no_decimal(#[trigger] items[i]) by {
        lemma_reading_document_has_no_decimal(readings[i]);
    }
}

/// Reads a reading out of a JSON document.
pub fn reading_from_json(doc: &JsonValue) -> (decoded: Result<Reading, PayloadError>)
    ensures
        read_reading_view(decoded) == decode_reading(doc@),
{
    match doc {
        JsonValue::Object(_) => {},
        _ => {
            return Err(PayloadError::NotAnObject);
        },
    }
    let id = match read_optional_number(doc, "id") {
        Ok(id) => id,
        Err(error) => {
            return Err(error);
        },
    };
    let book = match read_required_number(doc, "book") {
        Ok(book) => book,
        Err(error) => {
            return Err(error);
        },
    };
    let start_date = match read_required_text(doc, "start_date") {
        Ok(start_date) => start_date,
        Err(error) => {
            return Err(error);
        },
    };
    let end_date = match read_optional_text(doc, "end_date") {
        Ok(end_date) => end_date,
        Err(error) => {
            return Err(error);
        },
    };
    let notes = match read_optional_text(doc, "notes") {
        Ok(notes) => notes,
        Err(error) => {
            return Err(error);
        },
    };
    Ok(Reading { id, book, start_date, end_date, notes })
}

/// Reads a reading out of the text of a payload.
pub fn reading_from_payload(payload: &str) -> (read: Result<Reading, PayloadError>)
    ensures
        read_reading_view(read) == reading_of_payload(payload@),
{
    match JsonValue::parse(payload) {
        Ok(doc) => reading_from_json(&doc),
        Err(words) => Err(PayloadError::Malformed(words)),
    }
}

/// Writes a reading as a JSON document.
pub fn reading_to_json(reading: &Reading) -> (doc: JsonValue)
    ensures
        doc@ == reading_document(reading@),
{
    let mut members: Vec<(String, JsonValue)> = Vec::new();
    members.push((String::from_str("id"), JsonValue::from_number(reading.id)));
    members.push((String::from_str("book"), JsonValue::Unsigned(reading.book as u64)));
    members.push((String::from_str("start_date"), JsonValue::Text(reading.start_date.clone())));
    members.push((String::from_str("end_date"), JsonValue::from_text(&reading.end_date)));
    members.push((String::from_str("notes"), JsonValue::from_text(&reading.notes)));
    proof {
        lemma_object_view(members);
        assert(members_view(members@) =~= reading_document(reading@)->Object_0);
    }
    JsonValue::Object(members)
}

/// The JSON document of a list of readings: the array of their documents.
pub open spec fn readings_document(readings: Seq<ReadingView>) -> JsonDoc {
    JsonDoc::Array(Seq::new(readings.len(), |i: int| reading_document(readings[i])))
}

/// Writes a list of readings as a JSON document.
pub fn readings_to_json(readings: &Vec<Reading>) -> (doc: JsonValue)
    ensures
        doc@ == readings_document(readings_view(readings@)),
{
    let mut items: Vec<JsonValue> = Vec::new();
    let mut i: usize = 0;
    while i < readings.len()
        invariant
            i <= readings.len(),
            items.len() == i,
            forall|k: int| 0 <= k < i ==> items[k]@ == reading_document(readings[k]@),
        decreases readings.len() - i,
    {
        items.push(reading_to_json(&readings[i]));
        i += 1;
    }
    proof {
        lemma_array_view(items);
        assert(items_view(items@) =~= readings_document(readings_view(readings@))->Array_0);
    }
    JsonValue::Array(items)
}

/// The reading that a row of the table `reading` holds: the columns are
/// `id`, `book`, `start_date`, `end_date` and `notes`, in this order. A
/// record read back always has its identifier. The first column at fault
/// decides the error.
pub open spec fn reading_of_row(row: Seq<SqlValueView>) -> Result<ReadingView, DbErrorView> {
    let id = number_cell(row, 0);
    let book = number_cell(row, 1);
    let start_date = text_cell(row, 2);
    let end_date = optional_text_cell(row, 3);
    let notes = optional_text_cell(row, 4);
    if id is Err {
        Err(id->Err_0)
    } else if book is Err {
        Err(book->Err_0)
    } else if start_date is Err {
        Err(start_date->Err_0)
    } else if end_date is Err {
        Err(end_date->Err_0)
    } else if notes is Err {
        Err(notes->Err_0)
    } else {
        Ok(
            ReadingView {
                id: Some(id->Ok_0),
                book: book->Ok_0,
                start_date: start_date->Ok_0,
                end_date: end_date->Ok_0,
                notes: notes->Ok_0,
            },
        )
    }
}

/// The answer to a fetch by identifier: the reading of the first row, and
/// `NotFound` where there is no row.
pub open spec fn first_reading_of(rows: Seq<Seq<SqlValueView>>) -> Result<
    ReadingView,
    DbErrorView,
> {
    if rows.len() == 0 {
        Err(DbErrorView::NotFound)
    } else {
        reading_of_row(rows[0])
    }
}

/// The answer to a filter: the reading of each row, in order, or the error
/// of the first row that holds none.
pub open spec fn readings_of_rows(rows: Seq<Seq<SqlValueView>>) -> Result<
    Seq<ReadingView>,
    DbErrorView,
>
    decreases rows.len(),
{
    if rows.len() == 0 {
        Ok(Seq::empty())
    } else {
        match readings_of_rows(rows.drop_last()) {
            Err(error) => Err(error),
            Ok(readings) => match reading_of_row(rows.last()) {
                Err(error) => Err(error),
                Ok(reading) => Ok(readings.push(reading)),
            },
        }
    }
}

/// What a filter answers: one reading for each row, each with its
/// identifier, and never `NotFound` or `InvalidColumn`.
pub proof fn lemma_readings_of_rows(rows: Seq<Seq<SqlValueView>>)
    ensures
        match readings_of_rows(rows) {
            Ok(readings) => readings.len() == rows.len() && forall|i: int|
                0 <= i < readings.len() ==> reading_of_row(rows[i]) == Ok::<
                    ReadingView,
                    DbErrorView,
                >(#[trigger] readings[i]) && readings[i].id is Some,
            Err(error) => error is InvalidCell,
        },
    decreases rows.len(),
{
    if rows.len() > 0 {
        lemma_readings_of_rows(rows.drop_last());
    }
}

/// Once some rows fail, so do these rows with others behind them, and with
/// the same error.
pub proof fn lemma_readings_of_rows_fails_on(rows: Seq<Seq<SqlValueView>>, n: int)
    requires
        0 <= n <= rows.len(),
        readings_of_rows(rows.take(n)) is Err,
    ensures
        readings_of_rows(rows) == readings_of_rows(rows.take(n)),
    decreases rows.len(),
{
    if n < rows.len() {
        assert(rows.drop_last().take(n) =~= rows.take(n));
        lemma_readings_of_rows_fails_on(rows.drop_last(), n);
    } else {
        assert(rows.take(n) =~= rows);
    }
}

/// The answer to a fetch by identifier, from what the store gave: its rows
/// or its failure.
pub open spec fn reading_fetched(fetched: Fetched) -> Result<ReadingView, DbErrorView> {
    match fetched {
        Ok(rows) => first_reading_of(rows),
        Err(error) => Err(error),
    }
}

/// The answer to a filter, from what the store gave: its rows or its
/// failure.
pub open spec fn readings_fetched(fetched: Fetched) -> Result<Seq<ReadingView>, DbErrorView> {
    match fetched {
        Ok(rows) => readings_of_rows(rows),
        Err(error) => Err(error),
    }
}

/// Reads a reading out of a row.
pub fn reading_from_row(row: &Vec<SqlValue>) -> (read: Result<Reading, DbError>)
    ensures
        found_reading_view(read) == reading_of_row(row_view(row@)),
{
    let id = match crate::db_storage::row::read_number(row, 0) {
        Ok(id) => id,
        Err(error) => {
            return Err(error);
        },
    };
    let book = match crate::db_storage::row::read_number(row, 1) {
        Ok(book) => book,
        Err(error) => {
            return Err(error);
        },
    };
    let start_date = match crate::db_storage::row::read_text(row, 2) {
        Ok(start_date) => start_date,
        Err(error) => {
            return Err(error);
        },
    };
    let end_date = match crate::db_storage::row::read_optional_text(row, 3) {
        Ok(end_date) => end_date,
        Err(error) => {
            return Err(error);
        },
    };
    let notes = match crate::db_storage::row::read_optional_text(row, 4) {
        Ok(notes) => notes,
        Err(error) => {
            return Err(error);
        },
    };
    Ok(Reading { id: Some(id), book, start_date, end_date, notes })
}

/// The answer to a fetch by identifier, from the rows that the store gave.
pub fn first_reading(rows: &Vec<Vec<SqlValue>>) -> (found: Result<Reading, DbError>)
    ensures
        found_reading_view(found) == first_reading_of(rows_view(rows@)),
{
    if rows.len() == 0 {
        Err(DbError::NotFound)
    } else {
        reading_from_row(&rows[0])
    }
}

/// The answer to a filter, from the rows that the store gave.
pub fn readings_from_rows(rows: &Vec<Vec<SqlValue>>) -> (found: Result<Vec<Reading>, DbError>)
    ensures
        found_readings_view(found) == readings_of_rows(rows_view(rows@)),
{
    let mut readings: Vec<Reading> = Vec::new();
    let mut i: usize = 0;
    assert(rows_view(rows@).take(0) =~= Seq::empty());
    assert(readings_view(readings@) =~= Seq::empty());
    while i < rows.len()
        invariant
            i <= rows.len(),
            readings_of_rows(rows_view(rows@).take(i as int)) == Ok::<
                Seq<ReadingView>,
                DbErrorView,
            >(readings_view(readings@)),
        decreases rows.len() - i,
    {
        let ghost before = readings_view(readings@);
        proof {
            assert(rows_view(rows@).take(i + 1).drop_last() =~= rows_view(rows@).take(i as int));
            assert(rows_view(rows@).take(i + 1).last() == row_view(rows@[i as int]@));
        }
        match reading_from_row(&rows[i]) {
            Ok(reading) => {
                readings.push(reading);
                assert(readings_view(readings@) =~= before.push(reading@));
            },
            Err(error) => {
                proof {
                    lemma_readings_of_rows_fails_on(rows_view(rows@), i + 1);
                }
                return Err(error);
            },
        }
        i += 1;
    }
    assert(rows_view(rows@).take(i as int) =~= rows_view(rows@));
    Ok(readings)
}

/// The statement that selects the reading with an identifier.
pub const SELECT_READING: &'static str = "SELECT * FROM reading WHERE id = :id;";

/// The statement that deletes the reading with an identifier.
pub const DELETE_READING: &'static str = "DELETE FROM reading WHERE id = :id;";

/// The statement that inserts a reading. The store assigns the identifier.
pub const INSERT_READING: &'static str =
    "INSERT INTO reading (book, start_date, end_date, notes) \
     VALUES (:book, :start_date, :end_date, :notes);";

/// The statement that overwrites every field of the reading with an
/// identifier.
pub const UPDATE_READING: &'static str =
    "UPDATE reading SET book = :book, start_date = :start_date, end_date = :end_date, \
     notes = :notes WHERE id = :id;";

/// What is handed to the store to fetch the reading `id`.
pub open spec fn reading_by_id_query(id: u32) -> SqlStatementView {
    SqlStatementView {
        text: SELECT_READING@,
        arguments: seq![(":id"@, SqlArgumentView::Integer(id as i64))],
    }
}

/// What is handed to the store to fetch the readings whose `column` equals
/// `value`. The column stands in the text, the value is bound.
pub open spec fn readings_by_filter_query(column: Seq<char>, value: Seq<char>)
    -> SqlStatementView {
    SqlStatementView {
        text: "SELECT * FROM reading where "@ + column + " = :filter_query;"@,
        arguments: seq![(":filter_query"@, SqlArgumentView::Text(value))],
    }
}

/// The value that a filter looks for is bound, never spliced: the text of
/// the statement is the same whatever the value, and the value is the one
/// argument.
pub proof fn lemma_readings_filter_binds_its_value(
    column: Seq<char>,
    one: Seq<char>,
    other: Seq<char>,
)
    ensures
        readings_by_filter_query(column, one).text == readings_by_filter_query(column, other).text,
        readings_by_filter_query(column, one).arguments == seq![
            (":filter_query"@, SqlArgumentView::Text(one)),
        ],
{
}

/// What is handed to the store to delete the reading `id`.
pub open spec fn delete_reading_command(id: u32) -> SqlStatementView {
    SqlStatementView {
        text: DELETE_READING@,
        arguments: seq![(":id"@, SqlArgumentView::Integer(id as i64))],
    }
}

/// The values that an insert binds, in the order of the table's columns
/// behind `id`. The identifier of the reading is not among them.
pub open spec fn reading_values(reading: ReadingView) -> Seq<(Seq<char>, SqlArgumentView)> {
    seq![
        (":book"@, SqlArgumentView::Integer(reading.book as i64)),
        (":start_date"@, SqlArgumentView::Text(reading.start_date)),
        (":end_date"@, text_or_null(reading.end_date)),
        (":notes"@, text_or_null(reading.notes)),
    ]
}

/// What is handed to the store to insert `reading`.
pub open spec fn insert_reading_command(reading: ReadingView) -> SqlStatementView {
    SqlStatementView { text: INSERT_READING@, arguments: reading_values(reading) }
}

/// What is handed to the store to update `reading`: its identifier, null
/// where it has none, and every other field.
pub open spec fn update_reading_command(reading: ReadingView) -> SqlStatementView {
    SqlStatementView {
        text: UPDATE_READING@,
        arguments: seq![(":id"@, number_or_null(reading.id))] + reading_values(reading),
    }
}

/// Builds the statement that fetches the reading `id`.
pub fn reading_by_id_statement(id: u32) -> (statement: SqlStatement)
    ensures
        statement@ == reading_by_id_query(id),
{
    let mut statement = SqlStatement::new(String::from_str(SELECT_READING));
    statement.bind(":id", SqlArgument::Integer(id as i64));
    assert(statement@.arguments =~= reading_by_id_query(id).arguments);
    statement
}

/// Builds the statement that fetches the readings whose `column` equals
/// `value`. Only a column of the allow-list may be spliced into the text.
pub fn readings_by_filter_statement(column: &str, value: String) -> (statement: SqlStatement)
    requires
        is_filter_column(column@),
    ensures
        statement@ == readings_by_filter_query(column@, value@),
{
    let mut text = join("SELECT * FROM reading where ", column);
    text.append(" = :filter_query;");
    let mut statement = SqlStatement::new(text);
    statement.bind(":filter_query", SqlArgument::Text(value));
    assert(statement@.arguments =~= readings_by_filter_query(column@, value@).arguments);
    statement
}

/// Builds the statement that deletes the reading `id`.
pub fn delete_reading_statement(id: u32) -> (statement: SqlStatement)
    ensures
        statement@ == delete_reading_command(id),
{
    let mut statement = SqlStatement::new(String::from_str(DELETE_READING));
    statement.bind(":id", SqlArgument::Integer(id as i64));
    assert(statement@.arguments =~= delete_reading_command(id).arguments);
    statement
}

/// Binds every field of `reading` but its identifier.
fn bind_reading_values(statement: &mut SqlStatement, reading: &Reading)
    ensures
        final(statement)@ == (SqlStatementView {
            text: old(statement)@.text,
            arguments: old(statement)@.arguments + reading_values(reading@),
        }),
{
    statement.bind(":book", SqlArgument::Integer(reading.book as i64));
    statement.bind(":start_date", SqlArgument::Text(reading.start_date.clone()));
    statement.bind(":end_date", SqlArgument::from_text(&reading.end_date));
    statement.bind(":notes", SqlArgument::from_text(&reading.notes));
    assert(statement@.arguments =~= old(statement)@.arguments + reading_values(reading@));
}

/// Builds the statement that inserts `reading`.
pub fn insert_reading_statement(reading: &Reading) -> (statement: SqlStatement)
    ensures
        statement@ == insert_reading_command(reading@),
{
    let mut statement = SqlStatement::new(String::from_str(INSERT_READING));
    bind_reading_values(&mut statement, reading);
    assert(statement@.arguments =~= reading_values(reading@));
    statement
}

/// Builds the statement that updates `reading`.
pub fn update_reading_statement(reading: &Reading) -> (statement: SqlStatement)
    ensures
        statement@ == update_reading_command(reading@),
{
    let mut statement = SqlStatement::new(String::from_str(UPDATE_READING));
    statement.bind(":id", SqlArgument::from_number(reading.id));
    bind_reading_values(&mut statement, reading);
    assert(statement@.arguments =~= update_reading_command(reading@).arguments);
    statement
}

/// Deletes the reading with the identifier `id`: hands the store the
/// deletion by that identifier, and gives what the store gave for it, the
/// number of rows removed. That the store holds no such reading is no error:
/// the number is 0.
pub fn delete_reading_by_id(gateway: &Gateway, id: u32) -> (removed: Result<usize, DbError>)
    ensures
        executed_at(gateway@, delete_reading_command(id), removed),
        may_change(count_view(removed)),
{
    let statement = delete_reading_statement(id);
    gateway.execute(&statement)
}

/// Whether `found` answers a fetch of the reading `id` from the store at
/// `location`: the store was handed the fetch by that identifier and asked
/// for its first row alone, and `found` is the answer read from what it
/// gave.
pub open spec fn reading_queried(
    location: Seq<char>,
    id: u32,
    found: Result<Reading, DbError>,
) -> bool {
    exists|fetched: Result<Vec<Vec<SqlValue>>, DbError>|
        #[trigger] first_fetched_at(location, reading_by_id_query(id), fetched)
            && found_reading_view(found) == reading_fetched(fetched_view(fetched))
}

/// Whether `found` answers a filter of the readings whose `column` equals
/// `value`, at the store at `location`. For a column that a filter may name,
/// the store was handed the filter with the column in its text and the
/// value bound, and `found` is the answer read from what it gave. For any
/// other column `found` is `InvalidColumn` with that column, and the store
/// was not asked.
pub open spec fn readings_filtered(
    location: Seq<char>,
    column: Seq<char>,
    value: Seq<char>,
    found: Result<Vec<Reading>, DbError>,
) -> bool {
    if is_filter_column(column) {
        exists|fetched: Result<Vec<Vec<SqlValue>>, DbError>|
            #[trigger] fetched_at(location, readings_by_filter_query(column, value), fetched)
                && found_readings_view(found) == readings_fetched(fetched_view(fetched))
    } else {
        found_readings_view(found) == Err::<Seq<ReadingView>, DbErrorView>(
            DbErrorView::InvalidColumn(column),
        )
    }
}

/// Fetches the reading with the identifier `id`: hands the store the fetch by
/// that identifier and reads its first row alone. Where several rows match,
/// the first one is the answer, and no other is read; where none does, the
/// answer is `NotFound`.
pub fn query_reading_by_id(gateway: &Gateway, id: u32) -> (found: Result<Reading, DbError>)
    ensures
        reading_queried(gateway@, id, found),
        found matches Ok(reading) ==> reading.id is Some,
        failure(found) matches Some(error) ==> error is NotFound || error is InvalidCell
            || of_store(error),
{
    let statement = reading_by_id_statement(id);
    let fetched = gateway.fetch_first(&statement);
    let ghost outcome = fetched;
    match fetched {
        Ok(rows) => {
            let found = first_reading(&rows);
            assert(found_reading_view(found) == reading_fetched(fetched_view(outcome)));
            found
        },
        Err(error) => Err(error),
    }
}

/// Fetches the readings whose column `filter_col` equals `filter_query`:
/// hands the store the filter with the column in its text and the value
/// bound, and reads every row. A column outside the allow-list is turned
/// down before the store is asked.
pub fn query_readings_by_filter(
    gateway: &Gateway,
    filter_col: String,
    filter_query: String,
) -> (found: Result<Vec<Reading>, DbError>)
    ensures
        readings_filtered(gateway@, filter_col@, filter_query@, found),
        !is_filter_column(filter_col@) ==> failure(found) == Some(
            DbErrorView::InvalidColumn(filter_col@),
        ),
        is_filter_column(filter_col@) ==> (failure(found) matches Some(error)
            ==> error is InvalidCell || of_store(error)),
        found matches Ok(readings) ==> forall|i: int|
            0 <= i < readings.len() ==> readings[i].id is Some,
{
    if !column_name_is_valid(filter_col.as_str()) {
        return Err(DbError::InvalidColumn(filter_col));
    }
    let statement = readings_by_filter_statement(filter_col.as_str(), filter_query);
    let fetched = gateway.fetch(&statement);
    let ghost outcome = fetched;
    match fetched {
        Ok(rows) => {
            let found = readings_from_rows(&rows);
            assert(found_readings_view(found) == readings_fetched(fetched_view(outcome)));
            proof {
                lemma_readings_of_rows(rows_view(rows@));
                if found is Ok {
                    let readings = found->Ok_0;
                    assert forall|i: int| 0 <= i < readings.len() implies readings[i].id
                        is Some by {
                        assert(readings_view(readings@)[i] == readings[i]@);
                    }
                }
            }
            found
        },
        Err(error) => Err(error),
    }
}

/// Inserts `reading`, whose identifier is passed over, for the store assigns
/// one: hands the store the insert of every other field, and gives what the
/// store gave for it, the number of rows written.
pub fn write_reading_to_db(gateway: &Gateway, reading: Reading) -> (written: Result<usize, DbError>)
    ensures
        executed_at(gateway@, insert_reading_command(reading@), written),
        may_change(count_view(written)),
{
    let statement = insert_reading_statement(&reading);
    gateway.execute(&statement)
}

/// Overwrites the reading that has the identifier of `reading` with every
/// field of `reading`: hands the store the update of `reading`, and gives
/// what the store gave for it, the number of rows changed. That is none
/// where the store holds no such reading, or where `reading` has no
/// identifier.
pub fn update_reading_in_db(gateway: &Gateway, reading: Reading) -> (changed: Result<
    usize,
    DbError,
>)
    ensures
        executed_at(gateway@, update_reading_command(reading@), changed),
        may_change(count_view(changed)),
{
    let statement = update_reading_statement(&reading);
    gateway.execute(&statement)
}

/// What an insert binds for a reading reads back, as a row behind the
/// identifier that the store assigned, as the reading with that identifier
/// and every other field as it was.
pub proof fn lemma_stored_reading_reads_back(reading: ReadingView, id: u32)
    ensures
        reading_of_row(stored_row(id, reading_values(reading))) == Ok::<ReadingView, DbErrorView>(
            ReadingView { id: Some(id), ..reading },
        ),
{
    let row = stored_row(id, reading_values(reading));
    assert(row.len() == 5);
    assert(row[0] == SqlValueView::Integer(id as i64));
    assert(row[1] == stored(reading_values(reading)[0].1));
    assert(row[2] == stored(reading_values(reading)[1].1));
    assert(row[3] == stored(reading_values(reading)[2].1));
    assert(row[4] == stored(reading_values(reading)[3].1));
}

/// Where the store gives back, for an identifier, the row that it stored
/// for a reading, the fetch finds the reading with that identifier and every
/// other field as it was.
pub proof fn lemma_inserted_reading_is_fetched(reading: ReadingView, id: u32)
    ensures
        reading_fetched(Ok(seq![stored_row(id, reading_values(reading))])) == Ok::<
            ReadingView,
            DbErrorView,
        >(ReadingView { id: Some(id), ..reading }),
{
    lemma_stored_reading_reads_back(reading, id);
}

/// The JSON document of a reading describes that very reading.
pub proof fn lemma_reading_document_reads_back(reading: ReadingView)
    ensures
        decode_reading(reading_document(reading)) == Ok::<ReadingView, PayloadErrorView>(reading),
{
    reveal_strlit("id");
    reveal_strlit("book");
    reveal_strlit("start_date");
    reveal_strlit("end_date");
    reveal_strlit("notes");
    assert("id"@.len() == 2);
    assert("book"@.len() == 4);
    assert("start_date"@.len() == 10);
    assert("end_date"@.len() == 8);
    assert("notes"@.len() == 5);
    let doc = reading_document(reading);
    let members = doc->Object_0;
    assert(members.len() == 5);
    lemma_lookup_found(members, "id"@, 0);
    lemma_lookup_found(members, "book"@, 1);
    lemma_lookup_found(members, "start_date"@, 2);
    lemma_lookup_found(members, "end_date"@, 3);
    lemma_lookup_found(members, "notes"@, 4);
}

} // verus!
