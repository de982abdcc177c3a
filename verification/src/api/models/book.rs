//! Books: the record, its form as a JSON document and as a row of the store,
//! the statements that read and write it, and its data access functions.

use vstd::prelude::*;
use crate::api::models::common::{column_name_is_valid, is_filter_column};
use crate::db_storage::{
    count_view,
    executed_at,
    failure,
    fetched_at,
    fetched_view,
    first_fetched_at,
    may_change,
    number_or_null,
    of_store,
    row_view,
    rows_view,
    stored,
    stored_row,
    text_or_null,
    DbError,
    DbErrorView,
    Fetched,
    Gateway,
    SqlArgument,
    SqlArgumentView,
    SqlStatement,
    SqlStatementView,
    SqlValue,
    SqlValueView,
};
use crate::db_storage::row::{number_cell, optional_number_cell, optional_text_cell, text_cell};
use crate::json::{
    items_view,
    json_parse,
    lemma_array_view,
    lemma_object_view,
    members_view,
    no_decimal,
    JsonDoc,
    JsonValue,
};
use crate::pairs::{lemma_lookup_found, lemma_lookup_push};
use crate::payload::{
    optional_number,
    optional_text,
    read_optional_number,
    read_optional_text,
    read_required_text,
    required_text,
    PayloadError,
    PayloadErrorView,
};
use crate::text::{join, optional_text_view};

verus! {

/// A book. It has no identifier until the store assigns one on insert.
#[derive(Debug, Clone, PartialEq, Eq)]
pub struct Book {
    pub id: Option<u32>,
    pub title: String,
    pub author: String,
    pub pages: Option<u32>,
    pub genre: Option<String>,
    pub medium: String,
    pub rating: Option<u32>,
    pub notes: Option<String>,
}

/// A `Book` as a mathematical value.
pub struct BookView {
    pub id: Option<u32>,
    pub title: Seq<char>,
    pub author: Seq<char>,
    pub pages: Option<u32>,
    pub genre: Option<Seq<char>>,
    pub medium: Seq<char>,
    pub rating: Option<u32>,
    pub notes: Option<Seq<char>>,
}

impl View for Book {
    type V = BookView;

    open spec fn view(&self) -> BookView {
        BookView {
            id: self.id,
            title: self.title@,
            author: self.author@,
            pages: self.pages,
            genre: optional_text_view(self.genre),
            medium: self.medium@,
            rating: self.rating,
            notes: optional_text_view(self.notes),
        }
    }
}

/// Books, each as a mathematical value.
pub open spec fn books_view(books: Seq<Book>) -> Seq<BookView> {
    Seq::new(books.len(), |i: int| books[i]@)
}

/// The outcome of a fetch by identifier, as a mathematical value.
pub open spec fn found_book_view(found: Result<Book, DbError>) -> Result<BookView, DbErrorView> {
    match found {
        Ok(book) => Ok(book@),
        Err(error) => Err(error@),
    }
}

/// The outcome of a filter, as a mathematical value.
pub open spec fn found_books_view(found: Result<Vec<Book>, DbError>) -> Result<
    Seq<BookView>,
    DbErrorView,
> {
    match found {
        Ok(books) => Ok(books_view(books@)),
        Err(error) => Err(error@),
    }
}

/// The outcome of reading a payload, as a mathematical value.
pub open spec fn read_book_view(read: Result<Book, PayloadError>) -> Result<
    BookView,
    PayloadErrorView,
> {
    match read {
        Ok(book) => Ok(book@),
        Err(error) => Err(error@),
    }
}

/// The book that a JSON document describes. The document must be an object;
/// `title`, `author` and `medium` are required texts, `genre` and `notes`
/// optional texts, `id`, `pages` and `rating` optional numbers. The first
/// field at fault, in this order, decides the error: `id`, `title`,
/// `author`, `pages`, `genre`, `medium`, `rating`, `notes`.
pub open spec fn decode_book(doc: JsonDoc) -> Result<BookView, PayloadErrorView> {
    let id = optional_number(doc, "id"@);
    let title = required_text(doc, "title"@);
    let author = required_text(doc, "author"@);
    let pages = optional_number(doc, "pages"@);
    let genre = optional_text(doc, "genre"@);
    let medium = required_text(doc, "medium"@);
    let rating = optional_number(doc, "rating"@);
    let notes = optional_text(doc, "notes"@);
    if !(doc is Object) {
        Err(PayloadErrorView::NotAnObject)
    } else if id is Err {
        Err(id->Err_0)
    } else if title is Err {
        Err(title->Err_0)
    } else if author is Err {
        Err(author->Err_0)
    } else if pages is Err {
        Err(pages->Err_0)
    } else if genre is Err {
        Err(genre->Err_0)
    } else if medium is Err {
        Err(medium->Err_0)
    } else if rating is Err {
        Err(rating->Err_0)
    } else if notes is Err {
        Err(notes->Err_0)
    } else {
        Ok(
            BookView {
                id: id->Ok_0,
                title: title->Ok_0,
                author: author->Ok_0,
                pages: pages->Ok_0,
                genre: genre->Ok_0,
                medium: medium->Ok_0,
                rating: rating->Ok_0,
                notes: notes->Ok_0,
            },
        )
    }
}

/// The book that the text of a payload describes: the text must be JSON, and
/// the document a book.
pub open spec fn book_of_payload(payload: Seq<char>) -> Result<BookView, PayloadErrorView> {
    match json_parse(payload) {
        Ok(doc) => decode_book(doc),
        Err(words) => Err(PayloadErrorView::Malformed(words)),
    }
}

/// A document that lacks `title`, `author` or `medium` describes no book.
pub proof fn lemma_book_needs_required_fields(doc: JsonDoc, name: Seq<char>)
    requires
        name == "title"@ || name == "author"@ || name == "medium"@,
        doc.member(name) is None,
    ensures
        decode_book(doc) is Err,
{
}

/// A member that no field names is passed over: a document describes the
/// same book with such a member behind the others as without it.
pub proof fn lemma_book_passes_over_other_members(
    members: Seq<(Seq<char>, JsonDoc)>,
    name: Seq<char>,
    value: JsonDoc,
)
    requires
        name != "id"@,
        name != "title"@,
        name != "author"@,
        name != "pages"@,
        name != "genre"@,
        name != "medium"@,
        name != "rating"@,
        name != "notes"@,
    ensures
        decode_book(JsonDoc::Object(members.push((name, value)))) == decode_book(
            JsonDoc::Object(members),
        ),
{
    lemma_lookup_push(members, (name, value), "id"@);
    lemma_lookup_push(members, (name, value), "title"@);
    lemma_lookup_push(members, (name, value), "author"@);
    lemma_lookup_push(members, (name, value), "pages"@);
    lemma_lookup_push(members, (name, value), "genre"@);
    lemma_lookup_push(members, (name, value), "medium"@);
    lemma_lookup_push(members, (name, value), "rating"@);
    lemma_lookup_push(members, (name, value), "notes"@);
}

/// The JSON document of a book: an object with every field, in the order of
/// the record, `null` standing for a field that is not there.
pub open spec fn book_document(book: BookView) -> JsonDoc {
    JsonDoc::Object(
        seq![
            ("id"@, crate::json::number_or_null(book.id)),
            ("title"@, JsonDoc::Text(book.title)),
            ("author"@, JsonDoc::Text(book.author)),
            ("pages"@, crate::json::number_or_null(book.pages)),
            ("genre"@, crate::json::text_or_null(book.genre)),
            ("medium"@, JsonDoc::Text(book.medium)),
            ("rating"@, crate::json::number_or_null(book.rating)),
            ("notes"@, crate::json::text_or_null(book.notes)),
        ],
    )
}

/// The JSON document of a book holds no `Decimal`: it is always written.
pub proof fn lemma_book_document_has_no_decimal(book: BookView)
    ensures
        no_decimal(book_document(book)),
{
    let members = book_document(book)->Object_0;
    assert forall|i: int| 0 <= i < members.len() implies no_decimal((#[trigger] members[i]).1) by {}
}

/// The JSON document of a list of books holds no `Decimal`: it is always
/// written.
pub proof fn lemma_books_document_has_no_decimal(books: Seq<BookView>)
    ensures
        no_decimal(books_document(books)),
{
    let items = books_document(books)->Array_0;
    assert forall|i: int| 0 <= i < items.len() implies no_decimal(#[trigger] items[i]) by {
        lemma_book_document_has_no_decimal(books[i]);
    }
}

/// Reads a book out of a JSON document.
pub fn book_from_json(doc: &JsonValue) -> (decoded: Result<Book, PayloadError>)
    ensures
        read_book_view(decoded) == decode_book(doc@),
{
    match doc {
        JsonValue::Object(_) => {},
        _ => {
            return Err(PayloadError::NotAnObject);
        },
    }
    let id = match read_optional_number(doc, "id") {
        Ok(id) => id,
        Err(error) => {
            return Err(error);
        },
    };
    let title = match read_required_text(doc, "title") {
        Ok(title) => title,
        Err(error) => {
            return Err(error);
        },
    };
    let author = match read_required_text(doc, "author") {
        Ok(author) => author,
        Err(error) => {
            return Err(error);
        },
    };
    let pages = match read_optional_number(doc, "pages") {
        Ok(pages) => pages,
        Err(error) => {
            return Err(error);
        },
    };
    let genre = match read_optional_text(doc, "genre") {
        Ok(genre) => genre,
        Err(error) => {
            return Err(error);
        },
    };
    let medium = match read_required_text(doc, "medium") {
        Ok(medium) => medium,
        Err(error) => {
            return Err(error);
        },
    };
    let rating = match read_optional_number(doc, "rating") {
        Ok(rating) => rating,
        Err(error) => {
            return Err(error);
        },
    };
    let notes = match read_optional_text(doc, "notes") {
        Ok(notes) => notes,
        Err(error) => {
            return Err(error);
        },
    };
    Ok(Book { id, title, author, pages, genre, medium, rating, notes })
}

/// Reads a book out of the text of a payload.
pub fn book_from_payload(payload: &str) -> (read: Result<Book, PayloadError>)
    ensures
        read_book_view(read) == book_of_payload(payload@),
{
    match JsonValue::parse(payload) {
        Ok(doc) => book_from_json(&doc),
        Err(words) => Err(PayloadError::Malformed(words)),
    }
}

/// Writes a book as a JSON document.
pub fn book_to_json(book: &Book) -> (doc: JsonValue)
    ensures
        doc@ == book_document(book@),
{
    let mut members: Vec<(String, JsonValue)> = Vec::new();
    members.push((String::from_str("id"), JsonValue::from_number(book.id)));
    members.push((String::from_str("title"), JsonValue::Text(book.title.clone())));
    members.push((String::from_str("author"), JsonValue::Text(book.author.clone())));
    members.push((String::from_str("pages"), JsonValue::from_number(book.pages)));
    members.push((String::from_str("genre"), JsonValue::from_text(&book.genre)));
    members.push((String::from_str("medium"), JsonValue::Text(book.medium.clone())));
    members.push((String::from_str("rating"), JsonValue::from_number(book.rating)));
    members.push((String::from_str("notes"), JsonValue::from_text(&book.notes)));
    proof {
        lemma_object_view(members);
        assert(members_view(members@) =~= book_document(book@)->Object_0);
    }
    JsonValue::Object(members)
}

/// The JSON document of a list of books: the array of their documents.
pub open spec fn books_document(books: Seq<BookView>) -> JsonDoc {
    JsonDoc::Array(Seq::new(books.len(), |i: int| book_document(books[i])))
}

/// Writes a list of books as a JSON document.
pub fn books_to_json(books: &Vec<Book>) -> (doc: JsonValue)
    ensures
        doc@ == books_document(books_view(books@)),
{
    let mut items: Vec<JsonValue> = Vec::new();
    let mut i: usize = 0;
    while i < books.len()
        invariant
            i <= books.len(),
            items.len() == i,
            forall|k: int| 0 <= k < i ==> items[k]@ == book_document(books[k]@),
        decreases books.len() - i,
    {
        items.push(book_to_json(&books[i]));
        i += 1;
    }
    proof {
        lemma_array_view(items);
        assert(items_view(items@) =~= books_document(books_view(books@))->Array_0);
    }
    JsonValue::Array(items)
}

/// The book that a row of the table `book` holds: the columns are `id`,
/// `title`, `author`, `pages`, `genre`, `medium`, `rating` and `notes`, in
/// this order. A record read back always has its identifier. The first
/// column at fault decides the error.
pub open spec fn book_of_row(row: Seq<SqlValueView>) -> Result<BookView, DbErrorView> {
    let id = number_cell(row, 0);
    let title = text_cell(row, 1);
    let author = text_cell(row, 2);
    let pages = optional_number_cell(row, 3);
    let genre = optional_text_cell(row, 4);
    let medium = text_cell(row, 5);
    let rating = optional_number_cell(row, 6);
    let notes = optional_text_cell(row, 7);
    if id is Err {
        Err(id->Err_0)
    } else if title is Err {
        Err(title->Err_0)
    } else if author is Err {
        Err(author->Err_0)
    } else if pages is Err {
        Err(pages->Err_0)
    } else if genre is Err {
        Err(genre->Err_0)
    } else if medium is Err {
        Err(medium->Err_0)
    } else if rating is Err {
        Err(rating->Err_0)
    } else if notes is Err {
        Err(notes->Err_0)
    } else {
        Ok(
            BookView {
                id: Some(id->Ok_0),
                title: title->Ok_0,
                author: author->Ok_0,
                pages: pages->Ok_0,
                genre: genre->Ok_0,
                medium: medium->Ok_0,
                rating: rating->Ok_0,
                notes: notes->Ok_0,
            },
        )
    }
}

/// The answer to a fetch by identifier: the book of the first row, and
/// `NotFound` where there is no row.
pub open spec fn first_book_of(rows: Seq<Seq<SqlValueView>>) -> Result<BookView, DbErrorView> {
    if rows.len() == 0 {
        Err(DbErrorView::NotFound)
    } else {
        book_of_row(rows[0])
    }
}

/// The answer to a filter: the book of each row, in order, or the error of
/// the first row that holds none.
pub open spec fn books_of_rows(rows: Seq<Seq<SqlValueView>>) -> Result<Seq<BookView>, DbErrorView>
    decreases rows.len(),
{
    if rows.len() == 0 {
        Ok(Seq::empty())
    } else {
        match books_of_rows(rows.drop_last()) {
            Err(error) => Err(error),
            Ok(books) => match book_of_row(rows.last()) {
                Err(error) => Err(error),
                Ok(book) => Ok(books.push(book)),
            },
        }
    }
}

/// What a filter answers: one book for each row, each with its identifier,
/// and never `NotFound` or `InvalidColumn`.
pub proof fn lemma_books_of_rows(rows: Seq<Seq<SqlValueView>>)
    ensures
        match books_of_rows(rows) {
            Ok(books) => books.len() == rows.len() && forall|i: int|
                0 <= i < books.len() ==> book_of_row(rows[i]) == Ok::<BookView, DbErrorView>(
                    #[trigger] books[i],
                ) && books[i].id is Some,
            Err(error) => error is InvalidCell,
        },
    decreases rows.len(),
{
    if rows.len() > 0 {
        lemma_books_of_rows(rows.drop_last());
    }
}

/// Once some rows fail, so do these rows with others behind them, and with
/// the same error.
pub proof fn lemma_books_of_rows_fails_on(rows: Seq<Seq<SqlValueView>>, n: int)
    requires
        0 <= n <= rows.len(),
        books_of_rows(rows.take(n)) is Err,
    ensures
        books_of_rows(rows) == books_of_rows(rows.take(n)),
    decreases rows.len(),
{
    if n < rows.len() {
        assert(rows.drop_last().take(n) =~= rows.take(n));
        lemma_books_of_rows_fails_on(rows.drop_last(), n);
    } else {
        assert(rows.take(n) =~= rows);
    }
}

/// The answer to a fetch by identifier, from what the store gave: its rows
/// or its failure.
pub open spec fn book_fetched(fetched: Fetched) -> Result<BookView, DbErrorView> {
    match fetched {
        Ok(rows) => first_book_of(rows),
        Err(error) => Err(error),
    }
}

/// The answer to a filter, from what the store gave: its rows or its
/// failure.
pub open spec fn books_fetched(fetched: Fetched) -> Result<Seq<BookView>, DbErrorView> {
    match fetched {
        Ok(rows) => books_of_rows(rows),
        Err(error) => Err(error),
    }
}

/// Reads a book out of a row.
pub fn book_from_row(row: &Vec<SqlValue>) -> (read: Result<Book, DbError>)
    ensures
        found_book_view(read) == book_of_row(row_view(row@)),
{
    let id = match crate::db_storage::row::read_number(row, 0) {
        Ok(id) => id,
        Err(error) => {
            return Err(error);
        },
    };
    let title = match crate::db_storage::row::read_text(row, 1) {
        Ok(title) => title,
        Err(error) => {
            return Err(error);
        },
    };
    let author = match crate::db_storage::row::read_text(row, 2) {
        Ok(author) => author,
        Err(error) => {
            return Err(error);
        },
    };
    let pages = match crate::db_storage::row::read_optional_number(row, 3) {
        Ok(pages) => pages,
        Err(error) => {
            return Err(error);
        },
    };
    let genre = match crate::db_storage::row::read_optional_text(row, 4) {
        Ok(genre) => genre,
        Err(error) => {
            return Err(error);
        },
    };
    let medium = match crate::db_storage::row::read_text(row, 5) {
        Ok(medium) => medium,
        Err(error) => {
            return Err(error);
        },
    };
    let rating = match crate::db_storage::row::read_optional_number(row, 6) {
        Ok(rating) => rating,
        Err(error) => {
            return Err(error);
        },
    };
    let notes = match crate::db_storage::row::read_optional_text(row, 7) {
        Ok(notes) => notes,
        Err(error) => {
            return Err(error);
        },
    };
    Ok(Book { id: Some(id), title, author, pages, genre, medium, rating, notes })
}

/// The answer to a fetch by identifier, from the rows that the store gave.
pub fn first_book(rows: &Vec<Vec<SqlValue>>) -> (found: Result<Book, DbError>)
    ensures
        found_book_view(found) == first_book_of(rows_view(rows@)),
{
    if rows.len() == 0 {
        Err(DbError::NotFound)
    } else {
        book_from_row(&rows[0])
    }
}

/// The answer to a filter, from the rows that the store gave.
pub fn books_from_rows(rows: &Vec<Vec<SqlValue>>) -> (found: Result<Vec<Book>, DbError>)
    ensures
        found_books_view(found) == books_of_rows(rows_view(rows@)),
{
    let mut books: Vec<Book> = Vec::new();
    let mut i: usize = 0;
    assert(rows_view(rows@).take(0) =~= Seq::empty());
    assert(books_view(books@) =~= Seq::empty());
    while i < rows.len()
        invariant
            i <= rows.len(),
            books_of_rows(rows_view(rows@).take(i as int)) == Ok::<Seq<BookView>, DbErrorView>(
                books_view(books@),
            ),
        decreases rows.len() - i,
    {
        let ghost before = books_view(books@);
        proof {
            assert(rows_view(rows@).take(i + 1).drop_last() =~= rows_view(rows@).take(i as int));
            assert(rows_view(rows@).take(i + 1).last() == row_view(rows@[i as int]@));
        }
        match book_from_row(&rows[i]) {
            Ok(book) => {
                books.push(book);
                assert(books_view(books@) =~= before.push(book@));
            },
            Err(error) => {
                proof {
                    lemma_books_of_rows_fails_on(rows_view(rows@), i + 1);
                }
                return Err(error);
            },
        }
        i += 1;
    }
    assert(rows_view(rows@).take(i as int) =~= rows_view(rows@));
    Ok(books)
}

/// The statement that selects the book with an identifier.
pub const SELECT_BOOK: &'static str = "SELECT * FROM book WHERE id = :id;";

/// The statement that deletes the book with an identifier.
pub const DELETE_BOOK: &'static str = "DELETE FROM book WHERE id = :id;";

/// The statement that inserts a book. The store assigns the identifier.
pub const INSERT_BOOK: &'static str =
    "INSERT INTO book (title, author, pages, genre, medium, rating, notes) \
     VALUES (:title, :author, :pages, :genre, :medium, :rating, :notes)";

/// The statement that overwrites every field of the book with an identifier.
pub const UPDATE_BOOK: &'static str =
    "UPDATE book SET title = :title, author = :author, pages = :pages, genre = :genre, \
     medium = :medium, rating = :rating, notes = :notes WHERE id = :id;";

/// What is handed to the store to fetch the book `id`.
pub open spec fn book_by_id_query(id: u32) -> SqlStatementView {
    SqlStatementView {
        text: SELECT_BOOK@,
        arguments: seq![(":id"@, SqlArgumentView::Integer(id as i64))],
    }
}

/// What is handed to the store to fetch the books whose `column` equals
/// `value`. The column stands in the text, the value is bound.
pub open spec fn books_by_filter_query(column: Seq<char>, value: Seq<char>) -> SqlStatementView {
    SqlStatementView {
        text: "SELECT * FROM book where "@ + column + " = :filter_query;"@,
        arguments: seq![(":filter_query"@, SqlArgumentView::Text(value))],
    }
}

/// The value that a filter looks for is bound, never spliced: the text of
/// the statement is the same whatever the value, and the value is the one
/// argument.
pub proof fn lemma_books_filter_binds_its_value(
    column: Seq<char>,
    one: Seq<char>,
    other: Seq<char>,
)
    ensures
        books_by_filter_query(column, one).text == books_by_filter_query(column, other).text,
        books_by_filter_query(column, one).arguments == seq![
            (":filter_query"@, SqlArgumentView::Text(one)),
        ],
{
}

/// What is handed to the store to delete the book `id`.
pub open spec fn delete_book_command(id: u32) -> SqlStatementView {
    SqlStatementView {
        text: DELETE_BOOK@,
        arguments: seq![(":id"@, SqlArgumentView::Integer(id as i64))],
    }
}

/// The values that an insert binds, in the order of the table's columns
/// behind `id`. The identifier of the book is not among them.
pub open spec fn book_values(book: BookView) -> Seq<(Seq<char>, SqlArgumentView)> {
    seq![
        (":title"@, SqlArgumentView::Text(book.title)),
        (":author"@, SqlArgumentView::Text(book.author)),
        (":pages"@, number_or_null(book.pages)),
        (":genre"@, text_or_null(book.genre)),
        (":medium"@, SqlArgumentView::Text(book.medium)),
        (":rating"@, number_or_null(book.rating)),
        (":notes"@, text_or_null(book.notes)),
    ]
}

/// What is handed to the store to insert `book`.
pub open spec fn insert_book_command(book: BookView) -> SqlStatementView {
    SqlStatementView { text: INSERT_BOOK@, arguments: book_values(book) }
}

/// What is handed to the store to update `book`: its identifier, null where
/// it has none, and every other field.
pub open spec fn update_book_command(book: BookView) -> SqlStatementView {
    SqlStatementView {
        text: UPDATE_BOOK@,
        arguments: seq![(":id"@, number_or_null(book.id))] + book_values(book),
    }
}

/// Builds the statement that fetches the book `id`.
pub fn book_by_id_statement(id: u32) -> (statement: SqlStatement)
    ensures
        statement@ == book_by_id_query(id),
{
    let mut statement = SqlStatement::new(String::from_str(SELECT_BOOK));
    statement.bind(":id", SqlArgument::Integer(id as i64));
    assert(statement@.arguments =~= book_by_id_query(id).arguments);
    statement
}

/// Builds the statement that fetches the books whose `column` equals
/// `value`. Only a column of the allow-list may be spliced into the text.
pub fn books_by_filter_statement(column: &str, value: String) -> (statement: SqlStatement)
    requires
        is_filter_column(column@),
    ensures
        statement@ == books_by_filter_query(column@, value@),
{
    let mut text = join("SELECT * FROM book where ", column);
    text.append(" = :filter_query;");
    let mut statement = SqlStatement::new(text);
    statement.bind(":filter_query", SqlArgument::Text(value));
    assert(statement@.arguments =~= books_by_filter_query(column@, value@).arguments);
    statement
}

/// Builds the statement that deletes the book `id`.
pub fn delete_book_statement(id: u32) -> (statement: SqlStatement)
    ensures
        statement@ == delete_book_command(id),
{
    let mut statement = SqlStatement::new(String::from_str(DELETE_BOOK));
    statement.bind(":id", SqlArgument::Integer(id as i64));
    assert(statement@.arguments =~= delete_book_command(id).arguments);
    statement
}

/// Binds every field of `book` but its identifier.
fn bind_book_values(statement: &mut SqlStatement, book: &Book)
    ensures
        final(statement)@ == (SqlStatementView {
            text: old(statement)@.text,
            arguments: old(statement)@.arguments + book_values(book@),
        }),
{
    statement.bind(":title", SqlArgument::Text(book.title.clone()));
    statement.bind(":author", SqlArgument::Text(book.author.clone()));
    statement.bind(":pages", SqlArgument::from_number(book.pages));
    statement.bind(":genre", SqlArgument::from_text(&book.genre));
    statement.bind(":medium", SqlArgument::Text(book.medium.clone()));
    statement.bind(":rating", SqlArgument::from_number(book.rating));
    statement.bind(":notes", SqlArgument::from_text(&book.notes));
    assert(statement@.arguments =~= old(statement)@.arguments + book_values(book@));
}

/// Builds the statement that inserts `book`.
pub fn insert_book_statement(book: &Book) -> (statement: SqlStatement)
    ensures
        statement@ == insert_book_command(book@),
{
    let mut statement = SqlStatement::new(String::from_str(INSERT_BOOK));
    bind_book_values(&mut statement, book);
    assert(statement@.arguments =~= book_values(book@));
    statement
}

/// Builds the statement that updates `book`.
pub fn update_book_statement(book: &Book) -> (statement: SqlStatement)
    ensures
        statement@ == update_book_command(book@),
{
    let mut statement = SqlStatement::new(String::from_str(UPDATE_BOOK));
    statement.bind(":id", SqlArgument::from_number(book.id));
    bind_book_values(&mut statement, book);
    assert(statement@.arguments =~= update_book_command(book@).arguments);
    statement
}

/// Overwrites the book that has the identifier of `book` with every field of
/// `book`: hands the store the update of `book`, and gives what the store
/// gave for it, the number of rows changed. That is none where the store
/// holds no such book, or where `book` has no identifier.
pub fn update_book_in_db(gateway: &Gateway, book: Book) -> (changed: Result<usize, DbError>)
    ensures
        executed_at(gateway@, update_book_command(book@), changed),
        may_change(count_view(changed)),
{
    let statement = update_book_statement(&book);
    gateway.execute(&statement)
}

/// Whether `found` answers a fetch of the book `id` from the store at
/// `location`: the store was handed the fetch by that identifier and asked
/// for its first row alone, and `found` is the answer read from what it
/// gave.
pub open spec fn book_queried(
    location: Seq<char>,
    id: u32,
    found: Result<Book, DbError>,
) -> bool {
    exists|fetched: Result<Vec<Vec<SqlValue>>, DbError>|
        #[trigger] first_fetched_at(location, book_by_id_query(id), fetched)
            && found_book_view(found) == book_fetched(fetched_view(fetched))
}

/// Whether `found` answers a filter of the books whose `column` equals
/// `value`, at the store at `location`. For a column that a filter may name,
/// the store was handed the filter with the column in its text and the
/// value bound, and `found` is the answer read from what it gave. For any
/// other column `found` is `InvalidColumn` with that column, and the store
/// was not asked.
pub open spec fn books_filtered(
    location: Seq<char>,
    column: Seq<char>,
    value: Seq<char>,
    found: Result<Vec<Book>, DbError>,
) -> bool {
    if is_filter_column(column) {
        exists|fetched: Result<Vec<Vec<SqlValue>>, DbError>|
            #[trigger] fetched_at(location, books_by_filter_query(column, value), fetched)
                && found_books_view(found) == books_fetched(fetched_view(fetched))
    } else {
        found_books_view(found) == Err::<Seq<BookView>, DbErrorView>(
            DbErrorView::InvalidColumn(column),
        )
    }
}

/// Fetches the book with the identifier `id`: hands the store the fetch by
/// that identifier and reads its first row alone. Where several rows match,
/// the first one is the answer, and no other is read; where none does, the
/// answer is `NotFound`.
pub fn query_book_by_id(gateway: &Gateway, id: u32) -> (found: Result<Book, DbError>)
    ensures
        book_queried(gateway@, id, found),
        found matches Ok(book) ==> book.id is Some,
        failure(found) matches Some(error) ==> error is NotFound || error is InvalidCell
            || of_store(error),
{
    let statement = book_by_id_statement(id);
    let fetched = gateway.fetch_first(&statement);
    let ghost outcome = fetched;
    match fetched {
        Ok(rows) => {
            let found = first_book(&rows);
            assert(found_book_view(found) == book_fetched(fetched_view(outcome)));
            found
        },
        Err(error) => Err(error),
    }
}

/// Fetches the books whose column `filter_col` equals `filter_query`:
/// hands the store the filter with the column in its text and the value
/// bound, and reads every row. A column outside the allow-list is turned
/// down before the store is asked.
pub fn query_books_by_filter(
    gateway: &Gateway,
    filter_col: String,
    filter_query: String,
) -> (found: Result<Vec<Book>, DbError>)
    ensures
        books_filtered(gateway@, filter_col@, filter_query@, found),
        !is_filter_column(filter_col@) ==> failure(found) == Some(
            DbErrorView::InvalidColumn(filter_col@),
        ),
        is_filter_column(filter_col@) ==> (failure(found) matches Some(error)
            ==> error is InvalidCell || of_store(error)),
        found matches Ok(books) ==> forall|i: int|
            0 <= i < books.len() ==> books[i].id is Some,
{
    if !column_name_is_valid(filter_col.as_str()) {
        return Err(DbError::InvalidColumn(filter_col));
    }
    let statement = books_by_filter_statement(filter_col.as_str(), filter_query);
    let fetched = gateway.fetch(&statement);
    let ghost outcome = fetched;
    match fetched {
        Ok(rows) => {
            let found = books_from_rows(&rows);
            assert(found_books_view(found) == books_fetched(fetched_view(outcome)));
            proof {
                lemma_books_of_rows(rows_view(rows@));
                if found is Ok {
                    let books = found->Ok_0;
                    assert forall|i: int| 0 <= i < books.len() implies books[i].id
                        is Some by {
                        assert(books_view(books@)[i] == books[i]@);
                    }
                }
            }
            found
        },
        Err(error) => Err(error),
    }
}

/// Deletes the book with the identifier `id`: hands the store the deletion
/// by that identifier, and gives what the store gave for it, the number of
/// rows removed. That the store holds no such book is no error: the number
/// is 0.
pub fn delete_book_by_id(gateway: &Gateway, id: u32) -> (removed: Result<usize, DbError>)
    ensures
        executed_at(gateway@, delete_book_command(id), removed),
        may_change(count_view(removed)),
{
    let statement = delete_book_statement(id);
    gateway.execute(&statement)
}

/// Inserts `book`, whose identifier is passed over, for the store assigns
/// one: hands the store the insert of every other field, and gives what the
/// store gave for it, the number of rows written.
pub fn write_book_to_db(gateway: &Gateway, book: Book) -> (written: Result<usize, DbError>)
    ensures
        executed_at(gateway@, insert_book_command(book@), written),
        may_change(count_view(written)),
{
    let statement = insert_book_statement(&book);
    gateway.execute(&statement)
}

/// What an insert binds for a book reads back, as a row behind the
/// identifier that the store assigned, as the book with that identifier and
/// every other field as it was.
pub proof fn lemma_stored_book_reads_back(book: BookView, id: u32)
    ensures
        book_of_row(stored_row(id, book_values(book))) == Ok::<BookView, DbErrorView>(
            BookView { id: Some(id), ..book },
        ),
{
    let row = stored_row(id, book_values(book));
    assert(row.len() == 8);
    assert(row[0] == SqlValueView::Integer(id as i64));
    assert(row[1] == stored(book_values(book)[0].1));
    assert(row[2] == stored(book_values(book)[1].1));
    assert(row[3] == stored(book_values(book)[2].1));
    assert(row[4] == stored(book_values(book)[3].1));
    assert(row[5] == stored(book_values(book)[4].1));
    assert(row[6] == stored(book_values(book)[5].1));
    assert(row[7] == stored(book_values(book)[6].1));
}

/// Where the store gives back, for an identifier, the row that it stored
/// for a book, the fetch finds the book with that identifier and every
/// other field as it was.
pub proof fn lemma_inserted_book_is_fetched(book: BookView, id: u32)
    ensures
        book_fetched(Ok(seq![stored_row(id, book_values(book))])) == Ok::<
            BookView,
            DbErrorView,
        >(BookView { id: Some(id), ..book }),
{
    lemma_stored_book_reads_back(book, id);
}

/// The JSON document of a book describes that very book.
pub proof fn lemma_book_document_reads_back(book: BookView)
    ensures
        decode_book(book_document(book)) == Ok::<BookView, PayloadErrorView>(book),
{
    reveal_strlit("id");
    reveal_strlit("title");
    reveal_strlit("author");
    reveal_strlit("pages");
    reveal_strlit("genre");
    reveal_strlit("medium");
    reveal_strlit("rating");
    reveal_strlit("notes");
    assert("id"@.len() == 2);
    assert("title"@.len() == 5 && "title"@[0] == 't');
    assert("author"@.len() == 6 && "author"@[0] == 'a');
    assert("pages"@.len() == 5 && "pages"@[0] == 'p');
    assert("genre"@.len() == 5 && "genre"@[0] == 'g');
    assert("medium"@.len() == 6 && "medium"@[0] == 'm');
    assert("rating"@.len() == 6 && "rating"@[0] == 'r');
    assert("notes"@.len() == 5 && "notes"@[0] == 'n');
    let doc = book_document(book);
    let members = doc->Object_0;
    assert(members.len() == 8);
    lemma_lookup_found(members, "id"@, 0);
    lemma_lookup_found(members, "title"@, 1);
    lemma_lookup_found(members, "author"@, 2);
    lemma_lookup_found(members, "pages"@, 3);
    lemma_lookup_found(members, "genre"@, 4);
    lemma_lookup_found(members, "medium"@, 5);
    lemma_lookup_found(members, "rating"@, 6);
    lemma_lookup_found(members, "notes"@, 7);
}

} // verus!
