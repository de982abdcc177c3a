//! The gateway to the relational store: statements with named arguments go
//! in, counts and rows of plain values come out.
//!
//! The store is SQLite, reached through `rusqlite`. What it answers depends
//! on what it holds, so nothing here promises an answer: the contracts say
//! which failure belongs to which step.

use rusqlite::types::{Value, ValueRef};
use rusqlite::{Connection, Rows, Statement, ToSql};
use vstd::prelude::*;
use crate::text::{decimal, decimal_text, join, optional_text_view};

pub mod row;

verus! {

/// A connection to a database, as `rusqlite` holds it.
#[verifier::external_type_specification]
#[verifier::external_body]
pub struct ExConnection(rusqlite::Connection);

/// A compiled statement, as `rusqlite` holds it.
#[verifier::external_type_specification]
#[verifier::external_body]
pub struct ExStatement<'conn>(rusqlite::Statement<'conn>);

/// A cursor over the rows of a query, as `rusqlite` holds it.
#[verifier::external_type_specification]
#[verifier::external_body]
pub struct ExRows<'stmt>(rusqlite::Rows<'stmt>);

/// An error of `rusqlite`.
#[verifier::external_type_specification]
#[verifier::external_body]
pub struct ExError(rusqlite::Error);

/// A value bound to a named parameter of a statement.
#[derive(Debug, Clone, PartialEq, Eq)]
pub enum SqlArgument {
    Null,
    Integer(i64),
    Text(String),
}

/// A `SqlArgument` as a mathematical value.
pub enum SqlArgumentView {
    Null,
    Integer(i64),
    Text(Seq<char>),
}

impl View for SqlArgument {
    type V = SqlArgumentView;

    open spec fn view(&self) -> SqlArgumentView {
        match self {
            SqlArgument::Null => SqlArgumentView::Null,
            SqlArgument::Integer(n) => SqlArgumentView::Integer(*n),
            SqlArgument::Text(t) => SqlArgumentView::Text(t@),
        }
    }
}

/// A cell of a row that the store gave back.
#[derive(Debug, Clone, PartialEq, Eq)]
pub enum SqlValue {
    Null,
    Integer(i64),
    /// A floating-point cell. No column of this service holds one, so its
    /// value is not kept.
    Real,
    Text(String),
    Blob(Vec<u8>),
}

/// A `SqlValue` as a mathematical value.
pub enum SqlValueView {
    Null,
    Integer(i64),
    Real,
    Text(Seq<char>),
    Blob(Seq<u8>),
}

impl View for SqlValue {
    type V = SqlValueView;

    open spec fn view(&self) -> SqlValueView {
        match self {
            SqlValue::Null => SqlValueView::Null,
            SqlValue::Integer(n) => SqlValueView::Integer(*n),
            SqlValue::Real => SqlValueView::Real,
            SqlValue::Text(t) => SqlValueView::Text(t@),
            SqlValue::Blob(b) => SqlValueView::Blob(b@),
        }
    }
}

/// The cell that holds an argument once it is stored.
pub open spec fn stored(argument: SqlArgumentView) -> SqlValueView {
    match argument {
        SqlArgumentView::Null => SqlValueView::Null,
        SqlArgumentView::Integer(n) => SqlValueView::Integer(n),
        SqlArgumentView::Text(t) => SqlValueView::Text(t),
    }
}

/// The row that holds a record once it is stored: the identifier that the
/// store assigned, and behind it the cell of each value that was bound.
pub open spec fn stored_row(id: u32, values: Seq<(Seq<char>, SqlArgumentView)>) -> Seq<
    SqlValueView,
> {
    seq![SqlValueView::Integer(id as i64)] + Seq::new(values.len(), |i: int| stored(values[i].1))
}

/// The cells of a row, each as a mathematical value.
pub open spec fn row_view(row: Seq<SqlValue>) -> Seq<SqlValueView> {
    Seq::new(row.len(), |i: int| row[i]@)
}

/// Rows, each as a sequence of mathematical values.
pub open spec fn rows_view(rows: Seq<Vec<SqlValue>>) -> Seq<Seq<SqlValueView>> {
    Seq::new(rows.len(), |i: int| row_view(rows[i]@))
}

/// The argument that stores an optional number: null where there is none.
pub open spec fn number_or_null(number: Option<u32>) -> SqlArgumentView {
    match number {
        Some(n) => SqlArgumentView::Integer(n as i64),
        None => SqlArgumentView::Null,
    }
}

/// The argument that stores an optional text: null where there is none.
pub open spec fn text_or_null(text: Option<Seq<char>>) -> SqlArgumentView {
    match text {
        Some(t) => SqlArgumentView::Text(t),
        None => SqlArgumentView::Null,
    }
}

/// The named arguments of a statement, each as a mathematical value.
pub open spec fn arguments_view(arguments: Seq<(String, SqlArgument)>) -> Seq<
    (Seq<char>, SqlArgumentView),
> {
    Seq::new(arguments.len(), |i: int| (arguments[i].0@, arguments[i].1@))
}

/// A statement as it is handed to the store: its text, and the value of each
/// named parameter. Values never stand in the text.
#[derive(Debug, Clone, PartialEq, Eq)]
pub struct SqlStatement {
    pub text: String,
    pub arguments: Vec<(String, SqlArgument)>,
}

/// A `SqlStatement` as a mathematical value.
pub struct SqlStatementView {
    pub text: Seq<char>,
    pub arguments: Seq<(Seq<char>, SqlArgumentView)>,
}

impl View for SqlStatement {
    type V = SqlStatementView;

    open spec fn view(&self) -> SqlStatementView {
        SqlStatementView { text: self.text@, arguments: arguments_view(self.arguments@) }
    }
}

impl SqlArgument {
    /// The argument that stores an optional number.
    pub fn from_number(number: Option<u32>) -> (argument: SqlArgument)
        ensures
            argument@ == number_or_null(number),
    {
        match number {
            Some(n) => SqlArgument::Integer(n as i64),
            None => SqlArgument::Null,
        }
    }

    /// The argument that stores an optional text.
    pub fn from_text(text: &Option<String>) -> (argument: SqlArgument)
        ensures
            argument@ == text_or_null(optional_text_view(*text)),
    {
        match text {
            Some(t) => SqlArgument::Text(t.clone()),
            None => SqlArgument::Null,
        }
    }
}

impl SqlStatement {
    /// The statement `text`, with no argument bound yet.
    pub fn new(text: String) -> (statement: SqlStatement)
        ensures
            statement@ == (SqlStatementView { text: text@, arguments: Seq::empty() }),
    {
        let statement = SqlStatement { text, arguments: Vec::new() };
        assert(statement@.arguments =~= Seq::empty());
        statement
    }

    /// Binds `value` to the parameter `name`.
    pub fn bind(&mut self, name: &str, value: SqlArgument)
        ensures
            final(self)@ == (SqlStatementView {
                text: old(self)@.text,
                arguments: old(self)@.arguments.push((name@, value@)),
            }),
    {
        self.arguments.push((String::from_str(name), value));
        assert(self@.arguments =~= old(self)@.arguments.push((name@, value@)));
    }
}

/// Why a data access failed.
#[derive(Debug, Clone, PartialEq, Eq)]
pub enum DbError {
    /// No row matched.
    NotFound,
    /// The filter named a column outside the allow-list.
    InvalidColumn(String),
    /// The store could not be opened; the store's own words.
    Connection(String),
    /// The store refused or failed a statement; the store's own words.
    Store(String),
    /// A row held, in the column of this index, a cell that the record
    /// cannot take.
    InvalidCell(usize),
}

/// A `DbError` as a mathematical value.
pub enum DbErrorView {
    NotFound,
    InvalidColumn(Seq<char>),
    Connection(Seq<char>),
    Store(Seq<char>),
    InvalidCell(usize),
}

impl View for DbError {
    type V = DbErrorView;

    open spec fn view(&self) -> DbErrorView {
        match self {
            DbError::NotFound => DbErrorView::NotFound,
            DbError::InvalidColumn(column) => DbErrorView::InvalidColumn(column@),
            DbError::Connection(words) => DbErrorView::Connection(words@),
            DbError::Store(words) => DbErrorView::Store(words@),
            DbError::InvalidCell(column) => DbErrorView::InvalidCell(*column),
        }
    }
}

/// What the store may give for a statement that selects rows: the rows, or
/// why it failed.
pub type Fetched = Result<Seq<Seq<SqlValueView>>, DbErrorView>;

/// What the store may give for a statement that changes rows: their number,
/// or why it failed.
pub type Changed = Result<usize, DbErrorView>;

/// Whether a failure is the store's own: it could not be opened, or it
/// refused or failed a statement.
pub open spec fn of_store(error: DbErrorView) -> bool {
    error is Connection || error is Store
}

/// Whether `fetched` is something that the store may give: a failure is the
/// store's own.
pub open spec fn may_fetch(fetched: Fetched) -> bool {
    fetched matches Err(error) ==> of_store(error)
}

/// Whether `changed` is something that the store may give: a failure is the
/// store's own.
pub open spec fn may_change(changed: Changed) -> bool {
    changed matches Err(error) ==> of_store(error)
}

/// The outcome of a statement that selects rows, as a mathematical value.
pub open spec fn fetched_view(outcome: Result<Vec<Vec<SqlValue>>, DbError>) -> Fetched {
    match outcome {
        Ok(rows) => Ok(rows_view(rows@)),
        Err(error) => Err(error@),
    }
}

/// The outcome of a statement that changes rows, as a mathematical value.
pub open spec fn count_view(outcome: Result<usize, DbError>) -> Changed {
    match outcome {
        Ok(count) => Ok(count),
        Err(error) => Err(error@),
    }
}

/// Why an outcome is a failure, if it is one.
pub open spec fn failure<T>(outcome: Result<T, DbError>) -> Option<DbErrorView> {
    match outcome {
        Ok(_) => None,
        Err(error) => Some(error@),
    }
}

impl DbErrorView {
    /// The error in words, as a response body shows it.
    pub open spec fn message(self) -> Seq<char> {
        match self {
            DbErrorView::NotFound => "Query returned no rows"@,
            DbErrorView::InvalidColumn(column) => "Invalid column name: "@ + column,
            DbErrorView::Connection(words) => words,
            DbErrorView::Store(words) => words,
            DbErrorView::InvalidCell(column) => "Invalid column type at index: "@ + decimal_text(
                column as nat,
            ),
        }
    }
}

impl DbError {
    /// The error in words, as a response body shows it.
    pub fn message(&self) -> (words: String)
        ensures
            words@ == self@.message(),
    {
        match self {
            DbError::NotFound => String::from_str("Query returned no rows"),
            DbError::InvalidColumn(column) => join("Invalid column name: ", column.as_str()),
            DbError::Connection(words) => words.clone(),
            DbError::Store(words) => words.clone(),
            DbError::InvalidCell(column) => {
                let index = decimal(*column as u64);
                join("Invalid column type at index: ", index.as_str())
            },
        }
    }
}

/// Calls `rusqlite::Connection::open`, which opens the database file at
/// `path` and creates it where there is none. Nothing is claimed of the
/// outcome.
#[verifier::external_body]
fn connect(path: &str) -> (opened: Result<Connection, rusqlite::Error>) {
    Connection::open(path)
}

/// Calls `rusqlite::Connection::prepare`, which compiles the statement.
/// Nothing is claimed of the outcome.
#[verifier::external_body]
fn prepare<'conn>(conn: &'conn Connection, text: &str) -> (prepared: Result<
    Statement<'conn>,
    rusqlite::Error,
>) {
    conn.prepare(text)
}

/// Calls `rusqlite::Statement::execute` with the arguments bound by name,
/// each one as the `rusqlite::types::Value` of its kind. The call gives the
/// number of rows that the statement changed. Nothing is claimed of the
/// outcome.
#[verifier::external_body]
fn execute(stmt: &mut Statement<'_>, arguments: &Vec<(String, SqlArgument)>) -> (changed: Result<
    usize,
    rusqlite::Error,
>) {
    let values: Vec<Value> = arguments.iter().map(
        |(_, argument)| match argument {
            SqlArgument::Null => Value::Null,
            SqlArgument::Integer(n) => Value::Integer(*n),
            SqlArgument::Text(t) => Value::Text(t.clone()),
        },
    ).collect();
    let named: Vec<(&str, &dyn ToSql)> = arguments.iter().zip(values.iter()).map(
        |((name, _), value)| (name.as_str(), value as &dyn ToSql),
    ).collect();
    stmt.execute(named.as_slice())
}

/// Calls `rusqlite::Statement::query` with the arguments bound by name,
/// each one as the `rusqlite::types::Value` of its kind. The call gives a
/// cursor over the rows. Nothing is claimed of the outcome.
#[verifier::external_body]
fn query<'stmt>(stmt: &'stmt mut Statement<'_>, arguments: &Vec<(String, SqlArgument)>) -> (started:
    Result<Rows<'stmt>, rusqlite::Error>) {
    let values: Vec<Value> = arguments.iter().map(
        |(_, argument)| match argument {
            SqlArgument::Null => Value::Null,
            SqlArgument::Integer(n) => Value::Integer(*n),
            SqlArgument::Text(t) => Value::Text(t.clone()),
        },
    ).collect();
    let named: Vec<(&str, &dyn ToSql)> = arguments.iter().zip(values.iter()).map(
        |((name, _), value)| (name.as_str(), value as &dyn ToSql),
    ).collect();
    stmt.query(named.as_slice())
}

/// Calls `rusqlite::Rows::next` and, where it gives a row, reads each of its
/// cells with `rusqlite::Row::get_ref`, one cell for each column that
/// `rusqlite::Statement::column_count` counts. A cell becomes the
/// `SqlValue` of its kind; text that is not UTF-8 is an error, as
/// `rusqlite::types::ValueRef::as_str` reports it. Nothing is claimed of the
/// outcome.
#[verifier::external_body]
fn next_row(rows: &mut Rows<'_>) -> (step: Result<Option<Vec<SqlValue>>, rusqlite::Error>) {
    let row = match rows.next()? {
        Some(row) => row,
        None => return Ok(None),
    };
    let mut cells = Vec::new();
    for column in 0..row.as_ref().column_count() {
        cells.push(match row.get_ref(column)? {
            ValueRef::Null => SqlValue::Null,
            ValueRef::Integer(n) => SqlValue::Integer(n),
            ValueRef::Real(_) => SqlValue::Real,
            text @ ValueRef::Text(_) => SqlValue::Text(text.as_str()?.to_owned()),
            ValueRef::Blob(bytes) => SqlValue::Blob(bytes.to_vec()),
        });
    }
    Ok(Some(cells))
}

/// The `Display` text of a `rusqlite::Error`. Nothing is claimed of it.
#[verifier::external_body]
fn words(error: &rusqlite::Error) -> (text: String) {
    error.to_string()
}

/// Whether `opened` is what `Gateway::open` gave for a gateway to
/// `location`: the outcome of opening the store there, whatever it was.
pub open spec fn opened_at(location: Seq<char>, opened: Result<Connection, rusqlite::Error>)
    -> bool {
    exists|gateway: Gateway|
        gateway@ == location && #[trigger] call_ensures(Gateway::open, (&gateway,), opened)
}

/// Whether `changed` is what `execute_on` gave for a statement of the text
/// and the arguments of `statement`, run on `conn`.
pub open spec fn executed_on(
    conn: &Connection,
    statement: SqlStatementView,
    changed: Result<usize, DbError>,
) -> bool {
    exists|handed: SqlStatement|
        handed@ == statement && #[trigger] call_ensures(execute_on, (conn, &handed), changed)
}

/// Whether `fetched` is what `fetch_on` gave for a statement of the text and
/// the arguments of `statement`, run on `conn`.
pub open spec fn fetched_on(
    conn: &Connection,
    statement: SqlStatementView,
    fetched: Result<Vec<Vec<SqlValue>>, DbError>,
) -> bool {
    exists|handed: SqlStatement|
        handed@ == statement && #[trigger] call_ensures(fetch_on, (conn, &handed), fetched)
}

/// Whether `fetched` is what `fetch_first_on` gave for a statement of the
/// text and the arguments of `statement`, run on `conn`.
pub open spec fn first_fetched_on(
    conn: &Connection,
    statement: SqlStatementView,
    fetched: Result<Vec<Vec<SqlValue>>, DbError>,
) -> bool {
    exists|handed: SqlStatement|
        handed@ == statement && #[trigger] call_ensures(
            fetch_first_on,
            (conn, &handed),
            fetched,
        )
}

/// Whether `changed` is what the store at `location` gave for `statement`,
/// a statement that changes rows. The store was opened for this one
/// statement: where that failed, `changed` is a `Connection` error; where it
/// did not, `changed` is what the statement gave on the connection that was
/// opened.
pub open spec fn executed_at(
    location: Seq<char>,
    statement: SqlStatementView,
    changed: Result<usize, DbError>,
) -> bool {
    exists|opened: Result<Connection, rusqlite::Error>|
        #[trigger] opened_at(location, opened) && match opened {
            Ok(conn) => executed_on(&conn, statement, changed),
            Err(_) => changed matches Err(DbError::Connection(_)),
        }
}

/// Whether `fetched` is what the store at `location` gave for `statement`,
/// a statement that selects rows. The store was opened for this one
/// statement: where that failed, `fetched` is a `Connection` error; where it
/// did not, `fetched` is what the statement gave on the connection that was
/// opened.
pub open spec fn fetched_at(
    location: Seq<char>,
    statement: SqlStatementView,
    fetched: Result<Vec<Vec<SqlValue>>, DbError>,
) -> bool {
    exists|opened: Result<Connection, rusqlite::Error>|
        #[trigger] opened_at(location, opened) && match opened {
            Ok(conn) => fetched_on(&conn, statement, fetched),
            Err(_) => fetched matches Err(DbError::Connection(_)),
        }
}

/// Whether `fetched` is what the store at `location` gave for `statement`,
/// a statement that selects rows, asked for its first row alone. The store
/// was opened for this one statement: where that failed, `fetched` is a
/// `Connection` error; where it did not, `fetched` is what the statement
/// gave on the connection that was opened.
pub open spec fn first_fetched_at(
    location: Seq<char>,
    statement: SqlStatementView,
    fetched: Result<Vec<Vec<SqlValue>>, DbError>,
) -> bool {
    exists|opened: Result<Connection, rusqlite::Error>|
        #[trigger] opened_at(location, opened) && match opened {
            Ok(conn) => first_fetched_on(&conn, statement, fetched),
            Err(_) => fetched matches Err(DbError::Connection(_)),
        }
}

/// The way to the store: the path of a database file, or a URI that SQLite
/// takes in its place. Each operation opens a connection of its own there
/// and closes it when it is done.
#[derive(Debug, Clone, PartialEq, Eq)]
pub struct Gateway {
    pub location: String,
}

impl View for Gateway {
    type V = Seq<char>;

    open spec fn view(&self) -> Seq<char> {
        self.location@
    }
}

/// The location of the service's store, relative to the directory that the
/// service was started from.
pub const FIXED_LOCATION: &'static str = "./src/db_storage/dummy.db";

impl Gateway {
    /// The gateway to the store at `location`.
    pub fn at(location: &str) -> (gateway: Gateway)
        ensures
            gateway@ == location@,
    {
        Gateway { location: String::from_str(location) }
    }

    /// The gateway to the service's store.
    pub fn fixed() -> (gateway: Gateway)
        ensures
            gateway@ == FIXED_LOCATION@,
    {
        Gateway::at(FIXED_LOCATION)
    }

    /// Opens a connection to the store.
    pub fn open(&self) -> (opened: Result<Connection, rusqlite::Error>) {
        connect(self.location.as_str())
    }

    /// Opens the store and runs a statement that changes rows. What comes
    /// back is what the store gave for this statement on a connection of its
    /// own; a failure to open is told apart from a failure of the statement.
    pub fn execute(&self, statement: &SqlStatement) -> (changed: Result<usize, DbError>)
        ensures
            executed_at(self@, statement@, changed),
            may_change(count_view(changed)),
    {
        let opened = self.open();
        let ghost outcome = opened;
        assert(call_ensures(Gateway::open, (self,), outcome));
        assert(opened_at(self@, outcome));
        match opened {
            Ok(conn) => {
                let changed = execute_on(&conn, statement);
                assert(call_ensures(execute_on, (&conn, statement), changed));
                changed
            },
            Err(error) => Err(DbError::Connection(words(&error))),
        }
    }

    /// Opens the store and runs a statement that selects rows. What comes
    /// back is what the store gave for this statement on a connection of its
    /// own; a failure to open is told apart from a failure of the statement.
    pub fn fetch(&self, statement: &SqlStatement) -> (fetched: Result<Vec<Vec<SqlValue>>, DbError>)
        ensures
            fetched_at(self@, statement@, fetched),
            may_fetch(fetched_view(fetched)),
    {
        let opened = self.open();
        let ghost outcome = opened;
        assert(call_ensures(Gateway::open, (self,), outcome));
        assert(opened_at(self@, outcome));
        match opened {
            Ok(conn) => {
                let fetched = fetch_on(&conn, statement);
                assert(call_ensures(fetch_on, (&conn, statement), fetched));
                fetched
            },
            Err(error) => Err(DbError::Connection(words(&error))),
        }
    }

    /// Opens the store and runs a statement that selects rows, for its first
    /// row alone. What comes back is what the store gave for this statement
    /// on a connection of its own: one row at most; a failure to open is
    /// told apart from a failure of the statement.
    pub fn fetch_first(&self, statement: &SqlStatement) -> (fetched: Result<
        Vec<Vec<SqlValue>>,
        DbError,
    >)
        ensures
            first_fetched_at(self@, statement@, fetched),
            may_fetch(fetched_view(fetched)),
            fetched matches Ok(rows) ==> rows.len() <= 1,
    {
        let opened = self.open();
        let ghost outcome = opened;
        assert(call_ensures(Gateway::open, (self,), outcome));
        assert(opened_at(self@, outcome));
        match opened {
            Ok(conn) => {
                let fetched = fetch_first_on(&conn, statement);
                assert(call_ensures(fetch_first_on, (&conn, statement), fetched));
                fetched
            },
            Err(error) => Err(DbError::Connection(words(&error))),
        }
    }
}

/// Runs a statement that changes rows, and gives the number of rows changed.
pub fn execute_on(conn: &Connection, statement: &SqlStatement) -> (changed: Result<
    usize,
    DbError,
>)
    ensures
        changed matches Err(error) ==> error is Store,
{
    let mut prepared = match prepare(conn, statement.text.as_str()) {
        Ok(prepared) => prepared,
        Err(error) => {
            return Err(DbError::Store(words(&error)));
        },
    };
    match execute(&mut prepared, &statement.arguments) {
        Ok(changed) => Ok(changed),
        Err(error) => Err(DbError::Store(words(&error))),
    }
}

/// How far the rows of a query are gathered.
#[derive(Debug, Clone, PartialEq, Eq)]
pub enum Gathering {
    /// These rows so far; the cursor may hold more.
    More(Vec<Vec<SqlValue>>),
    /// These rows, and no more: the cursor is at its end.
    All(Vec<Vec<SqlValue>>),
    /// The gathering failed.
    Failed(DbError),
}

/// Takes one step of a cursor into the rows gathered so far. A row goes
/// behind the others; the end of the cursor ends the gathering with the
/// rows as they are; a failure of the store ends it with the store's words.
/// A row beyond what can be held is a failure too.
pub fn gather(rows: Vec<Vec<SqlValue>>, step: Result<Option<Vec<SqlValue>>, String>) -> (next:
    Gathering)
    ensures
        match step {
            Ok(Some(row)) => if rows@.len() < usize::MAX {
                next matches Gathering::More(more) && more@ == rows@.push(row)
            } else {
                next matches Gathering::Failed(DbError::Store(words)) && words@
                    == "more rows than can be held"@
            },
            Ok(None) => next matches Gathering::All(all) && all@ == rows@,
            Err(failure) => next matches Gathering::Failed(DbError::Store(words)) && words@
                == failure@,
        },
{
    match step {
        Ok(Some(row)) => {
            if rows.len() < usize::MAX {
                let mut more = rows;
                more.push(row);
                Gathering::More(more)
            } else {
                Gathering::Failed(DbError::Store(String::from_str("more rows than can be held")))
            }
        },
        Ok(None) => Gathering::All(rows),
        Err(failure) => Gathering::Failed(DbError::Store(failure)),
    }
}

/// Runs a statement that selects rows, and gives them all, in the store's
/// order: the cursor is stepped until it ends or fails, and each step is
/// gathered.
pub fn fetch_on(conn: &Connection, statement: &SqlStatement) -> (fetched: Result<
    Vec<Vec<SqlValue>>,
    DbError,
>)
    ensures
        fetched matches Err(error) ==> error is Store,
{
    let mut prepared = match prepare(conn, statement.text.as_str()) {
        Ok(prepared) => prepared,
        Err(error) => {
            return Err(DbError::Store(words(&error)));
        },
    };
    let mut cursor = match query(&mut prepared, &statement.arguments) {
        Ok(cursor) => cursor,
        Err(error) => {
            return Err(DbError::Store(words(&error)));
        },
    };
    let mut rows: Vec<Vec<SqlValue>> = Vec::new();
    loop
        decreases usize::MAX - rows.len(),
    {
        let step = match next_row(&mut cursor) {
            Ok(row) => Ok(row),
            Err(error) => Err(words(&error)),
        };
        match gather(rows, step) {
            Gathering::More(more) => {
                rows = more;
            },
            Gathering::All(all) => {
                return Ok(all);
            },
            Gathering::Failed(error) => {
                return Err(error);
            },
        }
    }
}

/// Runs a statement that selects rows, and gives the first of them alone,
/// or no row where there is none: the cursor is stepped once, and no row
/// behind the first is read.
pub fn fetch_first_on(conn: &Connection, statement: &SqlStatement) -> (fetched: Result<
    Vec<Vec<SqlValue>>,
    DbError,
>)
    ensures
        fetched matches Ok(rows) ==> rows.len() <= 1,
        fetched matches Err(error) ==> error is Store,
{
    let mut prepared = match prepare(conn, statement.text.as_str()) {
        Ok(prepared) => prepared,
        Err(error) => {
            return Err(DbError::Store(words(&error)));
        },
    };
    let mut cursor = match query(&mut prepared, &statement.arguments) {
        Ok(cursor) => cursor,
        Err(error) => {
            return Err(DbError::Store(words(&error)));
        },
    };
    let step = match next_row(&mut cursor) {
        Ok(row) => Ok(row),
        Err(error) => Err(words(&error)),
    };
    match gather(Vec::new(), step) {
        Gathering::More(rows) => Ok(rows),
        Gathering::All(rows) => Ok(rows),
        Gathering::Failed(error) => Err(error),
    }
}

} // verus!
