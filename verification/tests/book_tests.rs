use alexandria_db::api::models::book::{
    book_by_id_statement, book_from_json, book_from_payload, book_from_row, book_to_json,
    books_by_filter_statement, books_from_rows, books_to_json, delete_book_by_id,
    delete_book_statement, first_book, insert_book_statement, query_book_by_id,
    query_books_by_filter, update_book_in_db, update_book_statement, write_book_to_db, Book,
};
use alexandria_db::db_storage::{DbError, Gateway, SqlArgument, SqlStatement, SqlValue};
use alexandria_db::json::JsonValue;
use alexandria_db::payload::PayloadError;

const BOOK_SCHEMA: &str = "
    CREATE TABLE book (id INTEGER PRIMARY KEY, title TEXT NOT NULL, author TEXT NOT NULL,
        pages INTEGER, genre TEXT, medium TEXT NOT NULL, rating INTEGER, notes TEXT);";

/// A store in memory, alive as long as the connection that comes with it.
fn book_store(name: &str) -> (Gateway, rusqlite::Connection) {
    let gateway = Gateway::at(&format!("file:{}?mode=memory&cache=shared", name));
    let anchor = gateway.open().unwrap();
    anchor.execute_batch(BOOK_SCHEMA).unwrap();
    (gateway, anchor)
}

fn a_new_book() -> Book {
    Book {
        id: None,
        title: "A New Book".to_string(),
        author: "JDSeiler-Test".to_string(),
        pages: Some(45),
        genre: Some("Thriller".to_string()),
        medium: "paper".to_string(),
        rating: Some(5),
        notes: None,
    }
}

fn numbered_book(n: u32) -> Book {
    Book {
        id: None,
        title: format!("Book {}", n),
        author: "Someone".to_string(),
        pages: Some(n),
        genre: None,
        medium: "print".to_string(),
        rating: None,
        notes: None,
    }
}

fn a_row() -> Vec<SqlValue> {
    vec![
        SqlValue::Integer(3),
        SqlValue::Text("Test".to_string()),
        SqlValue::Text("TestName".to_string()),
        SqlValue::Integer(45),
        SqlValue::Text("Thriller".to_string()),
        SqlValue::Text("print".to_string()),
        SqlValue::Null,
        SqlValue::Null,
    ]
}

fn the_book_of_a_row() -> Book {
    Book {
        id: Some(3),
        title: "Test".to_string(),
        author: "TestName".to_string(),
        pages: Some(45),
        genre: Some("Thriller".to_string()),
        medium: "print".to_string(),
        rating: None,
        notes: None,
    }
}

#[test]
fn book_convert_json_to_book() {
    let valid_json: &str = r#"{"id": 1, 
"title": "Test", 
"author": "TestName", 
"pages": 45, 
"genre": "Thriller", 
"medium": "print", 
"rating": null, 
"notes": null}"#;

    let missing_fields_json: &str = r#"{"id": 1,
"title": "BadTest",
"author": "SomeTitle",
"notes": "I left out a bunch of stuff"}"#;

    let bad_types_json: &str = r#"{"id": 1, 
"title": "Test", 
"author": "TestName", 
"pages": 45, 
"genre": "Thriller", 
"medium": "print", 
"rating": "5", 
"notes": ""}"#;

    let should_be_valid: Result<Book, PayloadError> = book_from_payload(valid_json);
    match should_be_valid {
        Ok(book) => println!("'normal' json: {:?}", book),
        Err(_e) => panic!("There should not be any errors!"),
    }

    let missing_fields: Result<Book, PayloadError> = book_from_payload(missing_fields_json);
    match missing_fields {
        Ok(book) => panic!("Book with missing fields should not deserialize: {:#?}", book),
        Err(e) => println!("This json is missing fields: {:#?}", e),
    }

    let bad_types: Result<Book, PayloadError> = book_from_payload(bad_types_json);
    match bad_types {
        Ok(book) => panic!("Book with bad types should not deserialize: {:#?}", book),
        Err(e) => println!("This json has bad types: {:#?}", e),
    }
}

#[test]
fn book_query_books_from_db() {
    let (gateway, _anchor) = book_store("book_query_books_from_db");
    for n in 1..45 {
        assert_eq!(write_book_to_db(&gateway, numbered_book(n)), Ok(1));
    }
    for id in 1..45 {
        let result = query_book_by_id(&gateway, id);
        match result {
            Ok(_book) => {}
            Err(e) => panic!("A query on the database for id {} failed: {:?}", id, e),
        }
    }
}

#[test]
fn book_writing_a_book_to_db() {
    let (gateway, _anchor) = book_store("book_writing_a_book_to_db");
    let new_book: Book = Book {
        id: None,
        title: "A New Book".to_string(),
        author: "JDSeiler-Test".to_string(),
        pages: Some(45),
        genre: Some("Thriller".to_string()),
        medium: "paper".to_string(),
        rating: Some(5),
        notes: None,
    };
    let changes = write_book_to_db(&gateway, new_book);
    match changes {
        Ok(rows) => assert_eq!(rows, 1),
        Err(e) => panic!("Insert failed with error: {:#?}", e),
    }
}

#[test]
fn payload_gives_the_book_it_describes() {
    let payload = r#"{"id": 1, "title": "Test", "author": "TestName", "pages": 45,
        "genre": "Thriller", "medium": "print", "rating": null, "notes": null}"#;
    assert_eq!(
        book_from_payload(payload),
        Ok(Book {
            id: Some(1),
            title: "Test".to_string(),
            author: "TestName".to_string(),
            pages: Some(45),
            genre: Some("Thriller".to_string()),
            medium: "print".to_string(),
            rating: None,
            notes: None,
        })
    );
}

#[test]
fn smallest_payload_of_a_book() {
    assert_eq!(
        book_from_payload(r#"{"title":"T","author":"A","medium":"print"}"#),
        Ok(Book {
            id: None,
            title: "T".to_string(),
            author: "A".to_string(),
            pages: None,
            genre: None,
            medium: "print".to_string(),
            rating: None,
            notes: None,
        })
    );
}

#[test]
fn payload_may_hold_members_that_no_field_names() {
    let payload = r#"{"title":"T","author":"A","medium":"print","shelf":[1,2],"lent":{"to":"B"}}"#;
    assert!(book_from_payload(payload).is_ok());
}

#[test]
fn payload_without_a_required_field_is_no_book() {
    assert_eq!(
        book_from_payload(r#"{"author":"A","medium":"print"}"#),
        Err(PayloadError::MissingField("title".to_string()))
    );
    assert_eq!(
        book_from_payload(r#"{"title":"T","medium":"print"}"#),
        Err(PayloadError::MissingField("author".to_string()))
    );
    assert_eq!(
        book_from_payload(r#"{"title":"T","author":"A"}"#),
        Err(PayloadError::MissingField("medium".to_string()))
    );
    assert_eq!(book_from_payload("{}"), Err(PayloadError::MissingField("title".to_string())));
}

#[test]
fn payload_with_a_wrong_type_is_no_book() {
    for (payload, field) in [
        (r#"{"id":"1","title":"T","author":"A","medium":"print"}"#, "id"),
        (r#"{"title":7,"author":"A","medium":"print"}"#, "title"),
        (r#"{"title":"T","author":null,"medium":"print"}"#, "author"),
        (r#"{"title":"T","author":"A","medium":"print","pages":-1}"#, "pages"),
        (r#"{"title":"T","author":"A","medium":"print","pages":45.0}"#, "pages"),
        (r#"{"title":"T","author":"A","medium":"print","pages":4294967296}"#, "pages"),
        (r#"{"title":"T","author":"A","medium":"print","genre":false}"#, "genre"),
        (r#"{"title":"T","author":"A","medium":["print"]}"#, "medium"),
        (r#"{"title":"T","author":"A","medium":"print","rating":"5"}"#, "rating"),
        (r#"{"title":"T","author":"A","medium":"print","notes":{}}"#, "notes"),
    ] {
        assert_eq!(
            book_from_payload(payload),
            Err(PayloadError::InvalidField(field.to_string())),
            "{}",
            payload
        );
    }
}

#[test]
fn first_field_at_fault_decides() {
    assert_eq!(
        book_from_payload(r#"{"id":"x","author":3,"rating":"5"}"#),
        Err(PayloadError::InvalidField("id".to_string()))
    );
    assert_eq!(
        book_from_payload(r#"{"author":3,"rating":"5"}"#),
        Err(PayloadError::MissingField("title".to_string()))
    );
    assert_eq!(
        book_from_payload(r#"{"title":"T","author":"A","rating":"5"}"#),
        Err(PayloadError::MissingField("medium".to_string()))
    );
}

#[test]
fn payload_that_is_no_object_is_no_book() {
    for payload in ["[]", "null", "3", "\"book\"", "[\"T\",\"A\",\"print\"]"] {
        assert_eq!(book_from_payload(payload), Err(PayloadError::NotAnObject), "{}", payload);
    }
}

#[test]
fn payload_that_is_no_json_is_no_book() {
    assert_eq!(
        book_from_payload("{\"title\": \"T\""),
        Err(PayloadError::Malformed("EOF while parsing an object at line 1 column 13".to_string()))
    );
    match book_from_payload("title=T") {
        Err(PayloadError::Malformed(_)) => {}
        other => panic!("{:?}", other),
    }
}

#[test]
fn book_from_json_reads_a_document() {
    let doc = JsonValue::Object(vec![
        ("title".to_string(), JsonValue::Text("T".to_string())),
        ("medium".to_string(), JsonValue::Text("print".to_string())),
        ("author".to_string(), JsonValue::Text("A".to_string())),
        ("pages".to_string(), JsonValue::Unsigned(4294967295)),
        ("title".to_string(), JsonValue::Text("T2".to_string())),
    ]);
    assert_eq!(
        book_from_json(&doc),
        Ok(Book {
            id: None,
            title: "T2".to_string(),
            author: "A".to_string(),
            pages: Some(u32::MAX),
            genre: None,
            medium: "print".to_string(),
            rating: None,
            notes: None,
        })
    );
    assert_eq!(book_from_json(&JsonValue::Null), Err(PayloadError::NotAnObject));
}

#[test]
fn book_to_json_writes_every_field_in_order() {
    let book = the_book_of_a_row();
    assert_eq!(
        book_to_json(&book).to_text(),
        Ok(concat_fields(&[
            "{\"id\":3,\"title\":\"Test\",\"author\":\"TestName\",\"pages\":45,",
            "\"genre\":\"Thriller\",\"medium\":\"print\",\"rating\":null,\"notes\":null}",
        ]))
    );
    assert_eq!(
        book_to_json(&a_new_book()),
        JsonValue::Object(vec![
            ("id".to_string(), JsonValue::Null),
            ("title".to_string(), JsonValue::Text("A New Book".to_string())),
            ("author".to_string(), JsonValue::Text("JDSeiler-Test".to_string())),
            ("pages".to_string(), JsonValue::Unsigned(45)),
            ("genre".to_string(), JsonValue::Text("Thriller".to_string())),
            ("medium".to_string(), JsonValue::Text("paper".to_string())),
            ("rating".to_string(), JsonValue::Unsigned(5)),
            ("notes".to_string(), JsonValue::Null),
        ])
    );
}

fn concat_fields(parts: &[&str]) -> String {
    parts.iter().map(|part| part.to_string()).collect()
}

#[test]
fn document_of_a_book_reads_back() {
    for book in [a_new_book(), the_book_of_a_row(), numbered_book(9)] {
        assert_eq!(book_from_json(&book_to_json(&book)), Ok(book.clone()));
        let text = book_to_json(&book).to_text().unwrap();
        assert_eq!(book_from_payload(&text), Ok(book));
    }
}

#[test]
fn books_to_json_writes_an_array() {
    assert_eq!(books_to_json(&vec![]), JsonValue::Array(vec![]));
    let books = vec![a_new_book(), the_book_of_a_row()];
    assert_eq!(
        books_to_json(&books),
        JsonValue::Array(vec![book_to_json(&books[0]), book_to_json(&books[1])])
    );
    assert_eq!(books_to_json(&vec![]).to_text(), Ok("[]".to_string()));
}

#[test]
fn book_from_row_reads_the_columns_in_order() {
    assert_eq!(book_from_row(&a_row()), Ok(the_book_of_a_row()));
    let mut wide = a_row();
    wide.push(SqlValue::Text("one more column".to_string()));
    assert_eq!(book_from_row(&wide), Ok(the_book_of_a_row()));
}

#[test]
fn book_from_row_names_the_column_at_fault() {
    let faults: Vec<(usize, SqlValue)> = vec![
        (0, SqlValue::Null),
        (0, SqlValue::Integer(-1)),
        (0, SqlValue::Integer(4294967296)),
        (0, SqlValue::Text("3".to_string())),
        (1, SqlValue::Null),
        (1, SqlValue::Integer(1)),
        (2, SqlValue::Blob(vec![65])),
        (3, SqlValue::Text("45".to_string())),
        (3, SqlValue::Real),
        (3, SqlValue::Integer(-45)),
        (4, SqlValue::Integer(0)),
        (5, SqlValue::Null),
        (6, SqlValue::Integer(4294967296)),
        (7, SqlValue::Real),
    ];
    for (column, cell) in faults {
        let mut row = a_row();
        row[column] = cell.clone();
        assert_eq!(book_from_row(&row), Err(DbError::InvalidCell(column)), "{:?}", cell);
    }
    for width in 0..8 {
        let row: Vec<SqlValue> = a_row().into_iter().take(width).collect();
        assert_eq!(book_from_row(&row), Err(DbError::InvalidCell(width)));
    }
}

#[test]
fn book_from_row_takes_the_largest_numbers() {
    let mut row = a_row();
    row[0] = SqlValue::Integer(4294967295);
    row[3] = SqlValue::Integer(0);
    row[6] = SqlValue::Integer(4294967295);
    let book = book_from_row(&row).unwrap();
    assert_eq!(book.id, Some(u32::MAX));
    assert_eq!(book.pages, Some(0));
    assert_eq!(book.rating, Some(u32::MAX));
}

#[test]
fn first_book_is_that_of_the_first_row() {
    assert_eq!(first_book(&vec![]), Err(DbError::NotFound));
    assert_eq!(first_book(&vec![a_row()]), Ok(the_book_of_a_row()));
    let mut second = a_row();
    second[1] = SqlValue::Text("Another".to_string());
    assert_eq!(first_book(&vec![a_row(), second]), Ok(the_book_of_a_row()));
    assert_eq!(first_book(&vec![vec![], a_row()]), Err(DbError::InvalidCell(0)));
}

#[test]
fn books_from_rows_reads_every_row() {
    assert_eq!(books_from_rows(&vec![]), Ok(vec![]));
    let mut second = a_row();
    second[0] = SqlValue::Integer(4);
    let mut other = the_book_of_a_row();
    other.id = Some(4);
    assert_eq!(books_from_rows(&vec![a_row(), second.clone()]), Ok(vec![the_book_of_a_row(), other]));
    let mut bad = a_row();
    bad[5] = SqlValue::Null;
    let mut worse = a_row();
    worse[2] = SqlValue::Null;
    assert_eq!(
        books_from_rows(&vec![a_row(), bad, worse, second]),
        Err(DbError::InvalidCell(5))
    );
}

#[test]
fn statements_of_a_book() {
    assert_eq!(
        book_by_id_statement(7),
        SqlStatement {
            text: "SELECT * FROM book WHERE id = :id;".to_string(),
            arguments: vec![(":id".to_string(), SqlArgument::Integer(7))],
        }
    );
    assert_eq!(
        delete_book_statement(4294967295),
        SqlStatement {
            text: "DELETE FROM book WHERE id = :id;".to_string(),
            arguments: vec![(":id".to_string(), SqlArgument::Integer(4294967295))],
        }
    );
    assert_eq!(
        books_by_filter_statement("author", "O'Brien; --".to_string()),
        SqlStatement {
            text: "SELECT * FROM book where author = :filter_query;".to_string(),
            arguments: vec![(
                ":filter_query".to_string(),
                SqlArgument::Text("O'Brien; --".to_string())
            )],
        }
    );
    let values = vec![
        (":title".to_string(), SqlArgument::Text("A New Book".to_string())),
        (":author".to_string(), SqlArgument::Text("JDSeiler-Test".to_string())),
        (":pages".to_string(), SqlArgument::Integer(45)),
        (":genre".to_string(), SqlArgument::Text("Thriller".to_string())),
        (":medium".to_string(), SqlArgument::Text("paper".to_string())),
        (":rating".to_string(), SqlArgument::Integer(5)),
        (":notes".to_string(), SqlArgument::Null),
    ];
    let insert = insert_book_statement(&a_new_book());
    assert_eq!(
        insert.text,
        "INSERT INTO book (title, author, pages, genre, medium, rating, notes) VALUES (:title, :author, :pages, :genre, :medium, :rating, :notes)"
    );
    assert_eq!(insert.arguments, values);
    let update = update_book_statement(&a_new_book());
    assert_eq!(
        update.text,
        "UPDATE book SET title = :title, author = :author, pages = :pages, genre = :genre, medium = :medium, rating = :rating, notes = :notes WHERE id = :id;"
    );
    let mut with_id = vec![(":id".to_string(), SqlArgument::Null)];
    with_id.extend(values);
    assert_eq!(update.arguments, with_id);
    let mut known = a_new_book();
    known.id = Some(12);
    assert_eq!(update_book_statement(&known).arguments[0], (":id".to_string(), SqlArgument::Integer(12)));
}

#[test]
fn each_valid_column_can_be_spliced() {
    for column in ["title", "author", "pages", "genre", "medium", "rating"] {
        assert_eq!(
            books_by_filter_statement(column, "x".to_string()).text,
            format!("SELECT * FROM book where {} = :filter_query;", column)
        );
    }
}

#[test]
fn inserted_book_reads_back_with_its_identifier() {
    let (gateway, _anchor) = book_store("inserted_book_reads_back_with_its_identifier");
    assert_eq!(write_book_to_db(&gateway, a_new_book()), Ok(1));
    let mut expected = a_new_book();
    expected.id = Some(1);
    assert_eq!(query_book_by_id(&gateway, 1), Ok(expected));
    let mut with_id = numbered_book(2);
    with_id.id = Some(77);
    assert_eq!(write_book_to_db(&gateway, with_id), Ok(1));
    let mut second = numbered_book(2);
    second.id = Some(2);
    assert_eq!(query_book_by_id(&gateway, 2), Ok(second));
    assert_eq!(query_book_by_id(&gateway, 77), Err(DbError::NotFound));
}

#[test]
fn book_that_is_not_there_is_not_found() {
    let (gateway, _anchor) = book_store("book_that_is_not_there_is_not_found");
    assert_eq!(query_book_by_id(&gateway, 999999), Err(DbError::NotFound));
    assert_eq!(query_book_by_id(&gateway, 0), Err(DbError::NotFound));
}

#[test]
fn deleting_a_book_twice() {
    let (gateway, _anchor) = book_store("deleting_a_book_twice");
    assert_eq!(write_book_to_db(&gateway, a_new_book()), Ok(1));
    assert_eq!(delete_book_by_id(&gateway, 1), Ok(1));
    assert_eq!(delete_book_by_id(&gateway, 1), Ok(0));
    assert_eq!(delete_book_by_id(&gateway, 999999), Ok(0));
    assert_eq!(query_book_by_id(&gateway, 1), Err(DbError::NotFound));
}

#[test]
fn updating_a_book_overwrites_every_field() {
    let (gateway, _anchor) = book_store("updating_a_book_overwrites_every_field");
    assert_eq!(write_book_to_db(&gateway, a_new_book()), Ok(1));
    let changed = Book {
        id: Some(1),
        title: "Another Title".to_string(),
        author: "Another".to_string(),
        pages: None,
        genre: None,
        medium: "audio".to_string(),
        rating: None,
        notes: Some("changed".to_string()),
    };
    assert_eq!(update_book_in_db(&gateway, changed.clone()), Ok(1));
    assert_eq!(query_book_by_id(&gateway, 1), Ok(changed.clone()));
    let mut absent = changed.clone();
    absent.id = Some(2);
    assert_eq!(update_book_in_db(&gateway, absent), Ok(0));
    let mut nameless = changed;
    nameless.id = None;
    assert_eq!(update_book_in_db(&gateway, nameless), Ok(0));
}

#[test]
fn filter_finds_the_books_whose_column_equals_the_value() {
    let (gateway, _anchor) = book_store("filter_finds_the_books_whose_column_equals_the_value");
    for n in 1..6 {
        let mut book = numbered_book(n);
        if n % 2 == 0 {
            book.author = "Even".to_string();
        }
        assert_eq!(write_book_to_db(&gateway, book), Ok(1));
    }
    let found = query_books_by_filter(&gateway, "author".to_string(), "Even".to_string()).unwrap();
    assert_eq!(found.iter().map(|book| book.id).collect::<Vec<_>>(), vec![Some(2), Some(4)]);
    let found = query_books_by_filter(&gateway, "title".to_string(), "Book 3".to_string()).unwrap();
    assert_eq!(found.len(), 1);
    assert_eq!(found[0].pages, Some(3));
    assert_eq!(
        query_books_by_filter(&gateway, "title".to_string(), "Book".to_string()),
        Ok(vec![])
    );
    assert_eq!(
        query_books_by_filter(&gateway, "title".to_string(), "book 3".to_string()),
        Ok(vec![])
    );
    let found = query_books_by_filter(&gateway, "pages".to_string(), "5".to_string()).unwrap();
    assert_eq!(found.iter().map(|book| book.id).collect::<Vec<_>>(), vec![Some(5)]);
}

#[test]
fn filter_turns_down_a_column_outside_the_list() {
    let (gateway, _anchor) = book_store("filter_turns_down_a_column_outside_the_list");
    for column in ["id", "notes", "colour", "", "title OR 1=1"] {
        assert_eq!(
            query_books_by_filter(&gateway, column.to_string(), "x".to_string()),
            Err(DbError::InvalidColumn(column.to_string()))
        );
    }
    let nowhere = Gateway::at("/nowhere/at/all/books.db");
    assert_eq!(
        query_books_by_filter(&nowhere, "colour".to_string(), "x".to_string()),
        Err(DbError::InvalidColumn("colour".to_string()))
    );
}

#[test]
fn filter_by_a_column_of_the_other_table_is_the_stores_error() {
    let (gateway, _anchor) = book_store("filter_by_a_column_of_the_other_table");
    assert_eq!(
        query_books_by_filter(&gateway, "start_date".to_string(), "x".to_string()),
        Err(DbError::Store("no such column: start_date".to_string()))
    );
}

#[test]
fn store_that_cannot_be_opened_is_a_connection_error() {
    let nowhere = Gateway::at("/nowhere/at/all/books.db");
    match query_book_by_id(&nowhere, 1) {
        Err(DbError::Connection(words)) => assert!(words.contains("unable to open"), "{}", words),
        other => panic!("{:?}", other),
    }
    assert!(matches!(write_book_to_db(&nowhere, a_new_book()), Err(DbError::Connection(_))));
    assert!(matches!(update_book_in_db(&nowhere, a_new_book()), Err(DbError::Connection(_))));
    assert!(matches!(delete_book_by_id(&nowhere, 1), Err(DbError::Connection(_))));
    assert!(matches!(
        query_books_by_filter(&nowhere, "title".to_string(), "x".to_string()),
        Err(DbError::Connection(_))
    ));
}

#[test]
fn store_without_the_table_is_a_store_error() {
    let gateway = Gateway::at("file:store_without_the_table?mode=memory&cache=shared");
    let _anchor = gateway.open().unwrap();
    assert_eq!(
        query_book_by_id(&gateway, 1),
        Err(DbError::Store("no such table: book".to_string()))
    );
    assert_eq!(
        write_book_to_db(&gateway, a_new_book()),
        Err(DbError::Store("no such table: book".to_string()))
    );
    assert_eq!(
        delete_book_by_id(&gateway, 1),
        Err(DbError::Store("no such table: book".to_string()))
    );
}

#[test]
fn of_two_books_with_one_identifier_the_first_is_the_answer() {
    let gateway = Gateway::at("file:of_two_books_with_one_identifier?mode=memory&cache=shared");
    let anchor = gateway.open().unwrap();
    anchor
        .execute_batch(
            "CREATE TABLE book (id, title, author, pages, genre, medium, rating, notes);
             INSERT INTO book VALUES (1, 'First', 'A', NULL, NULL, 'print', NULL, NULL);
             INSERT INTO book VALUES (1, 'Second', 'A', NULL, NULL, 'print', NULL, NULL);",
        )
        .unwrap();
    assert_eq!(query_book_by_id(&gateway, 1).unwrap().title, "First");
    assert_eq!(delete_book_by_id(&gateway, 1), Ok(2));
}

#[test]
fn a_later_row_that_cannot_be_read_does_not_fail_the_fetch() {
    let gateway = Gateway::at("file:a_later_row_that_cannot_be_read?mode=memory&cache=shared");
    let anchor = gateway.open().unwrap();
    anchor
        .execute_batch(
            "CREATE TABLE book (id, title, author, pages, genre, medium, rating, notes);
             INSERT INTO book VALUES (1, 'First', 'A', NULL, NULL, 'print', NULL, NULL);
             INSERT INTO book VALUES (1, CAST(x'ff' AS TEXT), 'A', NULL, NULL, 'print', NULL, NULL);
             INSERT INTO book VALUES (1, 'Third', 7, NULL, NULL, 'print', NULL, NULL);",
        )
        .unwrap();
    assert_eq!(query_book_by_id(&gateway, 1).unwrap().title, "First");
    assert!(matches!(
        query_books_by_filter(&gateway, "author".to_string(), "A".to_string()),
        Err(DbError::Store(_))
    ));
}

#[test]
fn row_that_holds_no_book_is_an_invalid_cell() {
    let gateway = Gateway::at("file:row_that_holds_no_book?mode=memory&cache=shared");
    let anchor = gateway.open().unwrap();
    anchor
        .execute_batch(
            "CREATE TABLE book (id, title, author, pages, genre, medium, rating, notes);
             INSERT INTO book VALUES (1, 'T', 'A', 'many', NULL, 'print', NULL, NULL);
             INSERT INTO book VALUES (2, 'T', 'A', 1.5, NULL, 'print', NULL, NULL);
             INSERT INTO book VALUES (NULL, 'T', 'A', NULL, NULL, 'print', NULL, NULL);
             INSERT INTO book VALUES (4, 'T', 'A', NULL, NULL, x'00ff', NULL, NULL);",
        )
        .unwrap();
    assert_eq!(query_book_by_id(&gateway, 1), Err(DbError::InvalidCell(3)));
    assert_eq!(query_book_by_id(&gateway, 2), Err(DbError::InvalidCell(3)));
    assert_eq!(query_book_by_id(&gateway, 4), Err(DbError::InvalidCell(5)));
    assert_eq!(
        query_books_by_filter(&gateway, "title".to_string(), "T".to_string()),
        Err(DbError::InvalidCell(3))
    );
}
