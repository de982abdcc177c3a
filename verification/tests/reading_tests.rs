use alexandria_db::api::models::reading::{
    delete_reading_by_id, delete_reading_statement, first_reading, insert_reading_statement,
    query_reading_by_id, query_readings_by_filter, reading_by_id_statement, reading_from_json,
    reading_from_payload, reading_from_row, reading_to_json, readings_by_filter_statement,
    readings_from_rows, readings_to_json, update_reading_in_db, update_reading_statement,
    write_reading_to_db, Reading,
};
use alexandria_db::db_storage::{DbError, Gateway, SqlArgument, SqlStatement, SqlValue};
use alexandria_db::json::JsonValue;
use alexandria_db::payload::PayloadError;

const READING_SCHEMA: &str = "
    CREATE TABLE reading (id INTEGER PRIMARY KEY, book INTEGER NOT NULL,
        start_date TEXT NOT NULL, end_date TEXT, notes TEXT);";

/// A store in memory, alive as long as the connection that comes with it.
fn reading_store(name: &str) -> (Gateway, rusqlite::Connection) {
    let gateway = Gateway::at(&format!("file:{}?mode=memory&cache=shared", name));
    let anchor = gateway.open().unwrap();
    anchor.execute_batch(READING_SCHEMA).unwrap();
    (gateway, anchor)
}

fn a_reading() -> Reading {
    Reading {
        id: None,
        book: 12,
        start_date: "2020-03-01".to_string(),
        end_date: Some("2020-03-20".to_string()),
        notes: None,
    }
}

fn a_reading_row() -> Vec<SqlValue> {
    vec![
        SqlValue::Integer(5),
        SqlValue::Integer(12),
        SqlValue::Text("2020-03-01".to_string()),
        SqlValue::Null,
        SqlValue::Text("slow start".to_string()),
    ]
}

fn the_reading_of_a_row() -> Reading {
    Reading {
        id: Some(5),
        book: 12,
        start_date: "2020-03-01".to_string(),
        end_date: None,
        notes: Some("slow start".to_string()),
    }
}

#[test]
fn payload_gives_the_reading_it_describes() {
    assert_eq!(
        reading_from_payload(
            r#"{"id": 3, "book": 12, "start_date": "2020-03-01", "end_date": null, "notes": "n"}"#
        ),
        Ok(Reading {
            id: Some(3),
            book: 12,
            start_date: "2020-03-01".to_string(),
            end_date: None,
            notes: Some("n".to_string()),
        })
    );
    assert_eq!(
        reading_from_payload(r#"{"book": 0, "start_date": "whenever"}"#),
        Ok(Reading {
            id: None,
            book: 0,
            start_date: "whenever".to_string(),
            end_date: None,
            notes: None,
        })
    );
}

#[test]
fn payload_without_a_required_field_is_no_reading() {
    assert_eq!(
        reading_from_payload(r#"{"start_date": "2020-03-01"}"#),
        Err(PayloadError::MissingField("book".to_string()))
    );
    assert_eq!(
        reading_from_payload(r#"{"book": 12}"#),
        Err(PayloadError::MissingField("start_date".to_string()))
    );
    assert_eq!(reading_from_payload("{}"), Err(PayloadError::MissingField("book".to_string())));
}

#[test]
fn payload_with_a_wrong_type_is_no_reading() {
    for (payload, field) in [
        (r#"{"id": -1, "book": 12, "start_date": "d"}"#, "id"),
        (r#"{"book": "12", "start_date": "d"}"#, "book"),
        (r#"{"book": null, "start_date": "d"}"#, "book"),
        (r#"{"book": 4294967296, "start_date": "d"}"#, "book"),
        (r#"{"book": 12, "start_date": 20200301}"#, "start_date"),
        (r#"{"book": 12, "start_date": "d", "end_date": 1}"#, "end_date"),
        (r#"{"book": 12, "start_date": "d", "notes": []}"#, "notes"),
    ] {
        assert_eq!(
            reading_from_payload(payload),
            Err(PayloadError::InvalidField(field.to_string())),
            "{}",
            payload
        );
    }
    assert_eq!(reading_from_payload("[12, \"d\"]"), Err(PayloadError::NotAnObject));
    assert!(matches!(reading_from_payload("{"), Err(PayloadError::Malformed(_))));
}

#[test]
fn reading_to_json_writes_every_field_in_order() {
    assert_eq!(
        reading_to_json(&the_reading_of_a_row()).to_text(),
        Ok("{\"id\":5,\"book\":12,\"start_date\":\"2020-03-01\",\"end_date\":null,\"notes\":\"slow start\"}"
            .to_string())
    );
    assert_eq!(
        reading_to_json(&a_reading()),
        JsonValue::Object(vec![
            ("id".to_string(), JsonValue::Null),
            ("book".to_string(), JsonValue::Unsigned(12)),
            ("start_date".to_string(), JsonValue::Text("2020-03-01".to_string())),
            ("end_date".to_string(), JsonValue::Text("2020-03-20".to_string())),
            ("notes".to_string(), JsonValue::Null),
        ])
    );
}

#[test]
fn document_of_a_reading_reads_back() {
    for reading in [a_reading(), the_reading_of_a_row()] {
        assert_eq!(reading_from_json(&reading_to_json(&reading)), Ok(reading.clone()));
        let text = reading_to_json(&reading).to_text().unwrap();
        assert_eq!(reading_from_payload(&text), Ok(reading));
    }
}

#[test]
fn readings_to_json_writes_an_array() {
    let readings = vec![a_reading(), the_reading_of_a_row()];
    assert_eq!(
        readings_to_json(&readings),
        JsonValue::Array(vec![reading_to_json(&readings[0]), reading_to_json(&readings[1])])
    );
    assert_eq!(readings_to_json(&vec![]).to_text(), Ok("[]".to_string()));
}

#[test]
fn reading_from_row_reads_the_columns_in_order() {
    assert_eq!(reading_from_row(&a_reading_row()), Ok(the_reading_of_a_row()));
}

#[test]
fn reading_from_row_names_the_column_at_fault() {
    let faults: Vec<(usize, SqlValue)> = vec![
        (0, SqlValue::Null),
        (0, SqlValue::Integer(-5)),
        (1, SqlValue::Null),
        (1, SqlValue::Text("12".to_string())),
        (1, SqlValue::Integer(4294967296)),
        (2, SqlValue::Null),
        (2, SqlValue::Integer(20200301)),
        (3, SqlValue::Integer(1)),
        (4, SqlValue::Blob(vec![])),
    ];
    for (column, cell) in faults {
        let mut row = a_reading_row();
        row[column] = cell.clone();
        assert_eq!(reading_from_row(&row), Err(DbError::InvalidCell(column)), "{:?}", cell);
    }
    for width in 0..5 {
        let row: Vec<SqlValue> = a_reading_row().into_iter().take(width).collect();
        assert_eq!(reading_from_row(&row), Err(DbError::InvalidCell(width)));
    }
}

#[test]
fn first_reading_and_readings_from_rows() {
    assert_eq!(first_reading(&vec![]), Err(DbError::NotFound));
    assert_eq!(first_reading(&vec![a_reading_row(), vec![]]), Ok(the_reading_of_a_row()));
    assert_eq!(readings_from_rows(&vec![]), Ok(vec![]));
    assert_eq!(
        readings_from_rows(&vec![a_reading_row(), a_reading_row()]),
        Ok(vec![the_reading_of_a_row(), the_reading_of_a_row()])
    );
    assert_eq!(
        readings_from_rows(&vec![a_reading_row(), vec![SqlValue::Integer(1)]]),
        Err(DbError::InvalidCell(1))
    );
}

#[test]
fn statements_of_a_reading() {
    assert_eq!(
        reading_by_id_statement(7),
        SqlStatement {
            text: "SELECT * FROM reading WHERE id = :id;".to_string(),
            arguments: vec![(":id".to_string(), SqlArgument::Integer(7))],
        }
    );
    assert_eq!(
        delete_reading_statement(7),
        SqlStatement {
            text: "DELETE FROM reading WHERE id = :id;".to_string(),
            arguments: vec![(":id".to_string(), SqlArgument::Integer(7))],
        }
    );
    assert_eq!(
        readings_by_filter_statement("start_date", "2020-03-01".to_string()),
        SqlStatement {
            text: "SELECT * FROM reading where start_date = :filter_query;".to_string(),
            arguments: vec![(
                ":filter_query".to_string(),
                SqlArgument::Text("2020-03-01".to_string())
            )],
        }
    );
    let values = vec![
        (":book".to_string(), SqlArgument::Integer(12)),
        (":start_date".to_string(), SqlArgument::Text("2020-03-01".to_string())),
        (":end_date".to_string(), SqlArgument::Text("2020-03-20".to_string())),
        (":notes".to_string(), SqlArgument::Null),
    ];
    assert_eq!(
        insert_reading_statement(&a_reading()),
        SqlStatement {
            text: "INSERT INTO reading (book, start_date, end_date, notes) VALUES (:book, :start_date, :end_date, :notes);"
                .to_string(),
            arguments: values.clone(),
        }
    );
    let mut known = a_reading();
    known.id = Some(9);
    let mut with_id = vec![(":id".to_string(), SqlArgument::Integer(9))];
    with_id.extend(values);
    assert_eq!(
        update_reading_statement(&known),
        SqlStatement {
            text: "UPDATE reading SET book = :book, start_date = :start_date, end_date = :end_date, notes = :notes WHERE id = :id;"
                .to_string(),
            arguments: with_id,
        }
    );
}

#[test]
fn inserted_reading_reads_back_with_its_identifier() {
    let (gateway, _anchor) = reading_store("inserted_reading_reads_back_with_its_identifier");
    assert_eq!(write_reading_to_db(&gateway, a_reading()), Ok(1));
    let mut expected = a_reading();
    expected.id = Some(1);
    assert_eq!(query_reading_by_id(&gateway, 1), Ok(expected));
    assert_eq!(query_reading_by_id(&gateway, 2), Err(DbError::NotFound));
}

#[test]
fn reading_may_name_a_book_that_is_not_there() {
    let (gateway, _anchor) = reading_store("reading_may_name_a_book_that_is_not_there");
    let mut dangling = a_reading();
    dangling.book = 4000000000;
    assert_eq!(write_reading_to_db(&gateway, dangling), Ok(1));
    assert_eq!(query_reading_by_id(&gateway, 1).unwrap().book, 4000000000);
}

#[test]
fn deleting_and_updating_a_reading() {
    let (gateway, _anchor) = reading_store("deleting_and_updating_a_reading");
    assert_eq!(write_reading_to_db(&gateway, a_reading()), Ok(1));
    let changed = Reading {
        id: Some(1),
        book: 13,
        start_date: "2021-01-01".to_string(),
        end_date: None,
        notes: Some("again".to_string()),
    };
    assert_eq!(update_reading_in_db(&gateway, changed.clone()), Ok(1));
    assert_eq!(query_reading_by_id(&gateway, 1), Ok(changed.clone()));
    let mut absent = changed;
    absent.id = Some(8);
    assert_eq!(update_reading_in_db(&gateway, absent), Ok(0));
    assert_eq!(delete_reading_by_id(&gateway, 1), Ok(1));
    assert_eq!(delete_reading_by_id(&gateway, 1), Ok(0));
    assert_eq!(query_reading_by_id(&gateway, 1), Err(DbError::NotFound));
}

#[test]
fn filter_finds_the_readings_of_a_book() {
    let (gateway, _anchor) = reading_store("filter_finds_the_readings_of_a_book");
    for book in [12, 13, 12] {
        let mut reading = a_reading();
        reading.book = book;
        assert_eq!(write_reading_to_db(&gateway, reading), Ok(1));
    }
    let found = query_readings_by_filter(&gateway, "book".to_string(), "12".to_string()).unwrap();
    assert_eq!(found.iter().map(|reading| reading.id).collect::<Vec<_>>(), vec![Some(1), Some(3)]);
    assert_eq!(
        query_readings_by_filter(&gateway, "end_date".to_string(), "never".to_string()),
        Ok(vec![])
    );
    assert_eq!(
        query_readings_by_filter(&gateway, "id".to_string(), "1".to_string()),
        Err(DbError::InvalidColumn("id".to_string()))
    );
    assert_eq!(
        query_readings_by_filter(&gateway, "title".to_string(), "T".to_string()),
        Err(DbError::Store("no such column: title".to_string()))
    );
}
