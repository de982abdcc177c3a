//! Reading the cells of a row that the store gave back.
//!
//! A column of a record is a whole number that fits `u32` or a text, and may
//! or may not take the store's null. Any other cell is an error that names
//! the column.

use vstd::prelude::*;
use crate::db_storage::{row_view, DbError, DbErrorView, SqlValue, SqlValueView};

verus! {

/// The number in column `column`, which must hold one.
pub open spec fn number_cell(row: Seq<SqlValueView>, column: usize) -> Result<u32, DbErrorView> {
    if column < row.len() {
        match row[column as int] {
            SqlValueView::Integer(n) if 0 <= n <= u32::MAX => Ok(n as u32),
            _ => Err(DbErrorView::InvalidCell(column)),
        }
    } else {
        Err(DbErrorView::InvalidCell(column))
    }
}

/// The number in column `column`, or nothing where the cell is null.
pub open spec fn optional_number_cell(row: Seq<SqlValueView>, column: usize) -> Result<
    Option<u32>,
    DbErrorView,
> {
    if column < row.len() {
        match row[column as int] {
            SqlValueView::Null => Ok(None),
            SqlValueView::Integer(n) if 0 <= n <= u32::MAX => Ok(Some(n as u32)),
            _ => Err(DbErrorView::InvalidCell(column)),
        }
    } else {
        Err(DbErrorView::InvalidCell(column))
    }
}

/// The text in column `column`, which must hold one.
pub open spec fn text_cell(row: Seq<SqlValueView>, column: usize) -> Result<
    Seq<char>,
    DbErrorView,
> {
    if column < row.len() {
        match row[column as int] {
            SqlValueView::Text(t) => Ok(t),
            _ => Err(DbErrorView::InvalidCell(column)),
        }
    } else {
        Err(DbErrorView::InvalidCell(column))
    }
}

/// The text in column `column`, or nothing where the cell is null.
pub open spec fn optional_text_cell(row: Seq<SqlValueView>, column: usize) -> Result<
    Option<Seq<char>>,
    DbErrorView,
> {
    if column < row.len() {
        match row[column as int] {
            SqlValueView::Null => Ok(None),
            SqlValueView::Text(t) => Ok(Some(t)),
            _ => Err(DbErrorView::InvalidCell(column)),
        }
    } else {
        Err(DbErrorView::InvalidCell(column))
    }
}

/// Reads the number in column `column`.
pub fn read_number(row: &Vec<SqlValue>, column: usize) -> (read: Result<u32, DbError>)
    ensures
        match read {
            Ok(n) => number_cell(row_view(row@), column) == Ok::<u32, DbErrorView>(n),
            Err(error) => number_cell(row_view(row@), column) == Err::<u32, DbErrorView>(error@),
        },
{
    if column < row.len() {
        match &row[column] {
            SqlValue::Integer(n) => {
                if 0 <= *n && *n <= 0xffff_ffff {
                    Ok(*n as u32)
                } else {
                    Err(DbError::InvalidCell(column))
                }
            },
            _ => Err(DbError::InvalidCell(column)),
        }
    } else {
        Err(DbError::InvalidCell(column))
    }
}

/// Reads the number in column `column`, if the cell is not null.
pub fn read_optional_number(row: &Vec<SqlValue>, column: usize) -> (read: Result<
    Option<u32>,
    DbError,
>)
    ensures
        match read {
            Ok(n) => optional_number_cell(row_view(row@), column) == Ok::<Option<u32>, DbErrorView>(
                n,
            ),
            Err(error) => optional_number_cell(row_view(row@), column) == Err::<
                Option<u32>,
                DbErrorView,
            >(error@),
        },
{
    if column < row.len() {
        match &row[column] {
            SqlValue::Null => Ok(None),
            SqlValue::Integer(n) => {
                if 0 <= *n && *n <= 0xffff_ffff {
                    Ok(Some(*n as u32))
                } else {
                    Err(DbError::InvalidCell(column))
                }
            },
            _ => Err(DbError::InvalidCell(column)),
        }
    } else {
        Err(DbError::InvalidCell(column))
    }
}

/// Reads the text in column `column`.
pub fn read_text(row: &Vec<SqlValue>, column: usize) -> (read: Result<String, DbError>)
    ensures
        match read {
            Ok(t) => text_cell(row_view(row@), column) == Ok::<Seq<char>, DbErrorView>(t@),
            Err(error) => text_cell(row_view(row@), column) == Err::<Seq<char>, DbErrorView>(
                error@,
            ),
        },
{
    if column < row.len() {
        match &row[column] {
            SqlValue::Text(t) => Ok(t.clone()),
            _ => Err(DbError::InvalidCell(column)),
        }
    } else {
        Err(DbError::InvalidCell(column))
    }
}

/// Reads the text in column `column`, if the cell is not null.
pub fn read_optional_text(row: &Vec<SqlValue>, column: usize) -> (read: Result<
    Option<String>,
    DbError,
>)
    ensures
        match read {
            Ok(Some(t)) => optional_text_cell(row_view(row@), column) == Ok::<
                Option<Seq<char>>,
                DbErrorView,
            >(Some(t@)),
            Ok(None) => optional_text_cell(row_view(row@), column) == Ok::<
                Option<Seq<char>>,
                DbErrorView,
            >(None),
            Err(error) => optional_text_cell(row_view(row@), column) == Err::<
                Option<Seq<char>>,
                DbErrorView,
            >(error@),
        },
{
    if column < row.len() {
        match &row[column] {
            SqlValue::Null => Ok(None),
            SqlValue::Text(t) => Ok(Some(t.clone())),
            _ => Err(DbError::InvalidCell(column)),
        }
    } else {
        Err(DbError::InvalidCell(column))
    }
}

} // verus!
