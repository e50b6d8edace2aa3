//! The boundary with the SQLite driver: its types, and the few calls that read
//! a fetched row or describe a failure. Opening a connection and running a
//! statement are asynchronous and happen outside this library; their outcomes
//! come back in as values of these types.
use vstd::prelude::*;

verus! {

/// A row that the driver fetched; opaque, read through the wrappers below.
#[verifier::external_type_specification]
#[verifier::external_body]
pub struct ExSqliteRow(sqlx::sqlite::SqliteRow);

/// A column of a fetched row; opaque, read through `column_name`.
#[verifier::external_type_specification]
#[verifier::external_body]
pub struct ExSqliteColumn(sqlx::sqlite::SqliteColumn);

/// The driver's error; opaque, described through `error_text`.
#[verifier::external_type_specification]
#[verifier::external_body]
pub struct ExError(sqlx::Error);

/// A handle to an open database session: the driver's pool of connections to
/// one database. Opaque here; the gateway opens it and runs statements on it.
/// The driver's `Pool` type cannot be declared directly (its parameter is
/// bounded by the driver's `Database` trait), so it is held in this field.
#[verifier::external_body]
pub struct Connection {
    pub pool: sqlx::SqlitePool,
}

impl Connection {
    /// Relies on `Pool::clone`: the copy is a handle to the same shared pool.
    #[verifier::external_body]
    pub fn share(&self) -> (r: Connection)
        ensures
            r == *self,
    {
        Connection { pool: self.pool.clone() }
    }
}

/// The number of columns of a fetched row.
pub uninterp spec fn column_count_of(row: sqlx::sqlite::SqliteRow) -> usize;

/// The name of the column at position `i` of a fetched row.
pub uninterp spec fn column_name_of(row: sqlx::sqlite::SqliteRow, i: usize) -> Seq<char>;

/// The name that a column description carries.
pub uninterp spec fn column_label(column: sqlx::sqlite::SqliteColumn) -> Seq<char>;

/// The value at position `i` of a fetched row as text: `None` when it cannot
/// be read as text, `Some(None)` for SQL NULL.
pub uninterp spec fn cell_of(row: sqlx::sqlite::SqliteRow, i: usize) -> Option<Option<Seq<char>>>;

/// Relies on `Row::len`: the number of columns of a fetched row.
#[verifier::external_body]
pub(crate) fn column_count(row: &sqlx::sqlite::SqliteRow) -> (r: usize)
    ensures
        r == column_count_of(*row),
{
    sqlx::Row::len(row)
}

/// Relies on `Row::try_column` with a `usize` index: the column at position
/// `i`, an error only past the last one.
#[verifier::external_body]
pub(crate) fn try_column(row: &sqlx::sqlite::SqliteRow, i: usize) -> (r: Result<
    &sqlx::sqlite::SqliteColumn,
    sqlx::Error,
>)
    ensures
        i < column_count_of(*row) ==> r is Ok,
        r matches Ok(c) ==> column_label(*c) == column_name_of(*row, i),
{
    sqlx::Row::try_column(row, i)
}

/// Relies on `Column::name`: the name under which the statement returned a column.
#[verifier::external_body]
pub(crate) fn column_name(column: &sqlx::sqlite::SqliteColumn) -> (r: String)
    ensures
        r@ == column_label(*column),
{
    sqlx::Column::name(column).to_string()
}

/// Relies on `Row::try_get_unchecked` decoding an optional `&str`: the value at
/// position `i` as SQLite renders it as text, `None` for SQL NULL, or an error
/// past the last column or for a value that is not valid UTF-8.
#[verifier::external_body]
pub(crate) fn cell_text(row: &sqlx::sqlite::SqliteRow, i: usize) -> (r: Result<Option<String>, sqlx::Error>)
    ensures
        r is Ok <==> cell_of(*row, i) is Some,
        r matches Ok(v) ==> match v {
            Option::Some(t) => cell_of(*row, i) == Option::Some(Option::Some(t@)),
            Option::None => cell_of(*row, i) == Option::Some(Option::<Seq<char>>::None),
        },
{
    match sqlx::Row::try_get_unchecked::<Option<&str>, usize>(row, i) {
        Ok(v) => Ok(v.map(|s| s.to_string())),
        Err(e) => Err(e),
    }
}

/// Relies on the `Display` impl of `sqlx::Error`: the driver's description of a failure.
#[verifier::external_body]
pub(crate) fn error_text(e: &sqlx::Error) -> String {
    e.to_string()
}

} // verus!
