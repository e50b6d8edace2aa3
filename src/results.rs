//! Query outcomes: the materialised result set and the failures a database
//! operation can end in.
use crate::gateway::{
    cell_of, cell_text, column_count, column_count_of, column_name, column_name_of, error_text,
    try_column,
};
use vstd::prelude::*;

verus! {

/// Why a database operation did not produce what was asked of it.
pub enum DbError {
    /// A connection could not be opened; holds the reason.
    ConnectionFailure(String),
    /// A statement could not be run, or its rows could not be read; holds the reason.
    QueryFailure(String),
    /// A statement was to be run while no connection was open.
    NoActiveConnection,
}

/// The reason given when the rows of one statement do not share their columns.
pub const COLUMNS_DIFFER: &'static str = "the rows of the result do not share their columns";

/// A result set as a mathematical value.
pub enum ResultSetView {
    Empty,
    Populated { column_names: Seq<Seq<char>>, rows: Seq<Seq<Seq<char>>> },
}

impl ResultSetView {
    /// Every row holds one value per column.
    pub open spec fn well_formed(self) -> bool {
        match self {
            ResultSetView::Empty => true,
            ResultSetView::Populated { column_names, rows } => forall|i: int|
                0 <= i < rows.len() ==> #[trigger] rows[i].len() == column_names.len(),
        }
    }
}

/// The rows that the last successful statement returned, as display text.
/// A row with fewer or more values than there are columns cannot be built.
pub struct ResultSet {
    populated: bool,
    column_names: Vec<String>,
    rows: Vec<Vec<String>>,
}

impl View for ResultSet {
    type V = ResultSetView;

    closed spec fn view(&self) -> ResultSetView {
        if self.populated {
            ResultSetView::Populated {
                column_names: self.column_names.deep_view(),
                rows: self.rows.deep_view(),
            }
        } else {
            ResultSetView::Empty
        }
    }
}

impl ResultSet {
    #[verifier::type_invariant]
    spec fn shape(self) -> bool {
        &&& self@.well_formed()
        &&& !self.populated ==> self.column_names@.len() == 0 && self.rows@.len() == 0
    }

    /// No result yet.
    pub fn empty() -> (r: ResultSet)
        ensures
            r@ == ResultSetView::Empty,
    {
        ResultSet { populated: false, column_names: Vec::new(), rows: Vec::new() }
    }

    pub fn is_populated(&self) -> (r: bool)
        ensures
            r == (self@ is Populated),
    {
        self.populated
    }

    /// The column names, none for an empty result set.
    pub fn column_names(&self) -> (r: &Vec<String>)
        ensures
            r.deep_view() == match self@ {
                ResultSetView::Empty => Seq::<Seq<char>>::empty(),
                ResultSetView::Populated { column_names, .. } => column_names,
            },
    {
        proof {
            use_type_invariant(self);
        }
        &self.column_names
    }

    /// The rows, none for an empty result set.
    pub fn rows(&self) -> (r: &Vec<Vec<String>>)
        ensures
            r.deep_view() == match self@ {
                ResultSetView::Empty => Seq::<Seq<Seq<char>>>::empty(),
                ResultSetView::Populated { rows, .. } => rows,
            },
    {
        proof {
            use_type_invariant(self);
        }
        &self.rows
    }
}

/// A fetched row as the gateway reads it: (column name, value as text), in column order.
pub type Record = Vec<(String, String)>;

pub open spec fn names_of(record: Seq<(Seq<char>, Seq<char>)>) -> Seq<Seq<char>> {
    record.map_values(|c: (Seq<char>, Seq<char>)| c.0)
}

pub open spec fn values_of(record: Seq<(Seq<char>, Seq<char>)>) -> Seq<Seq<char>> {
    record.map_values(|c: (Seq<char>, Seq<char>)| c.1)
}

/// Every record names the same columns, in the same order, as the first.
pub open spec fn columns_agree(records: Seq<Seq<(Seq<char>, Seq<char>)>>) -> bool {
    forall|i: int| 0 <= i < records.len() ==> names_of(#[trigger] records[i]) == names_of(records[0])
}

/// The result set that records sharing their columns make: the first record's
/// column names (none without records), and each record's values.
pub open spec fn table_of(records: Seq<Seq<(Seq<char>, Seq<char>)>>) -> ResultSetView {
    ResultSetView::Populated {
        column_names: if records.len() == 0 {
            Seq::empty()
        } else {
            names_of(records[0])
        },
        rows: records.map_values(|r: Seq<(Seq<char>, Seq<char>)>| values_of(r)),
    }
}

impl ResultSet {
    /// Builds the result set of a statement from its records. Records that do not
    /// all name the same columns are refused: such rows are not representable.
    pub fn from_records(records: &Vec<Record>) -> (r: Result<ResultSet, DbError>)
        ensures
            columns_agree(records.deep_view()) ==> (r matches Ok(rs) && rs@ == table_of(
                records.deep_view(),
            )),
            !columns_agree(records.deep_view()) ==> r matches Err(DbError::QueryFailure(_)),
    {
        let ghost recs = records.deep_view();
        let mut names: Vec<String> = Vec::new();
        if records.len() > 0 {
            let first = &records[0];
            let mut j: usize = 0;
            while j < first.len()
                invariant
                    records.len() > 0,
                    first == records@[0],
                    recs == records.deep_view(),
                    j <= first.len(),
                    names.deep_view() == names_of(recs[0]).take(j as int),
                decreases first.len() - j,
            {
                proof {
                    assert(recs[0] == first.deep_view());
                    assert(recs[0][j as int] == first@[j as int].deep_view());
                }
                let ghost before = names.deep_view();
                let name = first[j].0.clone();
                assert(name@ == recs[0][j as int].0);
                names.push(name);
                j = j + 1;
                proof {
                    assert(names.deep_view() =~= before.push(name@));
                    assert(names.deep_view() =~= names_of(recs[0]).take(j as int));
                }
            }
            proof {
                assert(names.deep_view() =~= names_of(recs[0]));
            }
        }
        let mut rows: Vec<Vec<String>> = Vec::new();
        let mut i: usize = 0;
        while i < records.len()
            invariant
                recs == records.deep_view(),
                i <= records.len(),
                names.deep_view() == table_of(recs)->column_names,
                forall|k: int| 0 <= k < i ==> names_of(#[trigger] recs[k]) == names_of(recs[0]),
                rows.deep_view() == table_of(recs)->rows.take(i as int),
            decreases records.len() - i,
        {
            let record = &records[i];
            proof {
                assert(recs[i as int] == record.deep_view());
            }
            if record.len() != names.len() {
                proof {
                    assert(names_of(recs[i as int]).len() != names_of(recs[0]).len());
                }
                return Err(DbError::QueryFailure(String::from_str(COLUMNS_DIFFER)));
            }
            let mut row: Vec<String> = Vec::new();
            let mut j: usize = 0;
            while j < record.len()
                invariant
                    recs == records.deep_view(),
                    i < records.len(),
                    record == records@[i as int],
                    record.len() == names.len(),
                    names.deep_view() == names_of(recs[0]),
                    j <= record.len(),
                    names_of(recs[i as int]).take(j as int) == names_of(recs[0]).take(j as int),
                    row.deep_view() == values_of(recs[i as int]).take(j as int),
                decreases record.len() - j,
            {
                if record[j].0 != names[j] {
                    proof {
                        assert(names_of(recs[i as int])[j as int] != names_of(recs[0])[j as int]);
                    }
                    return Err(DbError::QueryFailure(String::from_str(COLUMNS_DIFFER)));
                }
                proof {
                    assert(recs[i as int][j as int] == record@[j as int].deep_view());
                }
                let ghost before = row.deep_view();
                let value = record[j].1.clone();
                assert(value@ == recs[i as int][j as int].1);
                row.push(value);
                j = j + 1;
                proof {
                    assert(row.deep_view() =~= before.push(value@));
                    assert(names_of(recs[i as int]).take(j as int) =~= names_of(recs[0]).take(
                        j as int,
                    ));
                    assert(row.deep_view() =~= values_of(recs[i as int]).take(j as int));
                }
            }
            proof {
                assert(names_of(recs[i as int]) =~= names_of(recs[i as int]).take(j as int));
                assert(names_of(recs[0]) =~= names_of(recs[0]).take(j as int));
                assert(row.deep_view() =~= values_of(recs[i as int]));
            }
            let ghost before = rows.deep_view();
            rows.push(row);
            i = i + 1;
            proof {
                assert(rows.deep_view() =~= before.push(values_of(recs[i - 1])));
                assert(rows.deep_view() =~= table_of(recs)->rows.take(i as int));
            }
        }
        proof {
            assert(rows.deep_view() =~= table_of(recs)->rows);
            assert(columns_agree(recs));
        }
        Ok(ResultSet { populated: true, column_names: names, rows })
    }
}

/// Records that share their columns make a result set in which every row holds
/// one value per column.
pub proof fn lemma_table_well_formed(records: Seq<Seq<(Seq<char>, Seq<char>)>>)
    requires
        columns_agree(records),
    ensures
        table_of(records).well_formed(),
{
    assert forall|i: int| 0 <= i < records.len() implies #[trigger] table_of(records)->rows[i].len()
        == table_of(records)->column_names.len() by {
        assert(names_of(records[i]) == names_of(records[0]));
    }
}

impl DbError {
    /// A statement that the driver reports as failed.
    pub(crate) fn from_driver(e: &sqlx::Error) -> (r: DbError)
        ensures
            r is QueryFailure,
    {
        DbError::QueryFailure(error_text(e))
    }
}

/// The text of a cell as the result set shows it: SQL NULL, and a cell that
/// cannot be read, as empty text.
pub open spec fn cell_text_of(row: sqlx::sqlite::SqliteRow, i: usize) -> Seq<char> {
    match cell_of(row, i) {
        Option::Some(Option::Some(t)) => t,
        _ => Seq::empty(),
    }
}

/// What a fetched row holds: (column name, value as text), in column order.
pub open spec fn record_of(row: sqlx::sqlite::SqliteRow) -> Seq<(Seq<char>, Seq<char>)> {
    Seq::new(
        column_count_of(row) as nat,
        |j: int| (column_name_of(row, j as usize), cell_text_of(row, j as usize)),
    )
}

pub open spec fn records_of(rows: Seq<sqlx::sqlite::SqliteRow>) -> Seq<
    Seq<(Seq<char>, Seq<char>)>,
> {
    rows.map_values(|row: sqlx::sqlite::SqliteRow| record_of(row))
}

/// Every cell of the first `n` columns of a row can be read as text.
pub open spec fn row_readable_upto(row: sqlx::sqlite::SqliteRow, n: int) -> bool {
    forall|j: int| 0 <= j < n ==> (#[trigger] cell_of(row, j as usize)) is Some
}

/// Every cell of every row can be read as text.
pub open spec fn readable(rows: Seq<sqlx::sqlite::SqliteRow>) -> bool {
    forall|i: int|
        0 <= i < rows.len() ==> row_readable_upto(#[trigger] rows[i], column_count_of(rows[i]) as int)
}

impl ResultSet {
    /// Reads the rows that the driver fetched for one statement, each value as
    /// SQLite renders it as text and SQL NULL as empty text, and builds their
    /// result set. It fails exactly when a value cannot be read as text or the
    /// rows do not share their columns.
    pub fn from_sqlite_rows(rows: &Vec<sqlx::sqlite::SqliteRow>) -> (r: Result<ResultSet, DbError>)
        ensures
            readable(rows@) && columns_agree(records_of(rows@)) ==> (r matches Ok(rs) && rs@
                == table_of(records_of(rows@))),
            r matches Ok(rs) ==> rs@ == table_of(records_of(rows@)) && rs@.well_formed(),
            r is Err ==> !readable(rows@) || !columns_agree(records_of(rows@)),
            r matches Err(e) ==> e is QueryFailure,
    {
        let ghost all = records_of(rows@);
        let mut records: Vec<Record> = Vec::new();
        let mut i: usize = 0;
        while i < rows.len()
            invariant
                all == records_of(rows@),
                i <= rows.len(),
                records.deep_view() == all.take(i as int),
                forall|k: int|
                    0 <= k < i ==> row_readable_upto(
                        #[trigger] rows@[k],
                        column_count_of(rows@[k]) as int,
                    ),
            decreases rows.len() - i,
        {
            let row = &rows[i];
            let n: usize = column_count(row);
            let mut record: Record = Vec::new();
            let mut j: usize = 0;
            while j < n
                invariant
                    i < rows.len(),
                    row == rows@[i as int],
                    n == column_count_of(*row),
                    j <= n,
                    record.deep_view() == record_of(*row).take(j as int),
                    row_readable_upto(*row, j as int),
                decreases n - j,
            {
                let column = match try_column(row, j) {
                    Ok(c) => c,
                    Err(e) => {
                        return Err(DbError::from_driver(&e));
                    },
                };
                let value = match cell_text(row, j) {
                    Ok(Option::Some(text)) => text,
                    Ok(Option::None) => String::new(),
                    Err(e) => {
                        proof {
                            assert(!(cell_of(*row, (j as int) as usize) is Some));
                            assert(!row_readable_upto(rows@[i as int], n as int));
                            assert(!readable(rows@));
                        }
                        return Err(DbError::from_driver(&e));
                    },
                };
                let name = column_name(column);
                let ghost before = record.deep_view();
                record.push((name, value));
                j = j + 1;
                proof {
                    assert(record.deep_view() =~= before.push((name@, value@)));
                    assert(record.deep_view() =~= record_of(*row).take(j as int));
                }
            }
            proof {
                assert(record.deep_view() =~= record_of(*row));
            }
            let ghost before = records.deep_view();
            records.push(record);
            i = i + 1;
            proof {
                assert(records.deep_view() =~= before.push(record_of(rows@[i - 1])));
                assert(records.deep_view() =~= all.take(i as int));
            }
        }
        proof {
            assert(records.deep_view() =~= all);
            assert(readable(rows@));
        }
        let r = ResultSet::from_records(&records);
        proof {
            if columns_agree(all) {
                lemma_table_well_formed(all);
            }
        }
        r
    }
}

} // verus!
