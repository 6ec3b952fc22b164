//! What comes back from the database.
use vstd::prelude::*;
use vstd::string::StringExecFns;
use vstd::utf8::{decode_utf8, valid_utf8};

use crate::error::{HarnessInfraError, Result};
use crate::number::{decimal, signed_decimal, signed_text, unsigned_text};

verus! {

/// A cell of a query's result.
#[derive(Debug, Clone, PartialEq, Eq)]
pub enum SqlCell {
    Null,
    Integer(i64),
    /// A floating point number, in the shortest decimal text that gives it back.
    Real(String),
    /// The bytes of a text, which need not be valid UTF-8.
    Text(Vec<u8>),
    Blob(Vec<u8>),
}

/// What `String::from_utf8_lossy` makes of `bytes`.
pub uninterp spec fn lossy_text(bytes: Seq<u8>) -> Seq<char>;

/// `String::from_utf8_lossy`: the text that `bytes` encode, where they are valid UTF-8. In
/// other bytes each malformed sequence becomes a replacement character; which sequences
/// count as one is left to the name of the result.
#[verifier::external_body]
pub(crate) fn from_utf8_lossy(bytes: &[u8]) -> (r: String)
    ensures
        r@ == lossy_text(bytes@),
        valid_utf8(bytes@) ==> r@ == decode_utf8(bytes@),
{
    String::from_utf8_lossy(bytes).into_owned()
}

/// How a cell is shown. A blob is shown by its length alone.
pub open spec fn shown(cell: SqlCell) -> Seq<char> {
    match cell {
        SqlCell::Null => Seq::empty(),
        SqlCell::Integer(value) => signed_decimal(value as int),
        SqlCell::Real(text) => text@,
        SqlCell::Text(bytes) => lossy_text(bytes@),
        SqlCell::Blob(bytes) => "<"@ + decimal(bytes@.len()) + " bytes>"@,
    }
}

/// How a cell is shown.
pub fn sql_value_to_string(value: &SqlCell) -> (r: String)
    ensures
        r@ == shown(*value),
        value matches SqlCell::Text(bytes) ==> valid_utf8(bytes@) ==> r@ == decode_utf8(bytes@),
{
    match value {
        SqlCell::Null => String::new(),
        SqlCell::Integer(value) => signed_text(*value),
        SqlCell::Real(text) => text.clone(),
        SqlCell::Text(bytes) => from_utf8_lossy(bytes.as_slice()),
        SqlCell::Blob(bytes) => {
            let mut r = "<".to_owned();
            r.append(unsigned_text(bytes.len() as u64).as_str());
            r.append(" bytes>");
            r
        },
    }
}

/// The result of a query, as text.
#[derive(Debug)]
pub struct QueryTable {
    pub headers: Vec<String>,
    pub rows: Vec<Vec<String>>,
}

/// How the rows of a query are shown.
pub open spec fn shown_rows(rows: Seq<Vec<SqlCell>>) -> Seq<Seq<Seq<char>>> {
    rows.map_values(|row: Vec<SqlCell>| shown_row(row))
}

pub open spec fn shown_row(row: Vec<SqlCell>) -> Seq<Seq<char>> {
    row@.map_values(|cell: SqlCell| shown(cell))
}

fn show_row(row: &Vec<SqlCell>) -> (r: Vec<String>)
    ensures
        r.deep_view() == shown_row(*row),
{
    let ghost show = |cell: SqlCell| shown(cell);
    let mut r: Vec<String> = Vec::new();
    let mut i: usize = 0;
    while i < row.len()
        invariant
            i <= row.len(),
            show == (|cell: SqlCell| shown(cell)),
            r.deep_view() == row@.take(i as int).map_values(show),
        decreases row.len() - i,
    {
        let ghost before = r.deep_view();
        r.push(sql_value_to_string(&row[i]));
        assert(r.deep_view() =~= before.push(shown(row@[i as int])));
        assert(r.deep_view() =~= row@.take(i + 1).map_values(show));
        i = i + 1;
    }
    assert(row@.take(i as int) =~= row@);
    r
}

/// The result of a query with the column names `headers`.
pub fn query_table(headers: Vec<String>, rows: &[Vec<SqlCell>]) -> (r: QueryTable)
    ensures
        r.headers == headers,
        r.rows.deep_view() == shown_rows(rows@),
{
    let ghost show = |row: Vec<SqlCell>| shown_row(row);
    let mut texts: Vec<Vec<String>> = Vec::new();
    let mut i: usize = 0;
    while i < rows.len()
        invariant
            i <= rows.len(),
            show == (|row: Vec<SqlCell>| shown_row(row)),
            texts.deep_view() == rows@.take(i as int).map_values(show),
        decreases rows.len() - i,
    {
        let ghost before = texts.deep_view();
        texts.push(show_row(&rows[i]));
        assert(texts.deep_view() =~= before.push(shown_row(rows@[i as int])));
        assert(texts.deep_view() =~= rows@.take(i + 1).map_values(show));
        i = i + 1;
    }
    assert(rows@.take(i as int) =~= rows@);
    QueryTable { headers, rows: texts }
}

/// Whether `rows` came back without an error.
pub open spec fn all_ok<T>(rows: Seq<std::result::Result<T, rusqlite::Error>>) -> bool {
    forall|i: int| 0 <= i < rows.len() ==> (#[trigger] rows[i]) is Ok
}

/// The rows that came back, or the first error among them.
pub fn collect_rows<T>(rows: Vec<std::result::Result<T, rusqlite::Error>>) -> (r: Result<Vec<T>>)
    ensures
        match r {
            Ok(values) => {
                &&& all_ok(rows@)
                &&& values@ == rows@.map_values(
                    |row: std::result::Result<T, rusqlite::Error>| row->Ok_0,
                )
            },
            Err(error) => exists|i: int|
                {
                    &&& 0 <= i < rows@.len()
                    &&& all_ok(rows@.take(i))
                    &&& (#[trigger] rows@[i]) is Err
                    &&& error == HarnessInfraError::Sqlite(rows@[i]->Err_0)
                },
        },
{
    let ghost all = rows@;
    let ghost value = |row: std::result::Result<T, rusqlite::Error>| row->Ok_0;
    let mut values: Vec<T> = Vec::new();
    for row in it: rows
        invariant
            it.seq() == all,
            value == (|row: std::result::Result<T, rusqlite::Error>| row->Ok_0),
            all_ok(all.take(it.index() as int)),
            values@ == all.take(it.index() as int).map_values(value),
    {
        let ghost i = it.index() as int;
        assert(row == all[i]);
        match row {
            Ok(found) => {
                let ghost before = values@;
                values.push(found);
                assert(values@ =~= all.take(i + 1).map_values(value));
                assert forall|j: int| 0 <= j < i + 1 implies (#[trigger] all.take(i + 1)[j]) is Ok by {
                    if j < i {
                        assert(all.take(i)[j] is Ok);
                    }
                }
            },
            Err(error) => {
                return Err(HarnessInfraError::from(error));
            },
        }
    }
    assert(all.take(all.len() as int) =~= all);
    Ok(values)
}

/// Whether `rusqlite::OptionalExtension::optional` takes an error to say that there is no row.
pub uninterp spec fn says_no_row(error: rusqlite::Error) -> bool;

/// `rusqlite::OptionalExtension::optional` on the outcome of a query for one row: a row stays
/// a row, and of the errors the one that says that there is no row becomes `None` while any
/// other stays as it is.
#[verifier::external_body]
pub(crate) fn optional<T>(row: std::result::Result<T, rusqlite::Error>) -> (r: std::result::Result<
    Option<T>,
    rusqlite::Error,
>)
    ensures
        match row {
            Ok(value) => r == Ok::<Option<T>, rusqlite::Error>(Some(value)),
            Err(error) => r == if says_no_row(error) {
                Ok::<Option<T>, rusqlite::Error>(None)
            } else {
                Err(error)
            },
        },
{
    rusqlite::OptionalExtension::optional(row)
}

/// The row that a query for one row found, if there is one.
pub fn find_row<T>(row: std::result::Result<T, rusqlite::Error>) -> (r: Result<Option<T>>)
    ensures
        match row {
            Ok(value) => r == Ok::<Option<T>, HarnessInfraError>(Some(value)),
            Err(error) => r == if says_no_row(error) {
                Ok::<Option<T>, HarnessInfraError>(None)
            } else {
                Err(HarnessInfraError::Sqlite(error))
            },
        },
{
    match optional(row) {
        Ok(found) => Ok(found),
        Err(error) => Err(HarnessInfraError::from(error)),
    }
}

} // verus!
