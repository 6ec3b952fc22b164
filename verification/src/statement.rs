//! SQL statements with the values of their parameters.
use vstd::prelude::*;

verus! {

/// The value of a parameter of a statement.
#[derive(Debug, PartialEq, Eq)]
pub enum SqlParam {
    Null,
    Integer(i64),
    Text(String),
}

/// What a parameter holds.
pub enum SqlData {
    Null,
    Integer(int),
    Text(Seq<char>),
}

impl DeepView for SqlParam {
    type V = SqlData;

    open spec fn deep_view(&self) -> SqlData {
        match self {
            SqlParam::Null => SqlData::Null,
            SqlParam::Integer(value) => SqlData::Integer(*value as int),
            SqlParam::Text(value) => SqlData::Text(value@),
        }
    }
}

/// A statement, with its parameters in the order in which they are numbered.
#[derive(Debug, PartialEq, Eq)]
pub struct SqlStatement {
    pub sql: &'static str,
    pub params: Vec<SqlParam>,
}

/// What a statement holds.
#[verifier::ext_equal]
pub struct SqlText {
    pub sql: Seq<char>,
    pub params: Seq<SqlData>,
}

impl DeepView for SqlStatement {
    type V = SqlText;

    open spec fn deep_view(&self) -> SqlText {
        SqlText { sql: self.sql@, params: self.params.deep_view() }
    }
}

/// The parameter for a text that may be missing.
pub open spec fn text_data(value: Option<Seq<char>>) -> SqlData {
    match value {
        Some(text) => SqlData::Text(text),
        None => SqlData::Null,
    }
}

/// The parameter for a number that may be missing.
pub open spec fn integer_data(value: Option<i64>) -> SqlData {
    match value {
        Some(number) => SqlData::Integer(number as int),
        None => SqlData::Null,
    }
}

/// The parameter for a text.
pub fn text_param(value: &str) -> (r: SqlParam)
    ensures
        r.deep_view() == SqlData::Text(value@),
{
    SqlParam::Text(value.to_owned())
}

/// The parameter for a text that may be missing.
pub fn optional_text_param(value: &Option<String>) -> (r: SqlParam)
    ensures
        r.deep_view() == text_data(value.deep_view()),
{
    match value {
        Some(text) => SqlParam::Text(text.clone()),
        None => SqlParam::Null,
    }
}

/// The parameter for a number that may be missing.
pub fn optional_integer_param(value: Option<i64>) -> (r: SqlParam)
    ensures
        r.deep_view() == integer_data(value),
{
    match value {
        Some(number) => SqlParam::Integer(number),
        None => SqlParam::Null,
    }
}

/// The statement `sql` with a text for its only parameter.
pub open spec fn text_statement(sql: Seq<char>, text: Seq<char>) -> SqlText {
    SqlText { sql, params: seq![SqlData::Text(text)] }
}

/// The statement `sql` with a text for its only parameter.
pub fn statement_on_text(sql: &'static str, text: &str) -> (r: SqlStatement)
    ensures
        r.deep_view() == text_statement(sql@, text@),
{
    let params = vec![text_param(text)];
    assert(params.deep_view() =~= text_statement(sql@, text@).params);
    SqlStatement { sql, params }
}

} // verus!
