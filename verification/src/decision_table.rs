//! The table of decisions.
use vstd::prelude::*;

use crate::statement::{optional_text_param, text_data, text_param, SqlData, SqlStatement, SqlText};

verus! {

/// A decision to add.
#[derive(Debug)]
pub struct DecisionAddInput {
    pub id: String,
    pub title: String,
    pub status: String,
    pub doc_path: Option<String>,
    pub verify_command: Option<String>,
    pub predicted_impact: Option<String>,
    pub notes: Option<String>,
}

/// A recorded decision.
#[derive(Debug, Clone, PartialEq, Eq)]
pub struct DecisionRecord {
    pub id: String,
    pub title: String,
    pub status: String,
    pub last_verified_at: Option<String>,
    pub last_verified_result: Option<String>,
}

pub const ADD_DECISION: &'static str =
    "INSERT INTO decision (id, title, status, doc_path, verify_command, predicted_impact, \
     notes) VALUES (?1, ?2, ?3, ?4, ?5, ?6, ?7);";

pub const QUERY_DECISIONS: &'static str =
    "SELECT id, title, status, last_verified_at, last_verified_result FROM decision ORDER \
     BY id;";

/// The statement that adds a decision.
pub open spec fn decision_statement(input: DecisionAddInput) -> SqlText {
    SqlText {
        sql: ADD_DECISION@,
        params: seq![
            SqlData::Text(input.id@),
            SqlData::Text(input.title@),
            SqlData::Text(input.status@),
            text_data(input.doc_path.deep_view()),
            text_data(input.verify_command.deep_view()),
            text_data(input.predicted_impact.deep_view()),
            text_data(input.notes.deep_view()),
        ],
    }
}

/// The statement that adds a decision.
pub fn add_decision(input: &DecisionAddInput) -> (r: SqlStatement)
    ensures
        r.deep_view() == decision_statement(*input),
{
    let params = vec![
        text_param(input.id.as_str()),
        text_param(input.title.as_str()),
        text_param(input.status.as_str()),
        optional_text_param(&input.doc_path),
        optional_text_param(&input.verify_command),
        optional_text_param(&input.predicted_impact),
        optional_text_param(&input.notes),
    ];
    assert(params.deep_view() =~= decision_statement(*input).params);
    SqlStatement { sql: ADD_DECISION, params }
}

} // verus!
