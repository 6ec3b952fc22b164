//! Intakes: what comes in, sorted by the risk that it carries.
use vstd::prelude::*;

use crate::statement::{optional_text_param, text_data, text_param, SqlData, SqlStatement, SqlText};
use crate::token::RiskLane;

verus! {

/// An intake to record.
#[derive(Debug)]
pub struct IntakeInput {
    /// The spelling of the type of the input in the database.
    pub input_type: String,
    pub summary: String,
    pub risk_lane: RiskLane,
    /// The JSON text of a list, if there is one.
    pub risk_flags: Option<String>,
    /// The JSON text of a list, if there is one.
    pub affected_docs: Option<String>,
    pub story_id: Option<String>,
    pub notes: Option<String>,
}

/// A recorded intake.
#[derive(Debug, Clone, PartialEq, Eq)]
pub struct IntakeRecord {
    pub id: i64,
    pub created_at: String,
    pub input_type: String,
    pub risk_lane: String,
    pub summary: String,
}

pub const RECORD_INTAKE: &'static str =
    "INSERT INTO intake (input_type, summary, risk_lane, risk_flags, affected_docs, \
     story_id, notes) VALUES (?1, ?2, ?3, ?4, ?5, ?6, ?7);";

/// The last twenty intakes, the last one first.
pub const QUERY_INTAKES: &'static str =
    "SELECT id, created_at, input_type, risk_lane, summary FROM intake ORDER BY id DESC \
     LIMIT 20;";

/// The statement that records an intake.
pub open spec fn intake_statement(input: IntakeInput) -> SqlText {
    SqlText {
        sql: RECORD_INTAKE@,
        params: seq![
            SqlData::Text(input.input_type@),
            SqlData::Text(input.summary@),
            SqlData::Text(input.risk_lane.name()),
            text_data(input.risk_flags.deep_view()),
            text_data(input.affected_docs.deep_view()),
            text_data(input.story_id.deep_view()),
            text_data(input.notes.deep_view()),
        ],
    }
}

/// The statement that records an intake.
pub fn record_intake(input: &IntakeInput) -> (r: SqlStatement)
    ensures
        r.deep_view() == intake_statement(*input),
{
    let params = vec![
        text_param(input.input_type.as_str()),
        text_param(input.summary.as_str()),
        text_param(input.risk_lane.as_db_value()),
        optional_text_param(&input.risk_flags),
        optional_text_param(&input.affected_docs),
        optional_text_param(&input.story_id),
        optional_text_param(&input.notes),
    ];
    assert(params.deep_view() =~= intake_statement(*input).params);
    SqlStatement { sql: RECORD_INTAKE, params }
}

} // verus!
