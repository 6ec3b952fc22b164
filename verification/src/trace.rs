//! Traces of finished tasks, and the interventions in them.
use vstd::prelude::*;

use crate::error::{HarnessInfraError, Result};
use crate::query::{find_row, says_no_row};
use crate::statement::{
    integer_data, optional_integer_param, optional_text_param, text_data, text_param, SqlData,
    SqlParam, SqlStatement, SqlText,
};

verus! {

/// A trace to record. Its lists are JSON texts, where there are any.
#[derive(Debug)]
pub struct TraceInput {
    pub task_summary: String,
    pub intake_id: Option<i64>,
    pub story_id: Option<String>,
    pub agent: Option<String>,
    pub actions: Option<String>,
    pub files_read: Option<String>,
    pub files_changed: Option<String>,
    pub decisions: Option<String>,
    pub errors: Option<String>,
    pub outcome: Option<String>,
    pub duration_seconds: Option<i64>,
    pub token_estimate: Option<i64>,
    pub friction: Option<String>,
    pub notes: Option<String>,
}

/// A recorded trace.
#[derive(Debug, Clone, PartialEq, Eq)]
pub struct TraceRecord {
    pub id: i64,
    pub created_at: String,
    pub outcome: Option<String>,
    pub task_summary: String,
    pub harness_friction: Option<String>,
}

/// The friction of a trace, with the intake that the trace belongs to.
#[derive(Debug, Clone, PartialEq, Eq)]
pub struct FrictionRecord {
    pub id: i64,
    pub created_at: String,
    pub risk_lane: Option<String>,
    pub input_type: Option<String>,
    pub task_summary: String,
    pub harness_friction: String,
}

/// What the score of a trace rests on.
#[derive(Debug, Clone, PartialEq, Eq)]
pub struct TraceScoreSource {
    pub id: i64,
    pub task_summary: String,
    pub intake_id: Option<i64>,
    pub risk_lane: Option<String>,
    pub agent: Option<String>,
    pub actions_taken: Option<String>,
    pub files_read: Option<String>,
    pub files_changed: Option<String>,
    pub decisions_made: Option<String>,
    pub errors: Option<String>,
    pub outcome: Option<String>,
    pub duration_seconds: Option<i64>,
    pub token_estimate: Option<i64>,
    pub harness_friction: Option<String>,
    pub notes: Option<String>,
}

/// What the score of the context of a trace rests on.
#[derive(Debug, Clone, PartialEq, Eq)]
pub struct ContextScoreSource {
    pub id: i64,
    pub risk_lane: Option<String>,
    pub story_id: Option<String>,
    pub files_read: Option<String>,
    pub files_changed: Option<String>,
    pub outcome: Option<String>,
}

/// An intervention to add.
#[derive(Debug)]
pub struct InterventionAddInput {
    pub trace_id: Option<i64>,
    pub story_id: Option<String>,
    pub intervention_type: String,
    pub description: String,
    pub source: String,
    pub impact: Option<String>,
}

/// Which interventions to list: those that have all that is given.
#[derive(Debug)]
pub struct InterventionFilter {
    pub trace_id: Option<i64>,
    pub story_id: Option<String>,
    pub intervention_type: Option<String>,
}

/// A recorded intervention.
#[derive(Debug, Clone, PartialEq, Eq)]
pub struct InterventionRecord {
    pub id: i64,
    pub created_at: String,
    pub trace_id: Option<i64>,
    pub story_id: Option<String>,
    pub intervention_type: String,
    pub description: String,
    pub source: String,
    pub impact: Option<String>,
}

pub const RECORD_TRACE: &'static str =
    "INSERT INTO trace (task_summary, intake_id, story_id, agent, actions_taken, \
     files_read, files_changed, decisions_made, errors, outcome, duration_seconds, \
     token_estimate, harness_friction, notes) VALUES (?1, ?2, ?3, ?4, ?5, ?6, ?7, ?8, ?9, \
     ?10, ?11, ?12, ?13, ?14);";

/// What the score of the trace with the given number rests on.
pub const FIND_TRACE_TO_SCORE: &'static str =
    "SELECT trace.id, trace.task_summary, trace.intake_id, intake.risk_lane, trace.agent, \
     trace.actions_taken, trace.files_read, trace.files_changed, trace.decisions_made, \
     trace.errors, trace.outcome, trace.duration_seconds, trace.token_estimate, \
     trace.harness_friction, trace.notes FROM trace LEFT JOIN intake ON intake.id = \
     trace.intake_id WHERE trace.id = ?1";

/// What the score of the last trace rests on.
pub const FIND_LAST_TRACE_TO_SCORE: &'static str =
    "SELECT trace.id, trace.task_summary, trace.intake_id, intake.risk_lane, trace.agent, \
     trace.actions_taken, trace.files_read, trace.files_changed, trace.decisions_made, \
     trace.errors, trace.outcome, trace.duration_seconds, trace.token_estimate, \
     trace.harness_friction, trace.notes FROM trace LEFT JOIN intake ON intake.id = \
     trace.intake_id ORDER BY trace.id DESC LIMIT 1";

pub const FIND_CONTEXT_TO_SCORE: &'static str =
    "SELECT trace.id, intake.risk_lane, trace.story_id, trace.files_read, \
     trace.files_changed, trace.outcome FROM trace LEFT JOIN intake ON intake.id = \
     trace.intake_id WHERE trace.id=?1;";

/// The last twenty traces, the last one first.
pub const QUERY_TRACES: &'static str =
    "SELECT id, created_at, outcome, task_summary, harness_friction FROM trace ORDER BY \
     id DESC LIMIT 20;";

pub const QUERY_FRICTION: &'static str =
    "SELECT trace.id, trace.created_at, intake.risk_lane, intake.input_type, \
     trace.task_summary, trace.harness_friction FROM trace LEFT JOIN intake ON intake.id \
     = trace.intake_id WHERE trace.harness_friction IS NOT NULL ORDER BY trace.id DESC;";

pub const ADD_INTERVENTION: &'static str =
    "INSERT INTO intervention (trace_id, story_id, type, description, source, impact) \
     VALUES (?1, ?2, ?3, ?4, ?5, ?6);";

pub const QUERY_INTERVENTIONS: &'static str =
    "SELECT id, created_at, trace_id, story_id, type, description, source, impact FROM \
     intervention WHERE (?1 IS NULL OR trace_id = ?1) AND (?2 IS NULL OR story_id = ?2) \
     AND (?3 IS NULL OR type = ?3) ORDER BY id DESC;";

/// The statement that records a trace.
pub open spec fn trace_statement(input: TraceInput) -> SqlText {
    SqlText {
        sql: RECORD_TRACE@,
        params: seq![
            SqlData::Text(input.task_summary@),
            integer_data(input.intake_id),
            text_data(input.story_id.deep_view()),
            text_data(input.agent.deep_view()),
            text_data(input.actions.deep_view()),
            text_data(input.files_read.deep_view()),
            text_data(input.files_changed.deep_view()),
            text_data(input.decisions.deep_view()),
            text_data(input.errors.deep_view()),
            text_data(input.outcome.deep_view()),
            integer_data(input.duration_seconds),
            integer_data(input.token_estimate),
            text_data(input.friction.deep_view()),
            text_data(input.notes.deep_view()),
        ],
    }
}

/// The statement that records a trace.
pub fn record_trace(input: &TraceInput) -> (r: SqlStatement)
    ensures
        r.deep_view() == trace_statement(*input),
{
    let params = vec![
        text_param(input.task_summary.as_str()),
        optional_integer_param(input.intake_id),
        optional_text_param(&input.story_id),
        optional_text_param(&input.agent),
        optional_text_param(&input.actions),
        optional_text_param(&input.files_read),
        optional_text_param(&input.files_changed),
        optional_text_param(&input.decisions),
        optional_text_param(&input.errors),
        optional_text_param(&input.outcome),
        optional_integer_param(input.duration_seconds),
        optional_integer_param(input.token_estimate),
        optional_text_param(&input.friction),
        optional_text_param(&input.notes),
    ];
    assert(params.deep_view() =~= trace_statement(*input).params);
    SqlStatement { sql: RECORD_TRACE, params }
}

/// The statement that adds an intervention.
pub open spec fn intervention_statement(input: InterventionAddInput) -> SqlText {
    SqlText {
        sql: ADD_INTERVENTION@,
        params: seq![
            integer_data(input.trace_id),
            text_data(input.story_id.deep_view()),
            SqlData::Text(input.intervention_type@),
            SqlData::Text(input.description@),
            SqlData::Text(input.source@),
            text_data(input.impact.deep_view()),
        ],
    }
}

/// The statement that adds an intervention.
pub fn add_intervention(input: &InterventionAddInput) -> (r: SqlStatement)
    ensures
        r.deep_view() == intervention_statement(*input),
{
    let params = vec![
        optional_integer_param(input.trace_id),
        optional_text_param(&input.story_id),
        text_param(input.intervention_type.as_str()),
        text_param(input.description.as_str()),
        text_param(input.source.as_str()),
        optional_text_param(&input.impact),
    ];
    assert(params.deep_view() =~= intervention_statement(*input).params);
    SqlStatement { sql: ADD_INTERVENTION, params }
}

/// The statement that lists interventions.
pub open spec fn intervention_query(filter: InterventionFilter) -> SqlText {
    SqlText {
        sql: QUERY_INTERVENTIONS@,
        params: seq![
            integer_data(filter.trace_id),
            text_data(filter.story_id.deep_view()),
            text_data(filter.intervention_type.deep_view()),
        ],
    }
}

/// The statement that lists interventions.
pub fn query_interventions(filter: &InterventionFilter) -> (r: SqlStatement)
    ensures
        r.deep_view() == intervention_query(*filter),
{
    let params = vec![
        optional_integer_param(filter.trace_id),
        optional_text_param(&filter.story_id),
        optional_text_param(&filter.intervention_type),
    ];
    assert(params.deep_view() =~= intervention_query(*filter).params);
    SqlStatement { sql: QUERY_INTERVENTIONS, params }
}

/// The statement that looks for the trace to score: the one with the number `id`, or the last
/// one.
pub open spec fn trace_lookup(id: Option<i64>) -> SqlText {
    match id {
        Some(id) => SqlText {
            sql: FIND_TRACE_TO_SCORE@,
            params: seq![SqlData::Integer(id as int)],
        },
        None => SqlText { sql: FIND_LAST_TRACE_TO_SCORE@, params: Seq::empty() },
    }
}

/// The statement that looks for the trace to score.
pub fn find_trace_to_score(id: Option<i64>) -> (r: SqlStatement)
    ensures
        r.deep_view() == trace_lookup(id),
{
    match id {
        Some(number) => {
            let params = vec![SqlParam::Integer(number)];
            assert(params.deep_view() =~= trace_lookup(id).params);
            SqlStatement { sql: FIND_TRACE_TO_SCORE, params }
        },
        None => {
            let params: Vec<SqlParam> = Vec::new();
            assert(params.deep_view() =~= trace_lookup(id).params);
            SqlStatement { sql: FIND_LAST_TRACE_TO_SCORE, params }
        },
    }
}

/// What is missing where there is no trace to score.
pub open spec fn no_trace(id: Option<i64>) -> HarnessInfraError {
    match id {
        Some(id) => HarnessInfraError::TraceNotFound(id),
        None => HarnessInfraError::NoTraces,
    }
}

/// What comes of the search for the trace with the number `id`, or for the last one.
pub open spec fn trace_outcome<T>(id: Option<i64>, found: Option<T>) -> Result<T> {
    match found {
        Some(source) => Ok(source),
        None => Err(no_trace(id)),
    }
}

/// The trace to score, where there is one.
pub fn trace_or_missing<T>(id: Option<i64>, found: Option<T>) -> (r: Result<T>)
    ensures
        r == trace_outcome(id, found),
{
    match found {
        Some(source) => Ok(source),
        None => match id {
            Some(id) => Err(HarnessInfraError::TraceNotFound(id)),
            None => Err(HarnessInfraError::NoTraces),
        },
    }
}

/// What the score of the trace with the number `id`, or of the last one, rests on, by what
/// the query for it gave.
pub fn trace_to_score(
    id: Option<i64>,
    row: std::result::Result<TraceScoreSource, rusqlite::Error>,
) -> (r: Result<TraceScoreSource>)
    ensures
        match row {
            Ok(source) => r == Ok::<TraceScoreSource, HarnessInfraError>(source),
            Err(error) => r == Err::<TraceScoreSource, HarnessInfraError>(
                if says_no_row(error) {
                    no_trace(id)
                } else {
                    HarnessInfraError::Sqlite(error)
                },
            ),
        },
{
    match find_row(row) {
        Ok(found) => trace_or_missing(id, found),
        Err(error) => Err(error),
    }
}

/// The statement that looks for the trace whose context is scored.
pub fn find_context_to_score(id: i64) -> (r: SqlStatement)
    ensures
        r.deep_view() == (SqlText {
            sql: FIND_CONTEXT_TO_SCORE@,
            params: seq![SqlData::Integer(id as int)],
        }),
{
    let params = vec![SqlParam::Integer(id)];
    assert(params.deep_view() =~= seq![SqlData::Integer(id as int)]);
    SqlStatement { sql: FIND_CONTEXT_TO_SCORE, params }
}

/// What the score of the context of the trace with the number `id` rests on, by what the
/// query for it gave.
pub fn context_to_score(
    id: i64,
    row: std::result::Result<ContextScoreSource, rusqlite::Error>,
) -> (r: Result<ContextScoreSource>)
    ensures
        match row {
            Ok(source) => r == Ok::<ContextScoreSource, HarnessInfraError>(source),
            Err(error) => r == Err::<ContextScoreSource, HarnessInfraError>(
                if says_no_row(error) {
                    HarnessInfraError::TraceNotFound(id)
                } else {
                    HarnessInfraError::Sqlite(error)
                },
            ),
        },
{
    match find_row(row) {
        Ok(found) => trace_or_missing(Some(id), found),
        Err(error) => Err(error),
    }
}

} // verus!
