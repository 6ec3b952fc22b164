//! The table of backlog items.
use vstd::prelude::*;

use crate::error::{HarnessInfraError, Result};
use crate::statement::{
    optional_text_param, text_data, text_param, SqlData, SqlParam, SqlStatement, SqlText,
};
use crate::token::RiskLane;

verus! {

/// A backlog item to add.
#[derive(Debug)]
pub struct BacklogAddInput {
    pub title: String,
    pub discovered_while: Option<String>,
    pub current_pain: Option<String>,
    pub suggestion: Option<String>,
    pub risk: Option<RiskLane>,
    pub predicted_impact: Option<String>,
    pub notes: Option<String>,
}

/// How a backlog item is closed.
#[derive(Debug)]
pub struct BacklogCloseInput {
    pub id: i64,
    pub status: String,
    pub actual_outcome: Option<String>,
}

/// Which backlog items to list.
#[derive(Debug, Clone, Copy, PartialEq, Eq)]
pub enum BacklogFilter {
    All,
    /// Those that are proposed or accepted.
    Open,
    /// Those that are implemented or rejected.
    Closed,
}

/// A recorded backlog item.
#[derive(Debug, Clone, PartialEq, Eq)]
pub struct BacklogRecord {
    pub id: i64,
    pub title: String,
    pub status: String,
    pub risk: Option<String>,
    pub predicted_impact: Option<String>,
    pub actual_outcome: Option<String>,
}

pub const ADD_BACKLOG: &'static str =
    "INSERT INTO backlog (title, discovered_while, current_pain, suggested_improvement, \
     risk, predicted_impact, notes) VALUES (?1, ?2, ?3, ?4, ?5, ?6, ?7);";

pub const CLOSE_BACKLOG: &'static str =
    "UPDATE backlog SET status=?1, actual_outcome=?2, implemented_at=datetime('now') \
     WHERE id=?3;";

pub const QUERY_BACKLOG: &'static str =
    "SELECT id, title, status, risk, predicted_impact, actual_outcome FROM backlog ORDER \
     BY status, id;";

pub const QUERY_OPEN_BACKLOG: &'static str =
    "SELECT id, title, status, risk, predicted_impact, actual_outcome FROM backlog WHERE \
     status IN ('proposed', 'accepted') ORDER BY status, id;";

pub const QUERY_CLOSED_BACKLOG: &'static str =
    "SELECT id, title, status, risk, predicted_impact, actual_outcome FROM backlog WHERE \
     status IN ('implemented', 'rejected') ORDER BY status, id;";

/// The parameter for a lane that may be missing.
pub open spec fn lane_data(lane: Option<RiskLane>) -> SqlData {
    match lane {
        Some(lane) => SqlData::Text(lane.name()),
        None => SqlData::Null,
    }
}

/// The parameter for a lane that may be missing.
pub fn lane_param(lane: &Option<RiskLane>) -> (r: SqlParam)
    ensures
        r.deep_view() == lane_data(*lane),
{
    match lane {
        Some(lane) => text_param(lane.as_db_value()),
        None => SqlParam::Null,
    }
}

/// The statement that adds a backlog item.
pub open spec fn backlog_statement(input: BacklogAddInput) -> SqlText {
    SqlText {
        sql: ADD_BACKLOG@,
        params: seq![
            SqlData::Text(input.title@),
            text_data(input.discovered_while.deep_view()),
            text_data(input.current_pain.deep_view()),
            text_data(input.suggestion.deep_view()),
            lane_data(input.risk),
            text_data(input.predicted_impact.deep_view()),
            text_data(input.notes.deep_view()),
        ],
    }
}

/// The statement that adds a backlog item.
pub fn add_backlog(input: &BacklogAddInput) -> (r: SqlStatement)
    ensures
        r.deep_view() == backlog_statement(*input),
{
    let params = vec![
        text_param(input.title.as_str()),
        optional_text_param(&input.discovered_while),
        optional_text_param(&input.current_pain),
        optional_text_param(&input.suggestion),
        lane_param(&input.risk),
        optional_text_param(&input.predicted_impact),
        optional_text_param(&input.notes),
    ];
    assert(params.deep_view() =~= backlog_statement(*input).params);
    SqlStatement { sql: ADD_BACKLOG, params }
}

/// The statement that closes a backlog item.
pub open spec fn closing_statement(input: BacklogCloseInput) -> SqlText {
    SqlText {
        sql: CLOSE_BACKLOG@,
        params: seq![
            SqlData::Text(input.status@),
            text_data(input.actual_outcome.deep_view()),
            SqlData::Integer(input.id as int),
        ],
    }
}

/// The statement that closes a backlog item.
pub fn close_backlog(input: &BacklogCloseInput) -> (r: SqlStatement)
    ensures
        r.deep_view() == closing_statement(*input),
{
    let params = vec![
        text_param(input.status.as_str()),
        optional_text_param(&input.actual_outcome),
        SqlParam::Integer(input.id),
    ];
    assert(params.deep_view() =~= closing_statement(*input).params);
    SqlStatement { sql: CLOSE_BACKLOG, params }
}

/// What closing the backlog item `id` comes to, by the number of rows that it changed.
pub fn backlog_closed(id: i64, changes: u64) -> (r: Result<()>)
    ensures
        r == if changes == 0 {
            Err::<(), HarnessInfraError>(HarnessInfraError::BacklogNotFound(id))
        } else {
            Ok(())
        },
{
    if changes == 0 {
        Err(HarnessInfraError::BacklogNotFound(id))
    } else {
        Ok(())
    }
}

impl BacklogFilter {
    /// The query for the items.
    pub open spec fn query(self) -> Seq<char> {
        match self {
            BacklogFilter::All => QUERY_BACKLOG@,
            BacklogFilter::Open => QUERY_OPEN_BACKLOG@,
            BacklogFilter::Closed => QUERY_CLOSED_BACKLOG@,
        }
    }
}

/// The query for the backlog items that pass the filter.
pub fn query_backlog(filter: BacklogFilter) -> (r: &'static str)
    ensures
        r@ == filter.query(),
{
    match filter {
        BacklogFilter::All => QUERY_BACKLOG,
        BacklogFilter::Open => QUERY_OPEN_BACKLOG,
        BacklogFilter::Closed => QUERY_CLOSED_BACKLOG,
    }
}

} // verus!
