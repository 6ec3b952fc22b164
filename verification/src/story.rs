//! Stories: what is to be built, and how far it is proved.
use vstd::prelude::*;

use crate::error::{HarnessInfraError, Result};
use crate::query::{find_row, says_no_row};
use crate::statement::{
    optional_text_param, statement_on_text, text_data, text_param, text_statement, SqlData,
    SqlParam, SqlStatement, SqlText,
};
use crate::token::RiskLane;

verus! {

/// A story to add.
#[derive(Debug)]
pub struct StoryAddInput {
    pub id: String,
    pub title: String,
    pub risk_lane: RiskLane,
    pub contract_doc: Option<String>,
    pub verify_command: Option<String>,
    pub notes: Option<String>,
}

/// A flag as the database keeps it.
#[derive(Debug, Clone, Copy, PartialEq, Eq)]
pub struct BoolFlag(pub i64);

/// What to change of a story: what is given.
#[derive(Debug)]
pub struct StoryUpdateInput {
    pub id: String,
    pub status: Option<String>,
    pub evidence: Option<String>,
    pub unit: Option<BoolFlag>,
    pub integration: Option<BoolFlag>,
    pub e2e: Option<BoolFlag>,
    pub platform: Option<BoolFlag>,
    pub verify_command: Option<String>,
}

/// A story, with the proofs that it has.
#[derive(Debug, Clone, PartialEq, Eq)]
pub struct StoryMatrixRecord {
    pub id: String,
    pub title: String,
    pub status: String,
    pub unit: i64,
    pub integration: i64,
    pub e2e: i64,
    pub platform: i64,
    pub evidence: Option<String>,
}

/// How the verification of a story stands.
#[derive(Debug, Clone, PartialEq, Eq)]
pub struct StoryVerifyStatus {
    pub id: String,
    pub verify_command: Option<String>,
    pub last_verified_result: Option<String>,
}

pub const ADD_STORY: &'static str =
    "INSERT INTO story (id, title, risk_lane, contract_doc, verify_command, notes) VALUES \
     (?1, ?2, ?3, ?4, ?5, ?6);";

pub const UPDATE_STORY: &'static str =
    "UPDATE story SET status=COALESCE(?1, status), evidence=COALESCE(?2, evidence), \
     unit_proof=COALESCE(?3, unit_proof), integration_proof=COALESCE(?4, \
     integration_proof), e2e_proof=COALESCE(?5, e2e_proof), platform_proof=COALESCE(?6, \
     platform_proof), verify_command=COALESCE(?7, verify_command) WHERE id=?8;";

pub const QUERY_MATRIX: &'static str =
    "SELECT id, title, status, unit_proof, integration_proof, e2e_proof, platform_proof, \
     evidence FROM story ORDER BY id;";

pub const QUERY_STORY_VERIFY_STATUS: &'static str =
    "SELECT id, verify_command, last_verified_result FROM story WHERE id=?1;";

/// The statement that adds a story.
pub open spec fn story_statement(input: StoryAddInput) -> SqlText {
    SqlText {
        sql: ADD_STORY@,
        params: seq![
            SqlData::Text(input.id@),
            SqlData::Text(input.title@),
            SqlData::Text(input.risk_lane.name()),
            text_data(input.contract_doc.deep_view()),
            text_data(input.verify_command.deep_view()),
            text_data(input.notes.deep_view()),
        ],
    }
}

/// The statement that adds a story.
pub fn add_story(input: &StoryAddInput) -> (r: SqlStatement)
    ensures
        r.deep_view() == story_statement(*input),
{
    let params = vec![
        text_param(input.id.as_str()),
        text_param(input.title.as_str()),
        text_param(input.risk_lane.as_db_value()),
        optional_text_param(&input.contract_doc),
        optional_text_param(&input.verify_command),
        optional_text_param(&input.notes),
    ];
    assert(params.deep_view() =~= story_statement(*input).params);
    SqlStatement { sql: ADD_STORY, params }
}

/// The parameter for a flag that may be missing.
pub open spec fn flag_data(value: Option<BoolFlag>) -> SqlData {
    match value {
        Some(flag) => SqlData::Integer(flag.0 as int),
        None => SqlData::Null,
    }
}

fn flag_param(value: Option<BoolFlag>) -> (r: SqlParam)
    ensures
        r.deep_view() == flag_data(value),
{
    match value {
        Some(flag) => SqlParam::Integer(flag.0),
        None => SqlParam::Null,
    }
}

impl StoryUpdateInput {
    /// Whether nothing is to change.
    pub open spec fn is_empty(self) -> bool {
        &&& self.status is None
        &&& self.evidence is None
        &&& self.unit is None
        &&& self.integration is None
        &&& self.e2e is None
        &&& self.platform is None
        &&& self.verify_command is None
    }

    /// The statement that changes the story.
    pub open spec fn update(self) -> SqlText {
        SqlText {
            sql: UPDATE_STORY@,
            params: seq![
                text_data(self.status.deep_view()),
                text_data(self.evidence.deep_view()),
                flag_data(self.unit),
                flag_data(self.integration),
                flag_data(self.e2e),
                flag_data(self.platform),
                text_data(self.verify_command.deep_view()),
                SqlData::Text(self.id@),
            ],
        }
    }
}

/// The statement that changes a story, where there is something to change.
pub fn update_story(input: &StoryUpdateInput) -> (r: Result<SqlStatement>)
    ensures
        match r {
            Ok(statement) => !input.is_empty() && statement.deep_view() == input.update(),
            Err(error) => input.is_empty() && error is EmptyStoryUpdate,
        },
{
    if input.status.is_none() && input.evidence.is_none() && input.unit.is_none()
        && input.integration.is_none() && input.e2e.is_none() && input.platform.is_none()
        && input.verify_command.is_none() {
        return Err(HarnessInfraError::EmptyStoryUpdate);
    }
    let params = vec![
        optional_text_param(&input.status),
        optional_text_param(&input.evidence),
        flag_param(input.unit),
        flag_param(input.integration),
        flag_param(input.e2e),
        flag_param(input.platform),
        optional_text_param(&input.verify_command),
        text_param(input.id.as_str()),
    ];
    assert(params.deep_view() =~= input.update().params);
    Ok(SqlStatement { sql: UPDATE_STORY, params })
}

/// What the update of the story `id` comes to, by the number of rows that it changed.
pub fn story_updated(id: &str, changes: u64) -> (r: Result<()>)
    ensures
        if changes == 0 {
            r matches Err(HarnessInfraError::StoryNotFound(missing)) && missing@ == id@
        } else {
            r == Ok::<(), HarnessInfraError>(())
        },
{
    if changes == 0 {
        Err(HarnessInfraError::StoryNotFound(id.to_owned()))
    } else {
        Ok(())
    }
}

/// The statement that asks how the verification of the story `id` stands.
pub fn query_story_verify_status(id: &str) -> (r: SqlStatement)
    ensures
        r.deep_view() == text_statement(QUERY_STORY_VERIFY_STATUS@, id@),
{
    statement_on_text(QUERY_STORY_VERIFY_STATUS, id)
}

/// How the verification of the story `id` stands, where there is such a story.
pub fn story_or_missing(id: &str, found: Option<StoryVerifyStatus>) -> (r: Result<
    StoryVerifyStatus,
>)
    ensures
        match found {
            Some(status) => r == Ok::<StoryVerifyStatus, HarnessInfraError>(status),
            None => r matches Err(HarnessInfraError::StoryNotFound(missing)) && missing@ == id@,
        },
{
    match found {
        Some(status) => Ok(status),
        None => Err(HarnessInfraError::StoryNotFound(id.to_owned())),
    }
}

/// How the verification of the story `id` stands, by what the query for it gave.
pub fn story_verify_status(
    id: &str,
    row: std::result::Result<StoryVerifyStatus, rusqlite::Error>,
) -> (r: Result<StoryVerifyStatus>)
    ensures
        match row {
            Ok(status) => r == Ok::<StoryVerifyStatus, HarnessInfraError>(status),
            Err(error) => if says_no_row(error) {
                r matches Err(HarnessInfraError::StoryNotFound(missing)) && missing@ == id@
            } else {
                r == Err::<StoryVerifyStatus, HarnessInfraError>(HarnessInfraError::Sqlite(error))
            },
        },
{
    match find_row(row) {
        Ok(found) => story_or_missing(id, found),
        Err(error) => Err(error),
    }
}

/// An update is refused only where it would change nothing: every other one is passed on,
/// with each value that is not given left to the story.
pub proof fn law_update_keeps_what_is_not_given(input: StoryUpdateInput)
    requires
        !input.is_empty(),
    ensures
        input.update().params.len() == 8,
        input.status is None <==> input.update().params[0] is Null,
        input.evidence is None <==> input.update().params[1] is Null,
        input.unit is None <==> input.update().params[2] is Null,
        input.integration is None <==> input.update().params[3] is Null,
        input.e2e is None <==> input.update().params[4] is Null,
        input.platform is None <==> input.update().params[5] is Null,
        input.verify_command is None <==> input.update().params[6] is Null,
        input.update().params[7] == SqlData::Text(input.id@),
{
}

} // verus!
