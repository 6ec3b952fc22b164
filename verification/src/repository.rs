//! The repository: where its files are, and what it can do.
use vstd::prelude::*;

use crate::audit::AuditResult;
use crate::backlog_table::{BacklogAddInput, BacklogCloseInput, BacklogFilter, BacklogRecord};
use crate::decision_table::{DecisionAddInput, DecisionRecord};
use crate::error::{HarnessInfraError, Result};
use crate::intake::{IntakeInput, IntakeRecord};
use crate::migrate::{InitPlan, MigrateResult};
use crate::proposal::ImprovementProposal;
use crate::query::QueryTable;
use crate::seed::BrownfieldImportResult;
use crate::story::{StoryAddInput, StoryMatrixRecord, StoryUpdateInput, StoryVerifyStatus};
use crate::tool::{ToolCheckResult, ToolEntry, ToolRegisterInput};
use crate::trace::{
    FrictionRecord, InterventionAddInput, InterventionFilter, InterventionRecord, TraceInput,
    TraceRecord,
};
use crate::verify::{DecisionVerifyResult, StoryVerifyAllResult, StoryVerifyResult};

verus! {

/// `std::path::PathBuf`: where a file is. Nothing is claimed of it.
#[verifier::external_type_specification]
#[verifier::external_body]
pub struct ExPathBuf(std::path::PathBuf);

/// How many records there are of each sort.
#[derive(Debug, Clone, Copy, PartialEq, Eq)]
pub struct HarnessStats {
    pub intakes: i64,
    pub stories: i64,
    pub decisions: i64,
    pub backlog_items: i64,
    pub traces: i64,
}

pub const QUERY_STATS: &'static str =
    "SELECT (SELECT COUNT(*) FROM intake) AS intakes, (SELECT COUNT(*) FROM story) AS \
     stories, (SELECT COUNT(*) FROM decision) AS decisions, (SELECT COUNT(*) FROM \
     backlog) AS backlog_items, (SELECT COUNT(*) FROM trace) AS traces;";

/// The document that the stories are seeded from.
pub const MATRIX_DOCUMENT: &'static str = "docs/TEST_MATRIX.md";

/// The directory that the decisions are seeded from.
pub const DECISIONS_DIRECTORY: &'static str = "docs/decisions";

/// The document that the backlog is seeded from.
pub const BACKLOG_DOCUMENT: &'static str = "docs/HARNESS_BACKLOG.md";

/// How the database was set up.
#[derive(Debug)]
pub enum InitResult {
    Created { db_path: std::path::PathBuf },
    MigratedExisting { db_path: std::path::PathBuf },
    Existing { db_path: std::path::PathBuf, version: i64 },
}

/// How the database at `db_path` was set up.
pub fn init_result(plan: InitPlan, db_path: std::path::PathBuf) -> (r: InitResult)
    ensures
        r == match plan {
            InitPlan::Create => InitResult::Created { db_path },
            InitPlan::Upgrade => InitResult::MigratedExisting { db_path },
            InitPlan::Keep(version) => InitResult::Existing { db_path, version },
        },
{
    match plan {
        InitPlan::Create => InitResult::Created { db_path },
        InitPlan::Upgrade => InitResult::MigratedExisting { db_path },
        InitPlan::Keep(version) => InitResult::Existing { db_path, version },
    }
}

/// Whether there is a database to open at `path`.
pub fn require_database(found: bool, path: String) -> (r: Result<()>)
    ensures
        r == if found {
            Ok::<(), HarnessInfraError>(())
        } else {
            Err(HarnessInfraError::MissingDatabase(path))
        },
{
    if found {
        Ok(())
    } else {
        Err(HarnessInfraError::MissingDatabase(path))
    }
}

/// Whether there is a copy to repair the database from at `path`.
pub fn require_backup(found: bool, path: String) -> (r: Result<()>)
    ensures
        r == if found {
            Ok::<(), HarnessInfraError>(())
        } else {
            Err(HarnessInfraError::MissingBackup(path))
        },
{
    if found {
        Ok(())
    } else {
        Err(HarnessInfraError::MissingBackup(path))
    }
}

/// Whether there is a script to create the schema with at `path`.
pub fn require_schema(found: bool, path: String) -> (r: Result<()>)
    ensures
        r == if found {
            Ok::<(), HarnessInfraError>(())
        } else {
            Err(HarnessInfraError::MissingSchema(path))
        },
{
    if found {
        Ok(())
    } else {
        Err(HarnessInfraError::MissingSchema(path))
    }
}

/// Whether there is a document, or a directory of documents, to seed from at `path`.
pub fn require_brownfield_path(found: bool, path: String) -> (r: Result<()>)
    ensures
        r == if found {
            Ok::<(), HarnessInfraError>(())
        } else {
            Err(HarnessInfraError::MissingBrownfieldPath(path))
        },
{
    if found {
        Ok(())
    } else {
        Err(HarnessInfraError::MissingBrownfieldPath(path))
    }
}

/// Where the harness of a repository keeps its files.
#[derive(Debug)]
pub struct HarnessContext {
    pub repo_root: std::path::PathBuf,
    pub db_path: std::path::PathBuf,
    pub schema_dir: std::path::PathBuf,
}

/// A harness that keeps its records in an SQLite database.
#[derive(Debug)]
pub struct SqliteHarnessRepository {
    repo_root: std::path::PathBuf,
    db_path: std::path::PathBuf,
    schema_dir: std::path::PathBuf,
}

impl SqliteHarnessRepository {
    /// The root of the repository, the database and the directory of the scripts.
    pub closed spec fn paths(self) -> (std::path::PathBuf, std::path::PathBuf, std::path::PathBuf) {
        (self.repo_root, self.db_path, self.schema_dir)
    }

    /// The harness with these paths.
    pub closed spec fn at(
        repo_root: std::path::PathBuf,
        db_path: std::path::PathBuf,
        schema_dir: std::path::PathBuf,
    ) -> Self {
        SqliteHarnessRepository { repo_root, db_path, schema_dir }
    }

    /// The harness of the repository at `repo_root`, with its database at `db_path` and the
    /// scripts of its schema in `schema_dir`.
    pub fn new(
        repo_root: std::path::PathBuf,
        db_path: std::path::PathBuf,
        schema_dir: std::path::PathBuf,
    ) -> (r: Self)
        ensures
            r.paths() == (repo_root, db_path, schema_dir),
            r == SqliteHarnessRepository::at(repo_root, db_path, schema_dir),
    {
        SqliteHarnessRepository { repo_root, db_path, schema_dir }
    }

    /// The root of the repository.
    pub fn repo_root(&self) -> (r: &std::path::PathBuf)
        ensures
            *r == self.paths().0,
    {
        &self.repo_root
    }

    /// The database.
    pub fn db_path(&self) -> (r: &std::path::PathBuf)
        ensures
            *r == self.paths().1,
    {
        &self.db_path
    }

    /// The directory of the scripts.
    pub fn schema_dir(&self) -> (r: &std::path::PathBuf)
        ensures
            *r == self.paths().2,
    {
        &self.schema_dir
    }
}

impl From<HarnessContext> for SqliteHarnessRepository {
    fn from(context: HarnessContext) -> (r: Self) {
        SqliteHarnessRepository::new(context.repo_root, context.db_path, context.schema_dir)
    }
}

impl vstd::std_specs::convert::FromSpecImpl<HarnessContext> for SqliteHarnessRepository {
    open spec fn obeys_from_spec() -> bool {
        true
    }

    open spec fn from_spec(context: HarnessContext) -> Self {
        SqliteHarnessRepository::at(context.repo_root, context.db_path, context.schema_dir)
    }
}

/// A harness has the paths of the context that it is made of, each in its own place.
pub proof fn law_harness_has_the_paths_of_its_context(context: HarnessContext)
    ensures
        <SqliteHarnessRepository as vstd::std_specs::convert::FromSpec<
            HarnessContext,
        >>::from_spec(context).paths() == (context.repo_root, context.db_path, context.schema_dir),
{
}

/// The documents of a repository have their places in it.
pub proof fn law_documents_have_their_places()
    ensures
        MATRIX_DOCUMENT@ == "docs/TEST_MATRIX.md"@,
        DECISIONS_DIRECTORY@ == "docs/decisions"@,
        BACKLOG_DOCUMENT@ == "docs/HARNESS_BACKLOG.md"@,
{
}

/// What a harness can do.
pub trait HarnessRepository {
    /// The score of a trace.
    type TraceScoreResult;

    /// The score of the context of a trace.
    type ContextScoreResult;

    fn init(&self) -> Result<InitResult>;

    fn migrate(&self, repair: bool, dry_run: bool) -> Result<MigrateResult>;

    fn import_brownfield(&self) -> Result<BrownfieldImportResult>;

    fn record_intake(&self, input: IntakeInput) -> Result<i64>;

    fn add_story(&self, input: StoryAddInput) -> Result<()>;

    fn update_story(&self, input: StoryUpdateInput) -> Result<()>;

    fn verify_story(&self, id: &str) -> Result<StoryVerifyResult>;

    fn verify_all_stories(&self) -> Result<StoryVerifyAllResult>;

    fn add_decision(&self, input: DecisionAddInput) -> Result<()>;

    fn verify_decision(&self, id: &str) -> Result<DecisionVerifyResult>;

    fn add_backlog(&self, input: BacklogAddInput) -> Result<i64>;

    fn close_backlog(&self, input: BacklogCloseInput) -> Result<()>;

    fn register_tool(&self, input: ToolRegisterInput) -> Result<()>;

    fn remove_tool(&self, name: &str) -> Result<()>;

    fn check_tools(&self, name: Option<String>) -> Result<Vec<ToolCheckResult>>;

    fn add_intervention(&self, input: InterventionAddInput) -> Result<i64>;

    fn record_trace(&self, input: TraceInput) -> Result<i64>;

    fn score_trace(&self, id: Option<i64>) -> Result<Self::TraceScoreResult>;

    fn score_context(&self, id: i64) -> Result<Self::ContextScoreResult>;

    fn story_verify_status(&self, id: &str) -> Result<StoryVerifyStatus>;

    fn query_matrix(&self) -> Result<Vec<StoryMatrixRecord>>;

    fn query_backlog(&self, filter: BacklogFilter) -> Result<Vec<BacklogRecord>>;

    fn query_decisions(&self) -> Result<Vec<DecisionRecord>>;

    fn query_intakes(&self) -> Result<Vec<IntakeRecord>>;

    fn query_traces(&self) -> Result<Vec<TraceRecord>>;

    fn query_friction(&self) -> Result<Vec<FrictionRecord>>;

    fn query_tools(
        &self,
        responsibility: Option<String>,
        capability: Option<String>,
    ) -> Result<Vec<ToolEntry>>;

    fn query_interventions(&self, filter: InterventionFilter) -> Result<Vec<InterventionRecord>>;

    fn query_stats(&self) -> Result<HarnessStats>;

    fn audit(&self) -> Result<AuditResult>;

    fn propose(&self, commit: bool) -> Result<Vec<ImprovementProposal>>;

    fn query_sql(&self, sql: &str) -> Result<QueryTable>;
}

} // verus!
