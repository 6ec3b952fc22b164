//! The statements of the library, run by SQLite.
use harness_store::audit::{
    audit_tools, AuditFinding, AuditResult, AuditedTool, BACKLOG_WITHOUT_OUTCOMES,
    LIST_TOOLS_TO_AUDIT, ORPHANED_STORIES, STALE_STORIES, UNVERIFIED_DECISIONS,
    UNVERIFIED_STORIES,
};
use harness_store::backlog::import_backlog;
use harness_store::backlog_table::{
    add_backlog, backlog_closed, close_backlog, query_backlog, BacklogAddInput, BacklogCloseInput,
    BacklogFilter, BacklogRecord,
};
use harness_store::commit::ProposalCommit;
use harness_store::decision::{decision_files, import_decision};
use harness_store::decision_table::{add_decision, DecisionAddInput, DecisionRecord, QUERY_DECISIONS};
use harness_store::error::{HarnessInfraError, Result};
use harness_store::init_run::{InitAction, InitEvent, InitRun};
use harness_store::intake::{record_intake, IntakeInput, IntakeRecord, QUERY_INTAKES};
use harness_store::matrix::import_matrix;
use harness_store::migrate::{
    current_version, init_plan, schema_version, InitPlan, MigrateResult, FIRST_SCRIPT,
    QUERY_SCHEMA_VERSION,
};
use harness_store::migrate_run::{MigrateAction, MigrateEvent, MigrateRun};
use harness_store::proposal::{propose, repeated_values, LIST_FRICTION, LIST_INTERVENTIONS};
use harness_store::query::{
    collect_rows, find_row, query_table, sql_value_to_string, QueryTable, SqlCell,
};
use harness_store::repository::{init_result, HarnessStats, InitResult, QUERY_STATS};
use harness_store::script::ScriptRun;
use harness_store::seed::{
    import_brownfield, seed_backlog_item, seed_decision, seed_story, BrownfieldImportResult,
};
use harness_store::statement::{SqlParam, SqlStatement};
use harness_store::story::{
    add_story, query_story_verify_status, story_updated, story_verify_status, update_story,
    BoolFlag, StoryAddInput, StoryMatrixRecord, StoryUpdateInput, StoryVerifyStatus, QUERY_MATRIX,
};
use harness_store::token::RiskLane;
use harness_store::tool::{
    check_registration, check_tools, find_tool_command, list_tools_to_check, query_tools, register_tool,
    registered_tool, remove_tool, tool_removed, Place, StoredTool, ToolEntry, ToolRegisterInput,
    ToolToCheck, QUERY_TOOLS,
};
use harness_store::tool_args::ToolArgSpec;
use harness_store::trace::{
    add_intervention, context_to_score, find_context_to_score, find_trace_to_score,
    query_interventions, record_trace, trace_to_score, ContextScoreSource, FrictionRecord,
    InterventionAddInput, InterventionFilter, InterventionRecord, TraceInput, TraceRecord,
    TraceScoreSource, QUERY_FRICTION, QUERY_TRACES,
};
use harness_store::verify::{
    decision_verify_command, find_decision_command, find_story_command, story_verify_command,
    verify_decision, verify_story, CommandOutput, StoryToVerify, StoryVerification,
    LIST_STORIES_TO_VERIFY,
};
use rusqlite::types::{Value, ValueRef};
use rusqlite::{params_from_iter, Connection, Row};

const SCRIPTS: [(&str, &str); 5] = [
    (
        "004-intervention.sql",
        "-- interventions
CREATE TABLE intervention (
    id INTEGER PRIMARY KEY AUTOINCREMENT,
    created_at TEXT NOT NULL DEFAULT (datetime('now')),
    trace_id INTEGER,
    story_id TEXT,
    type TEXT NOT NULL,
    description TEXT NOT NULL,
    source TEXT NOT NULL,
    impact TEXT
);
INSERT INTO schema_version (version) VALUES (4);",
    ),
    (
        "002-story-verify.sql",
        "ALTER TABLE story ADD COLUMN verify_command TEXT;
ALTER TABLE story ADD COLUMN last_verified_at TEXT;
ALTER TABLE story ADD COLUMN last_verified_result TEXT;
INSERT INTO schema_version (version) VALUES (2);",
    ),
    (
        "001-init.sql",
        "CREATE TABLE schema_version (version INTEGER NOT NULL);
CREATE TABLE intake (
    id INTEGER PRIMARY KEY AUTOINCREMENT,
    created_at TEXT NOT NULL DEFAULT (datetime('now')),
    input_type TEXT NOT NULL,
    summary TEXT NOT NULL,
    risk_lane TEXT NOT NULL,
    risk_flags TEXT,
    affected_docs TEXT,
    story_id TEXT,
    notes TEXT
);
CREATE TABLE story (
    id TEXT PRIMARY KEY,
    title TEXT NOT NULL,
    risk_lane TEXT NOT NULL,
    contract_doc TEXT,
    status TEXT NOT NULL DEFAULT 'planned',
    unit_proof INTEGER NOT NULL DEFAULT 0,
    integration_proof INTEGER NOT NULL DEFAULT 0,
    e2e_proof INTEGER NOT NULL DEFAULT 0,
    platform_proof INTEGER NOT NULL DEFAULT 0,
    evidence TEXT,
    notes TEXT
);
CREATE TABLE decision (
    id TEXT PRIMARY KEY,
    title TEXT NOT NULL,
    status TEXT NOT NULL,
    doc_path TEXT,
    verify_command TEXT,
    last_verified_at TEXT,
    last_verified_result TEXT,
    predicted_impact TEXT,
    notes TEXT
);
CREATE TABLE backlog (
    id INTEGER PRIMARY KEY AUTOINCREMENT,
    title TEXT NOT NULL,
    discovered_while TEXT,
    current_pain TEXT,
    suggested_improvement TEXT,
    risk TEXT,
    status TEXT NOT NULL DEFAULT 'proposed',
    predicted_impact TEXT,
    actual_outcome TEXT,
    implemented_at TEXT,
    notes TEXT
);
CREATE TABLE trace (
    id INTEGER PRIMARY KEY AUTOINCREMENT,
    created_at TEXT NOT NULL DEFAULT (datetime('now')),
    task_summary TEXT NOT NULL,
    intake_id INTEGER,
    story_id TEXT,
    agent TEXT,
    actions_taken TEXT,
    files_read TEXT,
    files_changed TEXT,
    decisions_made TEXT,
    errors TEXT,
    outcome TEXT,
    duration_seconds INTEGER,
    token_estimate INTEGER,
    harness_friction TEXT,
    notes TEXT
);
INSERT INTO schema_version (version) VALUES (1);",
    ),
    (
        "005-tool-kind.sql",
        "ALTER TABLE tool ADD COLUMN kind TEXT NOT NULL DEFAULT 'cli';
ALTER TABLE tool ADD COLUMN capability TEXT;
ALTER TABLE tool ADD COLUMN scan_target TEXT;
ALTER TABLE tool ADD COLUMN status TEXT NOT NULL DEFAULT 'unknown';
ALTER TABLE tool ADD COLUMN checked_at TEXT;
INSERT INTO schema_version (version) VALUES (5);",
    ),
    (
        "003-tool-registry.sql",
        "CREATE TABLE tool (
    name TEXT PRIMARY KEY,
    provider TEXT NOT NULL DEFAULT 'custom',
    command TEXT NOT NULL,
    description TEXT NOT NULL,
    args TEXT,
    responsibility TEXT NOT NULL,
    since TEXT NOT NULL DEFAULT 'registered'
);
INSERT INTO schema_version (version) VALUES (3);",
    ),
];

fn value(param: &SqlParam) -> Value {
    match param {
        SqlParam::Null => Value::Null,
        SqlParam::Integer(number) => Value::Integer(*number),
        SqlParam::Text(text) => Value::Text(text.clone()),
    }
}

fn run(connection: &Connection, statement: &SqlStatement) -> u64 {
    connection
        .execute(statement.sql, params_from_iter(statement.params.iter().map(value)))
        .unwrap();
    connection.changes()
}

fn insert(connection: &Connection, statement: &SqlStatement) -> i64 {
    run(connection, statement);
    connection.last_insert_rowid()
}

fn one<T>(
    connection: &Connection,
    statement: &SqlStatement,
    read: fn(&Row<'_>) -> rusqlite::Result<T>,
) -> rusqlite::Result<T> {
    connection.query_row(
        statement.sql,
        params_from_iter(statement.params.iter().map(value)),
        read,
    )
}

fn all<T>(
    connection: &Connection,
    sql: &str,
    params: &[SqlParam],
    read: fn(&Row<'_>) -> rusqlite::Result<T>,
) -> Vec<T> {
    let mut statement = connection.prepare(sql).unwrap();
    let rows = statement
        .query_map(params_from_iter(params.iter().map(value)), read)
        .unwrap();
    collect_rows(rows.collect::<Vec<_>>()).unwrap()
}

/// Runs a script as a whole or not at all, and gives the first error.
fn run_script(connection: &Connection, sql: &str) -> rusqlite::Result<()> {
    let mut script = ScriptRun::new(sql.to_owned());
    let mut failure = None;
    while let Some(batch) = script.batch() {
        let outcome = connection.execute_batch(batch);
        let success = outcome.is_ok();
        if let Err(error) = outcome {
            failure.get_or_insert(error);
        }
        script.advance(success);
    }
    failure.map_or(Ok(()), Err)
}

fn version_row(connection: &Connection) -> rusqlite::Result<i64> {
    connection.query_row(QUERY_SCHEMA_VERSION, [], |row| row.get(0))
}

fn script(name: &str) -> &'static str {
    SCRIPTS.iter().find(|entry| entry.0 == name).unwrap().1
}

fn script_names() -> Vec<String> {
    SCRIPTS.iter().map(|entry| entry.0.to_owned()).collect()
}

fn init(connection: &Connection, found: bool) -> InitResult {
    let mut run = InitRun::new(found);
    loop {
        let event = match run.action() {
            InitAction::Finish => return init_result(run.plan(), "harness.db".into()),
            InitAction::ReadVersion => {
                InitEvent::Version(current_version(version_row(connection)))
            }
            InitAction::RunFirst => {
                connection.execute_batch(script(FIRST_SCRIPT)).unwrap();
                InitEvent::Done
            }
            InitAction::ListScripts => InitEvent::Names(script_names()),
            InitAction::Run { name, .. } => {
                run_script(connection, script(&name)).unwrap();
                InitEvent::Done
            }
        };
        run.advance(event);
    }
}

fn initialized() -> Connection {
    let connection = Connection::open_in_memory().unwrap();
    init(&connection, false);
    connection
}

fn migrate(connection: &Connection, repair: bool, dry_run: bool) -> MigrateResult {
    let mut run = MigrateRun::new(repair, dry_run);
    loop {
        let event = match run.action() {
            MigrateAction::Finish => return run.result(),
            MigrateAction::ReadVersion => {
                MigrateEvent::Version(current_version(version_row(connection)))
            }
            MigrateAction::ListScripts => MigrateEvent::Names(script_names()),
            MigrateAction::Run { name, .. } => {
                run_script(connection, script(&name)).unwrap();
                MigrateEvent::Done
            }
            MigrateAction::Restore
            | MigrateAction::Backup
            | MigrateAction::Tell { .. }
            | MigrateAction::Summarize(_) => MigrateEvent::Done,
        };
        run.advance(event);
    }
}

fn story_columns(connection: &Connection) -> Vec<String> {
    all(connection, "PRAGMA table_info(story);", &[], |row| row.get(1))
}

fn matrix(connection: &Connection) -> Vec<StoryMatrixRecord> {
    all(connection, QUERY_MATRIX, &[], |row| {
        Ok(StoryMatrixRecord {
            id: row.get(0)?,
            title: row.get(1)?,
            status: row.get(2)?,
            unit: row.get(3)?,
            integration: row.get(4)?,
            e2e: row.get(5)?,
            platform: row.get(6)?,
            evidence: row.get(7)?,
        })
    })
}

fn backlog(connection: &Connection, filter: BacklogFilter) -> Vec<BacklogRecord> {
    all(connection, query_backlog(filter), &[], |row| {
        Ok(BacklogRecord {
            id: row.get(0)?,
            title: row.get(1)?,
            status: row.get(2)?,
            risk: row.get(3)?,
            predicted_impact: row.get(4)?,
            actual_outcome: row.get(5)?,
        })
    })
}

fn decisions(connection: &Connection) -> Vec<DecisionRecord> {
    all(connection, QUERY_DECISIONS, &[], |row| {
        Ok(DecisionRecord {
            id: row.get(0)?,
            title: row.get(1)?,
            status: row.get(2)?,
            last_verified_at: row.get(3)?,
            last_verified_result: row.get(4)?,
        })
    })
}

fn status_of(connection: &Connection, id: &str) -> Result<StoryVerifyStatus> {
    let row = one(connection, &query_story_verify_status(id), |row| {
        Ok(StoryVerifyStatus {
            id: row.get(0)?,
            verify_command: row.get(1)?,
            last_verified_result: row.get(2)?,
        })
    });
    story_verify_status(id, row)
}

fn findings(connection: &Connection, sql: &str) -> Vec<AuditFinding> {
    all(connection, sql, &[], |row| {
        Ok(AuditFinding { id: row.get(0)?, title: row.get(1)? })
    })
}

fn stored_tools(connection: &Connection) -> Vec<ToolEntry> {
    all(connection, QUERY_TOOLS, &[], |row| {
        Ok(registered_tool(StoredTool {
            provider: row.get(0)?,
            name: row.get(1)?,
            command: row.get(2)?,
            description: row.get(3)?,
            args: row.get(4)?,
            responsibility: row.get(5)?,
            since: row.get(6)?,
            kind: row.get(7)?,
            capability: row.get(8)?,
            scan_target: row.get(9)?,
            status: row.get(10)?,
            checked_at: row.get(11)?,
        }))
    })
}

fn register(connection: &Connection, input: ToolRegisterInput) -> Result<()> {
    check_registration(&input, Ok(()), false)?;
    let row = one(connection, &find_tool_command(&input.name), |row| row.get(0));
    let statement = register_tool(input, row)?;
    run(connection, &statement);
    Ok(())
}

fn update(connection: &Connection, input: StoryUpdateInput) -> Result<()> {
    let statement = update_story(&input)?;
    let changes = run(connection, &statement);
    story_updated(&input.id, changes)
}

fn close(connection: &Connection, input: BacklogCloseInput) -> Result<()> {
    let changes = run(connection, &close_backlog(&input));
    backlog_closed(input.id, changes)
}

fn story(id: &str, title: &str, verify_command: Option<&str>) -> StoryAddInput {
    StoryAddInput {
        id: id.to_owned(),
        title: title.to_owned(),
        risk_lane: RiskLane::Normal,
        contract_doc: None,
        verify_command: verify_command.map(str::to_owned),
        notes: None,
    }
}

fn update_of(id: &str) -> StoryUpdateInput {
    StoryUpdateInput {
        id: id.to_owned(),
        status: None,
        evidence: None,
        unit: None,
        integration: None,
        e2e: None,
        platform: None,
        verify_command: None,
    }
}

fn trace(task_summary: &str, friction: Option<&str>) -> TraceInput {
    TraceInput {
        task_summary: task_summary.to_owned(),
        intake_id: None,
        story_id: None,
        agent: Some("codex".to_owned()),
        actions: None,
        files_read: None,
        files_changed: None,
        decisions: None,
        errors: None,
        outcome: Some("completed".to_owned()),
        duration_seconds: None,
        token_estimate: None,
        friction: friction.map(str::to_owned),
        notes: None,
    }
}

fn tool(name: &str, kind: &str, command: &str) -> ToolRegisterInput {
    ToolRegisterInput {
        name: name.to_owned(),
        command: command.to_owned(),
        description: "Verify deploy health before release".to_owned(),
        responsibility: "Verification".to_owned(),
        args: Vec::new(),
        force: true,
        kind: kind.to_owned(),
        capability: None,
        scan_target: None,
    }
}

fn item(title: &str, risk: RiskLane, predicted_impact: Option<&str>) -> BacklogAddInput {
    BacklogAddInput {
        title: title.to_owned(),
        discovered_while: None,
        current_pain: None,
        suggestion: None,
        risk: Some(risk),
        predicted_impact: predicted_impact.map(str::to_owned),
        notes: None,
    }
}

/// Stands for the shell, which knows one command that succeeds.
fn shell(command: &str) -> CommandOutput {
    CommandOutput {
        success: command == "exit 0",
        stdout: command.as_bytes().to_vec(),
        stderr: Vec::new(),
    }
}

#[test]
fn init_creates_database_and_schema() {
    let connection = Connection::open_in_memory().unwrap();

    let result = init(&connection, false);

    assert!(matches!(result, InitResult::Created { .. }));
    let stats = connection
        .query_row(QUERY_STATS, [], |row| {
            Ok(HarnessStats {
                intakes: row.get(0)?,
                stories: row.get(1)?,
                decisions: row.get(2)?,
                backlog_items: row.get(3)?,
                traces: row.get(4)?,
            })
        })
        .unwrap();
    assert_eq!(stats.intakes, 0);
    assert_eq!(schema_version(version_row(&connection)).unwrap(), 5);
    let story_columns = story_columns(&connection);
    assert!(story_columns.contains(&"verify_command".to_owned()));
    assert!(story_columns.contains(&"last_verified_at".to_owned()));
    assert!(story_columns.contains(&"last_verified_result".to_owned()));
}

#[test]
fn migrate_applies_story_verify_columns_to_existing_database() {
    let connection = Connection::open_in_memory().unwrap();
    connection.execute_batch(script("001-init.sql")).unwrap();

    let result = migrate(&connection, false, false);

    assert_eq!(result.current_version, 1);
    assert_eq!(result.applied, vec![2, 3, 4, 5]);
    assert!(result.backup_created);
    assert_eq!(schema_version(version_row(&connection)).unwrap(), 5);
    let story_columns = story_columns(&connection);
    assert!(story_columns.contains(&"verify_command".to_owned()));
    assert!(story_columns.contains(&"last_verified_at".to_owned()));
    assert!(story_columns.contains(&"last_verified_result".to_owned()));
}

#[test]
fn records_and_queries_intake() {
    let connection = initialized();

    let id = insert(
        &connection,
        &record_intake(&IntakeInput {
            input_type: "harness_improvement".to_owned(),
            summary: "Port one CLI slice".to_owned(),
            risk_lane: RiskLane::HighRisk,
            risk_flags: Some("[\"public contracts\"]".to_owned()),
            affected_docs: None,
            story_id: Some("US-002".to_owned()),
            notes: None,
        }),
    );

    let intakes = all(&connection, QUERY_INTAKES, &[], |row| {
        Ok(IntakeRecord {
            id: row.get(0)?,
            created_at: row.get(1)?,
            input_type: row.get(2)?,
            risk_lane: row.get(3)?,
            summary: row.get(4)?,
        })
    });
    assert_eq!(id, 1);
    assert_eq!(intakes[0].summary, "Port one CLI slice");
    assert_eq!(intakes[0].input_type, "harness_improvement");
    assert_eq!(intakes[0].risk_lane, "high_risk");

    let missing_lists_are_null: (bool, bool) = connection
        .query_row(
            "SELECT risk_flags IS NULL, affected_docs IS NULL FROM intake WHERE id=?1;",
            [id],
            |row| Ok((row.get(0)?, row.get(1)?)),
        )
        .unwrap();
    assert_eq!(missing_lists_are_null, (false, true));
}

#[test]
fn decision_is_verified_and_its_result_kept() {
    let connection = initialized();
    run(
        &connection,
        &add_decision(&DecisionAddInput {
            id: "0001-test".to_owned(),
            title: "Verify from root".to_owned(),
            status: "accepted".to_owned(),
            doc_path: None,
            verify_command: Some("exit 0".to_owned()),
            predicted_impact: None,
            notes: None,
        }),
    );

    let row = one(&connection, &find_decision_command("0001-test"), |row| row.get(0));
    let command = decision_verify_command("0001-test", row).unwrap();
    let success = shell(&command).success;
    let (statement, result) = verify_decision("0001-test", command, success);
    run(&connection, &statement);

    assert_eq!(result.command, "exit 0");
    assert_eq!(result.result, "pass");
    assert_eq!(decisions(&connection)[0].last_verified_result.as_deref(), Some("pass"));
    let row = one(&connection, &find_decision_command("0002-none"), |row| row.get(0));
    assert!(matches!(
        decision_verify_command("0002-none", row),
        Err(HarnessInfraError::MissingDecisionVerifyCommand(id)) if id == "0002-none"
    ));
}

#[test]
fn story_add_update_and_verify_status_store_verify_command() {
    let connection = initialized();

    run(&connection, &add_story(&story("US-VERIFY", "Verify command story", Some("echo ok"))));
    assert_eq!(
        status_of(&connection, "US-VERIFY").unwrap().verify_command.as_deref(),
        Some("echo ok")
    );

    update(
        &connection,
        StoryUpdateInput {
            verify_command: Some("npm test".to_owned()),
            ..update_of("US-VERIFY")
        },
    )
    .unwrap();

    assert_eq!(
        status_of(&connection, "US-VERIFY").unwrap().verify_command.as_deref(),
        Some("npm test")
    );
}

#[test]
fn story_updates_are_refused_when_empty_or_unknown() {
    let connection = initialized();
    assert!(matches!(
        update(&connection, update_of("US-NONE")),
        Err(HarnessInfraError::EmptyStoryUpdate)
    ));
    assert!(matches!(
        update(
            &connection,
            StoryUpdateInput { status: Some("changed".to_owned()), ..update_of("US-NONE") }
        ),
        Err(HarnessInfraError::StoryNotFound(id)) if id == "US-NONE"
    ));
    assert!(matches!(
        status_of(&connection, "US-NONE"),
        Err(HarnessInfraError::StoryNotFound(id)) if id == "US-NONE"
    ));
}

#[test]
fn update_keeps_what_is_not_given() {
    let connection = initialized();
    run(&connection, &add_story(&story("US-K", "Kept", Some("exit 0"))));
    for input in [
        StoryUpdateInput {
            evidence: Some("log".to_owned()),
            unit: Some(BoolFlag(1)),
            ..update_of("US-K")
        },
        StoryUpdateInput { e2e: Some(BoolFlag(1)), ..update_of("US-K") },
        StoryUpdateInput { unit: Some(BoolFlag(0)), ..update_of("US-K") },
    ] {
        update(&connection, input).unwrap();
    }
    let record = &matrix(&connection)[0];
    assert_eq!(record.title, "Kept");
    assert_eq!(record.status, "planned");
    assert_eq!(record.evidence.as_deref(), Some("log"));
    assert_eq!((record.unit, record.integration, record.e2e, record.platform), (0, 0, 1, 0));
    assert_eq!(
        status_of(&connection, "US-K").unwrap().verify_command.as_deref(),
        Some("exit 0")
    );
}

#[test]
fn story_verify_records_pass_fail_and_missing_command() {
    let connection = initialized();
    for (id, title, command) in [
        ("US-PASS", "Passing story", Some("exit 0")),
        ("US-FAIL", "Failing story", Some("exit 1")),
        ("US-MISSING", "Missing command story", None),
        ("US-EMPTY", "Empty command story", Some("")),
    ] {
        run(&connection, &add_story(&story(id, title, command)));
    }

    for (id, expected) in [("US-PASS", "pass"), ("US-FAIL", "fail")] {
        let row = one(&connection, &find_story_command(id), |row| row.get(0));
        let command = story_verify_command(id, row).unwrap();
        let output = shell(&command);
        let (statement, result) = verify_story(id, command.clone(), &output);
        run(&connection, &statement);
        assert_eq!(result.result, expected);
        assert_eq!(result.stdout, command);
        assert_eq!(result.stderr, "");
        assert_eq!(
            status_of(&connection, id).unwrap().last_verified_result.as_deref(),
            Some(expected)
        );
    }

    for id in ["US-MISSING", "US-EMPTY", "US-NONE"] {
        let row = one(&connection, &find_story_command(id), |row| row.get(0));
        assert!(matches!(
            story_verify_command(id, row),
            Err(HarnessInfraError::MissingStoryVerifyCommand(missing)) if missing == id
        ));
    }
}

#[test]
fn story_verify_all_reports_pass_fail_and_skipped() {
    let connection = initialized();
    for (id, command) in [
        ("US-PASS", Some("exit 0")),
        ("US-FAIL", Some("exit 1")),
        ("US-SKIP", None),
    ] {
        run(&connection, &add_story(&story(id, id, command)));
    }

    let stories = all(&connection, LIST_STORIES_TO_VERIFY, &[], |row| {
        Ok(StoryToVerify { id: row.get(0)?, title: row.get(1)?, verify_command: row.get(2)? })
    });
    let mut verification = StoryVerification::new(stories);
    while let Some(command) = verification.next_command() {
        let statement = verification.finish(&shell(&command));
        run(&connection, &statement);
    }
    let result = verification.into_result();

    assert_eq!(result.passed(), 1);
    assert_eq!(result.failed(), 1);
    assert_eq!(result.skipped(), 1);
    let ids: Vec<&str> = result.items.iter().map(|item| item.id.as_str()).collect();
    assert_eq!(ids, ["US-FAIL", "US-PASS", "US-SKIP"]);
    assert_eq!(result.items[0].stdout, "exit 1");
    assert_eq!(result.items[2].command, None);
    assert_eq!(
        status_of(&connection, "US-PASS").unwrap().last_verified_result.as_deref(),
        Some("pass")
    );
    assert_eq!(
        status_of(&connection, "US-FAIL").unwrap().last_verified_result.as_deref(),
        Some("fail")
    );
}

#[test]
fn tool_registry_register_query_and_remove_work() {
    let connection = initialized();
    let deploy_check = || ToolRegisterInput {
        capability: Some("deploy-verification".to_owned()),
        ..tool("deploy-check", "cli", "definitely-missing-tool")
    };

    register(&connection, deploy_check()).unwrap();
    assert!(matches!(
        register(&connection, deploy_check()),
        Err(HarnessInfraError::ToolAlreadyExists(_, _))
    ));

    let verification_tools = query_tools(
        Vec::new(),
        stored_tools(&connection),
        Some("Verification".to_owned()),
        None,
    );
    assert!(verification_tools
        .iter()
        .any(|tool| tool.name == "deploy-check" && tool.source == "registered"));

    let by_capability = query_tools(
        Vec::new(),
        stored_tools(&connection),
        None,
        Some("deploy-verification".to_owned()),
    );
    assert!(by_capability.iter().any(|tool| tool.name == "deploy-check"));

    let changes = run(&connection, &remove_tool("deploy-check"));
    tool_removed("deploy-check", changes).unwrap();
    assert!(!query_tools(Vec::new(), stored_tools(&connection), None, None)
        .iter()
        .any(|tool| tool.name == "deploy-check"));
    let changes = run(&connection, &remove_tool("deploy-check"));
    assert!(matches!(
        tool_removed("deploy-check", changes),
        Err(HarnessInfraError::ToolNotFound(name)) if name == "deploy-check"
    ));
}

#[test]
fn registered_tool_keeps_its_arguments() {
    let connection = initialized();
    let args = vec![
        ToolArgSpec {
            name: "target".to_owned(),
            arg_type: "path".to_owned(),
            required: true,
            help: Some("where to deploy, if anywhere".to_owned()),
        },
        ToolArgSpec {
            name: "dry".to_owned(),
            arg_type: "flag".to_owned(),
            required: false,
            help: None,
        },
    ];
    register(
        &connection,
        ToolRegisterInput { args: args.clone(), ..tool("deploy", "cli", "deploy.sh") },
    )
    .unwrap();
    let stored = stored_tools(&connection);
    assert_eq!(stored[0].args, args);
    assert_eq!(stored[0].provider, "custom");
    assert_eq!(stored[0].status, "unknown");
}

#[test]
fn tool_check_scans_and_persists_status_per_kind() {
    let connection = initialized();
    for (name, kind, command, target) in [
        ("mcp-example", "mcp", "mcp:example-server", "/tmp/mcp-missing"),
        ("skill-example", "skill", "skill:example-skill", "/tmp/skill-present"),
    ] {
        register(
            &connection,
            ToolRegisterInput {
                force: false,
                capability: Some("impact-analysis".to_owned()),
                scan_target: Some(target.to_owned()),
                ..tool(name, kind, command)
            },
        )
        .unwrap();
    }

    let listing = list_tools_to_check(&None);
    let tools = all(&connection, listing.sql, &listing.params, |row| {
        Ok(ToolToCheck {
            name: row.get(0)?,
            kind: row.get(1)?,
            command: row.get(2)?,
            scan_target: row.get(3)?,
            capability: row.get(4)?,
        })
    });
    let present = Place::Path("/tmp/skill-present".to_owned());
    let mut results = Vec::new();
    for (result, statement) in check_tools(tools, None, |place| *place == present) {
        run(&connection, &statement);
        results.push(result);
    }

    let mcp_tool = results.iter().find(|r| r.name == "mcp-example").unwrap();
    let skill_tool = results.iter().find(|r| r.name == "skill-example").unwrap();
    assert_eq!(mcp_tool.status, "missing");
    assert_eq!(skill_tool.status, "present");

    let stored = query_tools(
        Vec::new(),
        stored_tools(&connection),
        None,
        Some("impact-analysis".to_owned()),
    );
    assert_eq!(stored.len(), 2);
    assert!(stored
        .iter()
        .all(|tool| tool.checked_at.as_deref().is_some_and(|v| !v.is_empty())));
    assert_eq!(
        stored.iter().find(|t| t.name == "skill-example").unwrap().status,
        "present"
    );
}

#[test]
fn one_tool_can_be_checked_alone() {
    let connection = initialized();
    for name in ["first", "second"] {
        register(&connection, tool(name, "cli", name)).unwrap();
    }
    let listing = list_tools_to_check(&Some("second".to_owned()));
    let names: Vec<String> = all(&connection, listing.sql, &listing.params, |row| row.get(0));
    assert_eq!(names, ["second"]);
}

#[test]
fn interventions_can_be_added_and_filtered() {
    let connection = initialized();
    run(&connection, &add_story(&story("US-I", "Intervention story", None)));
    let trace_id = insert(
        &connection,
        &record_trace(&TraceInput {
            story_id: Some("US-I".to_owned()),
            ..trace("Trace for intervention", Some("none"))
        }),
    );
    insert(
        &connection,
        &add_intervention(&InterventionAddInput {
            trace_id: Some(trace_id),
            story_id: Some("US-I".to_owned()),
            intervention_type: "correction".to_owned(),
            description: "Use error handling instead of unwrap".to_owned(),
            source: "human".to_owned(),
            impact: Some("Reduced panic risk".to_owned()),
        }),
    );
    let listed = |filter: InterventionFilter| {
        let query = query_interventions(&filter);
        all(&connection, query.sql, &query.params, |row| {
            Ok(InterventionRecord {
                id: row.get(0)?,
                created_at: row.get(1)?,
                trace_id: row.get(2)?,
                story_id: row.get(3)?,
                intervention_type: row.get(4)?,
                description: row.get(5)?,
                source: row.get(6)?,
                impact: row.get(7)?,
            })
        })
    };

    assert_eq!(
        listed(InterventionFilter {
            trace_id: Some(trace_id),
            story_id: None,
            intervention_type: None,
        })
        .len(),
        1
    );
    assert_eq!(
        listed(InterventionFilter {
            trace_id: None,
            story_id: Some("US-I".to_owned()),
            intervention_type: Some("override".to_owned()),
        })
        .len(),
        0
    );
}

#[test]
fn audit_detects_drift_and_propose_can_commit_backlog_items() {
    let connection = initialized();
    run(&connection, &add_story(&story("US-AUDIT", "Audit story", Some("exit 0"))));
    update(
        &connection,
        StoryUpdateInput { status: Some("in_progress".to_owned()), ..update_of("US-AUDIT") },
    )
    .unwrap();
    insert(
        &connection,
        &add_backlog(&item(
            "Implemented without outcome",
            RiskLane::Tiny,
            Some("Expected improvement"),
        )),
    );
    close(
        &connection,
        BacklogCloseInput { id: 1, status: "implemented".to_owned(), actual_outcome: None },
    )
    .unwrap();
    register(&connection, tool("missing-tool", "cli", "definitely-missing-tool")).unwrap();
    for _ in 0..2 {
        insert(
            &connection,
            &record_trace(&TraceInput {
                actions: Some("[\"read\"]".to_owned()),
                files_read: Some("[\"docs/HARNESS.md\"]".to_owned()),
                files_changed: Some("[\"scripts/schema/003-tool-registry.sql\"]".to_owned()),
                ..trace("Repeated friction trace", Some("Context rules missed schema decision"))
            }),
        );
    }

    let tools = all(&connection, LIST_TOOLS_TO_AUDIT, &[], |row| {
        Ok(AuditedTool {
            name: row.get(0)?,
            command: row.get(1)?,
            kind: row.get(2)?,
            status: row.get(3)?,
        })
    });
    let audit = AuditResult {
        orphaned_stories: findings(&connection, ORPHANED_STORIES),
        unverified_stories: findings(&connection, UNVERIFIED_STORIES),
        unverified_decisions: findings(&connection, UNVERIFIED_DECISIONS),
        backlog_without_outcomes: findings(&connection, BACKLOG_WITHOUT_OUTCOMES),
        stale_stories: findings(&connection, STALE_STORIES),
        broken_tools: audit_tools(tools, |_| false),
    };
    assert_eq!(audit.orphaned_stories.len(), 1);
    assert_eq!(audit.unverified_stories.len(), 1);
    assert_eq!(audit.backlog_without_outcomes.len(), 1);
    assert_eq!(audit.broken_tools.len(), 1);

    let friction: Vec<String> = all(&connection, LIST_FRICTION, &[], |row| row.get(0));
    let interventions: Vec<String> = all(&connection, LIST_INTERVENTIONS, &[], |row| row.get(0));
    let proposals = propose(
        &repeated_values(&friction),
        &repeated_values(&interventions),
        &audit,
    );
    let rows_before = backlog(&connection, BacklogFilter::All).len();
    let uncommitted = proposals.clone();
    let mut commit = ProposalCommit::new(proposals);
    while let Some(statement) = commit.next() {
        commit.stored(insert(&connection, &statement));
    }
    let proposals = commit.into_result();
    assert!(proposals.iter().any(|proposal| proposal
        .evidence
        .contains("Context rules missed schema decision")));
    assert!(proposals
        .iter()
        .all(|proposal| proposal.committed_backlog_id.is_some()));
    assert!(backlog(&connection, BacklogFilter::Open).len() >= 1);

    let rows = backlog(&connection, BacklogFilter::All);
    assert_eq!(rows.len(), rows_before + proposals.len());
    for (before, after) in uncommitted.iter().zip(&proposals) {
        assert_eq!(before.committed_backlog_id, None);
        let row = rows.iter().find(|row| Some(row.id) == after.committed_backlog_id).unwrap();
        assert_eq!(row.title, before.title);
        assert_eq!(row.risk.as_deref(), Some(before.risk.as_str()));
        assert_eq!(row.predicted_impact.as_deref(), Some(before.predicted_impact.as_str()));
        assert_eq!(after.evidence, before.evidence);
    }
}

#[test]
fn story_backlog_trace_and_queries_work() {
    let connection = initialized();

    run(&connection, &add_story(&story("US-T", "Test story", None)));
    update(
        &connection,
        StoryUpdateInput {
            status: Some("implemented".to_owned()),
            evidence: Some("unit test".to_owned()),
            unit: Some(BoolFlag(1)),
            ..update_of("US-T")
        },
    )
    .unwrap();
    assert_eq!(matrix(&connection)[0].unit, 1);

    let backlog_id = insert(
        &connection,
        &add_backlog(&BacklogAddInput {
            current_pain: Some("manual SQL".to_owned()),
            ..item("Improve CLI", RiskLane::HighRisk, None)
        }),
    );
    close(
        &connection,
        BacklogCloseInput {
            id: backlog_id,
            status: "implemented".to_owned(),
            actual_outcome: Some("done".to_owned()),
        },
    )
    .unwrap();
    assert_eq!(
        backlog(&connection, BacklogFilter::All)[0].actual_outcome.as_deref(),
        Some("done")
    );
    assert!(matches!(
        close(
            &connection,
            BacklogCloseInput {
                id: 77,
                status: "implemented".to_owned(),
                actual_outcome: None,
            }
        ),
        Err(HarnessInfraError::BacklogNotFound(77))
    ));

    let trace_id = insert(
        &connection,
        &record_trace(&TraceInput {
            story_id: Some("US-T".to_owned()),
            agent: Some("test".to_owned()),
            actions: Some("[\"one\",\"two\"]".to_owned()),
            ..trace("Test trace", Some("none"))
        }),
    );
    assert_eq!(trace_id, 1);
    let traces = all(&connection, QUERY_TRACES, &[], |row| {
        Ok(TraceRecord {
            id: row.get(0)?,
            created_at: row.get(1)?,
            outcome: row.get(2)?,
            task_summary: row.get(3)?,
            harness_friction: row.get(4)?,
        })
    });
    assert_eq!(traces[0].task_summary, "Test trace");
    assert_eq!(friction_records(&connection)[0].harness_friction, "none");
}

fn friction_records(connection: &Connection) -> Vec<FrictionRecord> {
    all(connection, QUERY_FRICTION, &[], |row| {
        Ok(FrictionRecord {
            id: row.get(0)?,
            created_at: row.get(1)?,
            risk_lane: row.get(2)?,
            input_type: row.get(3)?,
            task_summary: row.get(4)?,
            harness_friction: row.get(5)?,
        })
    })
}

#[test]
fn friction_query_includes_intake_context_and_filters_null_friction() {
    let connection = initialized();
    let intake_id = insert(
        &connection,
        &record_intake(&IntakeInput {
            input_type: "change_request".to_owned(),
            summary: "Friction query context".to_owned(),
            risk_lane: RiskLane::Normal,
            risk_flags: None,
            affected_docs: None,
            story_id: None,
            notes: None,
        }),
    );
    for input in [
        TraceInput { intake_id: Some(intake_id), ..trace("Trace without friction", None) },
        TraceInput {
            intake_id: Some(intake_id),
            ..trace("Trace with linked friction", Some("Linked friction"))
        },
        trace("Trace with unlinked friction", Some("Unlinked friction")),
    ] {
        insert(&connection, &record_trace(&input));
    }

    let friction = friction_records(&connection);

    assert_eq!(friction.len(), 2);
    assert_eq!(friction[0].risk_lane, None);
    assert_eq!(friction[0].input_type, None);
    assert_eq!(friction[1].risk_lane.as_deref(), Some("normal"));
    assert_eq!(friction[1].input_type.as_deref(), Some("change_request"));
}

const MATRIX: &str = r#"# Test Matrix

| Story | Contract | Unit | Integration | E2E | Platform | Status | Evidence |
| --- | --- | --- | --- | --- | --- | --- | --- |
| US-010 | docs/product/tasks.md | yes | pending | no | mac smoke | implemented | cargo test |
"#;

const DECISION: &str = r#"# Test Decision

## Status

Accepted
"#;

const BACKLOG: &str = r#"# Harness Backlog

## Items

### Title

Import existing docs

### Discovered While

Testing brownfield import

### Current Pain

Existing Harness v0 repos have markdown truth.

### Suggested Improvement

Seed the durable database.

### Risk

normal

### Status

accepted

### Title

Keep installer checksum

### Discovered While

Testing release install

### Current Pain

Downloads need verification.

### Suggested Improvement

Verify sha256 files.

### Risk

high-risk

### Status

implemented
"#;

fn seed(connection: &Connection) -> BrownfieldImportResult {
    let stories = import_matrix(MATRIX);
    for story in &stories {
        run(connection, &seed_story(story));
    }
    let mut decisions = Vec::new();
    for name in decision_files(&["README.md".to_owned(), "0007-test-decision.md".to_owned()]) {
        let decision = import_decision(&name, DECISION);
        run(connection, &seed_decision(&decision));
        decisions.push(decision);
    }
    let items = import_backlog(BACKLOG);
    for item in &items {
        run(connection, &seed_backlog_item(item));
    }
    import_brownfield(&stories, &decisions, &items)
}

#[test]
fn import_brownfield_seeds_markdown_state_idempotently() {
    let connection = initialized();

    let first = seed(&connection);
    let second = seed(&connection);

    assert_eq!(
        first,
        BrownfieldImportResult { stories: 1, decisions: 1, backlog_items: 2 }
    );
    assert_eq!(second.backlog_items, 2);

    let matrix = matrix(&connection);
    assert_eq!(matrix.len(), 1);
    assert_eq!(matrix[0].id, "US-010");
    assert_eq!(matrix[0].title, "docs/product/tasks.md");
    assert_eq!(matrix[0].status, "implemented");
    assert_eq!(matrix[0].unit, 1);
    assert_eq!(matrix[0].integration, 0);
    assert_eq!(matrix[0].platform, 1);

    let decisions = decisions(&connection);
    assert_eq!(decisions.len(), 1);
    assert_eq!(decisions[0].id, "0007-test-decision");
    assert_eq!(decisions[0].status, "accepted");

    let backlog = backlog(&connection, BacklogFilter::All);
    assert_eq!(backlog.len(), 2);
    assert!(backlog
        .iter()
        .any(|item| item.title == "Import existing docs"
            && item.status == "accepted"
            && item.risk.as_deref() == Some("normal")));
    assert!(backlog
        .iter()
        .any(|item| item.title == "Keep installer checksum"
            && item.status == "implemented"
            && item.risk.as_deref() == Some("high_risk")));
}

#[test]
fn filters_open_and_closed_backlog_items() {
    let connection = initialized();

    let proposed_id = insert(
        &connection,
        &add_backlog(&item("Proposed item", RiskLane::Tiny, Some("Should improve trace review."))),
    );
    let implemented_id = insert(
        &connection,
        &add_backlog(&item(
            "Implemented item",
            RiskLane::Normal,
            Some("Should reduce missing proof."),
        )),
    );
    close(
        &connection,
        BacklogCloseInput {
            id: implemented_id,
            status: "implemented".to_owned(),
            actual_outcome: Some("Proof gaps were found earlier.".to_owned()),
        },
    )
    .unwrap();

    let all = backlog(&connection, BacklogFilter::All);
    let open = backlog(&connection, BacklogFilter::Open);
    let closed = backlog(&connection, BacklogFilter::Closed);

    assert_eq!(all.len(), 2);
    assert_eq!(open.len(), 1);
    assert_eq!(open[0].id, proposed_id);
    assert_eq!(closed.len(), 1);
    assert_eq!(closed[0].id, implemented_id);
    assert_eq!(
        closed[0].actual_outcome.as_deref(),
        Some("Proof gaps were found earlier.")
    );
}

fn score_source(connection: &Connection, id: Option<i64>) -> Result<TraceScoreSource> {
    let row = one(connection, &find_trace_to_score(id), |row| {
        Ok(TraceScoreSource {
            id: row.get(0)?,
            task_summary: row.get(1)?,
            intake_id: row.get(2)?,
            risk_lane: row.get(3)?,
            agent: row.get(4)?,
            actions_taken: row.get(5)?,
            files_read: row.get(6)?,
            files_changed: row.get(7)?,
            decisions_made: row.get(8)?,
            errors: row.get(9)?,
            outcome: row.get(10)?,
            duration_seconds: row.get(11)?,
            token_estimate: row.get(12)?,
            harness_friction: row.get(13)?,
            notes: row.get(14)?,
        })
    });
    trace_to_score(id, row)
}

fn context_source(connection: &Connection, id: i64) -> Result<ContextScoreSource> {
    let row = one(connection, &find_context_to_score(id), |row| {
        Ok(ContextScoreSource {
            id: row.get(0)?,
            risk_lane: row.get(1)?,
            story_id: row.get(2)?,
            files_read: row.get(3)?,
            files_changed: row.get(4)?,
            outcome: row.get(5)?,
        })
    });
    context_to_score(id, row)
}

#[test]
fn latest_and_specific_trace_are_found_with_their_lane() {
    let connection = initialized();
    assert!(matches!(score_source(&connection, None), Err(HarnessInfraError::NoTraces)));
    let intake_id = insert(
        &connection,
        &record_intake(&IntakeInput {
            input_type: "harness_improvement".to_owned(),
            summary: "High risk trace quality test".to_owned(),
            risk_lane: RiskLane::HighRisk,
            risk_flags: None,
            affected_docs: None,
            story_id: None,
            notes: None,
        }),
    );
    let first_trace = insert(
        &connection,
        &record_trace(&TraceInput { agent: None, ..trace("Minimal trace test", None) }),
    );
    insert(
        &connection,
        &record_trace(&TraceInput {
            intake_id: Some(intake_id),
            actions: Some("[\"read\",\"patched\"]".to_owned()),
            files_read: Some("[\"PHASE3.md\"]".to_owned()),
            ..trace("Standard trace linked to high risk intake", Some("none"))
        }),
    );

    let latest = score_source(&connection, None).unwrap();
    assert_eq!(latest.task_summary, "Standard trace linked to high risk intake");
    assert_eq!(latest.risk_lane.as_deref(), Some("high_risk"));
    assert_eq!(latest.decisions_made, None);

    let specific = score_source(&connection, Some(first_trace)).unwrap();
    assert_eq!(specific.id, first_trace);
    assert_eq!(specific.risk_lane, None);
    assert!(matches!(
        score_source(&connection, Some(99)),
        Err(HarnessInfraError::TraceNotFound(99))
    ));

    let context = context_source(&connection, latest.id).unwrap();
    assert_eq!(context.files_read.as_deref(), Some("[\"PHASE3.md\"]"));
    assert!(matches!(
        context_source(&connection, 98),
        Err(HarnessInfraError::TraceNotFound(98))
    ));
}

#[test]
fn migrate_dry_run_shows_pending_without_applying() {
    let connection = Connection::open_in_memory().unwrap();
    connection.execute_batch(script("001-init.sql")).unwrap();

    let result = migrate(&connection, false, true);

    assert_eq!(result.current_version, 1);
    assert!(result.applied.is_empty());
    assert!(!result.backup_created);
    assert_eq!(schema_version(version_row(&connection)).unwrap(), 1);
}

#[test]
fn migrating_twice_runs_nothing_the_second_time() {
    let connection = Connection::open_in_memory().unwrap();
    connection.execute_batch(script("001-init.sql")).unwrap();
    assert_eq!(migrate(&connection, false, false).applied, vec![2, 3, 4, 5]);
    let again = migrate(&connection, false, false);
    assert_eq!(again.current_version, 5);
    assert!(again.applied.is_empty());
}

#[test]
fn database_without_a_schema_has_version_zero() {
    let connection = Connection::open_in_memory().unwrap();
    assert_eq!(current_version(version_row(&connection)), 0);
    assert!(matches!(
        schema_version(version_row(&connection)),
        Err(HarnessInfraError::Sqlite(_))
    ));
    assert_eq!(schema_version(Err(rusqlite::Error::QueryReturnedNoRows)).unwrap(), 0);
    assert_eq!(init_plan(Some(0)), InitPlan::Upgrade);
    assert_eq!(init_plan(Some(5)), InitPlan::Keep(5));
    assert!(matches!(
        init_result(InitPlan::Keep(5), "harness.db".into()),
        InitResult::Existing { version: 5, .. }
    ));
}

#[test]
fn missing_row_is_no_error_and_others_are() {
    assert!(matches!(find_row(Ok::<i64, rusqlite::Error>(7)), Ok(Some(7))));
    assert!(matches!(
        find_row::<i64>(Err(rusqlite::Error::QueryReturnedNoRows)),
        Ok(None)
    ));
    assert!(matches!(
        find_row::<i64>(Err(rusqlite::Error::InvalidQuery)),
        Err(HarnessInfraError::Sqlite(rusqlite::Error::InvalidQuery))
    ));
}

#[test]
fn first_failing_row_fails_the_query() {
    let rows = vec![
        Ok(1),
        Err(rusqlite::Error::InvalidQuery),
        Err(rusqlite::Error::QueryReturnedNoRows),
    ];
    assert!(matches!(
        collect_rows::<i64>(rows),
        Err(HarnessInfraError::Sqlite(rusqlite::Error::InvalidQuery))
    ));
    assert_eq!(collect_rows(vec![Ok(3), Ok(1)]).unwrap(), [3, 1]);
}

fn cell(value: ValueRef<'_>) -> SqlCell {
    match value {
        ValueRef::Null => SqlCell::Null,
        ValueRef::Integer(number) => SqlCell::Integer(number),
        ValueRef::Real(number) => SqlCell::Real(number.to_string()),
        ValueRef::Text(text) => SqlCell::Text(text.to_vec()),
        ValueRef::Blob(bytes) => SqlCell::Blob(bytes.to_vec()),
    }
}

#[test]
fn query_shows_every_sort_of_cell() {
    let connection = Connection::open_in_memory().unwrap();
    let mut statement = connection
        .prepare("SELECT NULL AS absent, -42 AS number, 1.5 AS half, 'text' AS word, x'0102ff' AS bytes;")
        .unwrap();
    let headers: Vec<String> =
        statement.column_names().iter().map(|name| name.to_string()).collect();
    let rows = statement
        .query_map([], |row| {
            let mut cells = Vec::new();
            for index in 0..5 {
                cells.push(cell(row.get_ref(index)?));
            }
            Ok(cells)
        })
        .unwrap();
    let rows = collect_rows(rows.collect::<Vec<_>>()).unwrap();
    let table: QueryTable = query_table(headers, &rows);
    assert_eq!(table.headers, ["absent", "number", "half", "word", "bytes"]);
    assert_eq!(table.rows, [["", "-42", "1.5", "text", "<3 bytes>"]]);
}

#[test]
fn malformed_text_is_shown_with_replacements() {
    assert_eq!(
        sql_value_to_string(&SqlCell::Text("gr\u{fc}n".as_bytes().to_vec())),
        "gr\u{fc}n"
    );
    assert_eq!(
        sql_value_to_string(&SqlCell::Text(vec![b'a', 0xff, b'b'])),
        "a\u{fffd}b"
    );
    let output = CommandOutput { success: true, stdout: vec![0xc3, 0xa9], stderr: vec![0x80] };
    let (_, result) = verify_story("US-1", "true".to_owned(), &output);
    assert_eq!(result.stdout, "\u{e9}");
    assert_eq!(result.stderr, "\u{fffd}");
}

#[test]
fn stale_and_unverified_records_are_found() {
    let connection = initialized();
    run(&connection, &add_story(&story("US-OLD", "Old story", None)));
    insert(
        &connection,
        &record_trace(&TraceInput {
            story_id: Some("US-OLD".to_owned()),
            ..trace("Old trace", None)
        }),
    );
    assert!(findings(&connection, STALE_STORIES).is_empty());
    connection
        .execute("UPDATE trace SET created_at=datetime('now', '-31 days');", [])
        .unwrap();
    assert_eq!(findings(&connection, STALE_STORIES)[0].id, "US-OLD");
    assert!(findings(&connection, ORPHANED_STORIES).is_empty());
    run(
        &connection,
        &add_decision(&DecisionAddInput {
            id: "0009-open".to_owned(),
            title: "Open".to_owned(),
            status: "proposed".to_owned(),
            doc_path: Some("docs/decisions/0009-open.md".to_owned()),
            verify_command: Some("true".to_owned()),
            predicted_impact: None,
            notes: None,
        }),
    );
    assert_eq!(findings(&connection, UNVERIFIED_DECISIONS)[0].title, "Open");
}

#[test]
fn failing_script_is_taken_back_as_a_whole() {
    let connection = initialized();
    let script = "CREATE TABLE extra (id INTEGER);\n\
                  INSERT INTO schema_version (version) VALUES (6);\n\
                  ALTER TABLE story ADD COLUMN title TEXT;";
    assert!(run_script(&connection, script).is_err());
    assert!(connection.is_autocommit());
    assert_eq!(schema_version(version_row(&connection)).unwrap(), 5);
    assert!(connection.prepare("SELECT id FROM extra;").is_err());

    let mended = "CREATE TABLE extra (id INTEGER); -- no semicolon at the end\n\
                  INSERT INTO schema_version (version) VALUES (6)";
    run_script(&connection, mended).unwrap();
    assert!(connection.is_autocommit());
    assert_eq!(schema_version(version_row(&connection)).unwrap(), 6);
}

#[test]
fn script_with_its_own_transaction_is_run_as_it_is() {
    let connection = initialized();
    let good = "-- version six\n\nbegin transaction;\n\
                INSERT INTO schema_version (version) VALUES (6);\nCOMMIT;\n";
    run_script(&connection, good).unwrap();
    assert_eq!(schema_version(version_row(&connection)).unwrap(), 6);
    let bad = "BEGIN;\nINSERT INTO schema_version (version) VALUES (7);\nSELECT nonsense;\nCOMMIT;";
    assert!(run_script(&connection, bad).is_err());
    assert!(connection.is_autocommit());
    assert_eq!(schema_version(version_row(&connection)).unwrap(), 6);
}

#[test]
fn table_rebuild_with_its_own_transaction_is_run_as_it_is() {
    let connection = initialized();
    run(&connection, &add_story(&story("US-R", "Rebuilt", None)));
    let rebuild = "PRAGMA foreign_keys=OFF;\n/* rebuild; */ BEGIN;\n\
                   CREATE TABLE kept AS SELECT * FROM story;\n\
                   INSERT INTO schema_version (version) VALUES (6);\n\
                   COMMIT;\nPRAGMA foreign_keys=ON;";
    run_script(&connection, rebuild).unwrap();
    assert_eq!(schema_version(version_row(&connection)).unwrap(), 6);
    let failing = "PRAGMA foreign_keys=OFF;\nBEGIN TRANSACTION;\n\
                   DELETE FROM story;\nSELECT nonsense;\nCOMMIT;";
    assert!(run_script(&connection, failing).is_err());
    assert!(connection.is_autocommit());
    assert_eq!(matrix(&connection).len(), 1);
    run_script(&connection, "/**/BEGIN;COMMIT;").unwrap();
    run_script(&connection, "vacuum;").unwrap();
}

#[test]
fn script_that_closes_no_transaction_of_its_own_stops_there() {
    let connection = initialized();
    for closing in ["COMMIT", "END", "ROLLBACK"] {
        connection.execute_batch("DELETE FROM schema_version WHERE version > 5;").unwrap();
        let script = format!(
            "INSERT INTO schema_version (version) VALUES (6);\n{closing};\n\
             INSERT INTO schema_version (version) VALUES (7);"
        );
        assert!(run_script(&connection, &script).is_err());
        assert!(connection.is_autocommit());
        assert_eq!(schema_version(version_row(&connection)).unwrap(), 6);
    }
}

#[test]
fn script_with_a_trigger_is_run_in_a_transaction() {
    let connection = initialized();
    let trigger = "CREATE TRIGGER note AFTER INSERT ON story\nBEGIN\n\
                   UPDATE story SET notes='; BEGIN' WHERE id=new.id;\nEND;\n";
    run_script(&connection, trigger).unwrap();
    assert!(run_script(&connection, &format!("DROP TRIGGER note;\n{trigger}SELECT nonsense;")).is_err());
    run(&connection, &add_story(&story("US-N", "Noted", None)));
    let notes: String = connection
        .query_row("SELECT notes FROM story WHERE id='US-N';", [], |row| row.get(0))
        .unwrap();
    assert_eq!(notes, "; BEGIN");
}

#[test]
fn set_up_creates_upgrades_or_keeps() {
    let connection = Connection::open_in_memory().unwrap();
    assert!(matches!(init(&connection, true), InitResult::MigratedExisting { .. }));
    assert_eq!(schema_version(version_row(&connection)).unwrap(), 5);
    assert!(matches!(init(&connection, true), InitResult::Existing { version: 5, .. }));
}

#[test]
fn open_and_closed_items_make_up_the_backlog() {
    let connection = initialized();
    for (title, status) in [
        ("a", "rejected"),
        ("b", "accepted"),
        ("c", "implemented"),
        ("d", "proposed"),
        ("e", "accepted"),
    ] {
        let id = insert(&connection, &add_backlog(&item(title, RiskLane::Tiny, None)));
        close(
            &connection,
            BacklogCloseInput { id, status: status.to_owned(), actual_outcome: None },
        )
        .unwrap();
    }
    let keys = |filter: BacklogFilter| -> Vec<(String, i64)> {
        backlog(&connection, filter).into_iter().map(|row| (row.status, row.id)).collect()
    };
    let all = keys(BacklogFilter::All);
    let open = keys(BacklogFilter::Open);
    let closed = keys(BacklogFilter::Closed);
    assert_eq!(
        open,
        [("accepted".to_owned(), 2), ("accepted".to_owned(), 5), ("proposed".to_owned(), 4)]
    );
    assert_eq!(closed, [("implemented".to_owned(), 3), ("rejected".to_owned(), 1)]);
    let mut both = [open, closed].concat();
    both.sort();
    assert_eq!(both, all);
}

#[test]
fn last_trace_is_the_one_with_the_greatest_number() {
    let connection = initialized();
    for summary in ["one", "two", "three"] {
        insert(&connection, &record_trace(&trace(summary, None)));
    }
    connection.execute("DELETE FROM trace WHERE id=2;", []).unwrap();
    assert_eq!(
        score_source(&connection, None).unwrap(),
        score_source(&connection, Some(3)).unwrap()
    );
    assert!(matches!(
        score_source(&connection, Some(2)),
        Err(HarnessInfraError::TraceNotFound(2))
    ));
    assert!(matches!(
        score_source(&Connection::open_in_memory().unwrap(), None),
        Err(HarnessInfraError::Sqlite(_))
    ));
}
