//! Proposals, migrations, verification and errors.
use harness_store::audit::{AuditFinding, AuditResult};
use harness_store::commit::ProposalCommit;
use harness_store::error::HarnessInfraError;
use harness_store::migrate::{
    dry_run_line, dry_run_summary, migrate_plan, migration_files, pending_migrations, version_of,
    MigratePlan, Migration,
};
use harness_store::migrate_run::{MigrateAction, MigrateEvent, MigrateRun};
use harness_store::proposal::{
    can_shorten, confidence_for_count, propose, repeated_values, short_title,
};
use harness_store::repository::{
    require_backup, require_brownfield_path, require_database, require_schema, HarnessContext,
    SqliteHarnessRepository,
};
use harness_store::script::{cannot_be_wrapped, ScriptRun};
use harness_store::statement::SqlParam;
use harness_store::verify::{
    decision_command, story_command, verifier_shell, CommandOutput, StoryToVerify,
    StoryVerification,
};

fn owned(texts: &[&str]) -> Vec<String> {
    texts.iter().map(|text| text.to_string()).collect()
}

fn no_findings() -> AuditResult {
    AuditResult {
        orphaned_stories: Vec::new(),
        unverified_stories: Vec::new(),
        unverified_decisions: Vec::new(),
        backlog_without_outcomes: Vec::new(),
        stale_stories: Vec::new(),
        broken_tools: Vec::new(),
    }
}

#[test]
fn recurring_values_are_counted_by_token() {
    let values = owned(&["Slow build", "flaky", "slow-build", " SLOW BUILD ", "Flaky", "once"]);
    assert_eq!(
        repeated_values(&values),
        [("Slow build".to_owned(), 3), ("flaky".to_owned(), 2)]
    );
    assert!(repeated_values(&owned(&["a", "b"])).is_empty());
}

#[test]
fn confidence_grows_with_the_count() {
    assert_eq!(confidence_for_count(2), "medium");
    assert_eq!(confidence_for_count(3), "high");
}

#[test]
fn titles_are_short() {
    assert_eq!(short_title(" one  two\nthree "), "one two three");
    assert_eq!(short_title("1 2 3 4 5 6 7 8 9"), "1 2 3 4 5 6 7 8");
    let fits = "x".repeat(72);
    assert_eq!(short_title(&fits), fits);
    let long = "x".repeat(73);
    assert_eq!(short_title(&long), format!("{}...", "x".repeat(69)));
    assert_eq!(short_title(&long).len(), 72);
    let wide = "\u{e9}".repeat(40);
    assert!(!can_shorten(&wide));
    assert!(can_shorten(&format!("x{wide}")));
    assert_eq!(
        short_title(&format!("x{wide}")),
        format!("x{}...", "\u{e9}".repeat(34))
    );
}

#[test]
fn proposals_name_what_recurs_and_what_drifted() {
    let mut audit = no_findings();
    audit.stale_stories.push(AuditFinding { id: "US-1".to_owned(), title: "One".to_owned() });
    audit.stale_stories.push(AuditFinding { id: "US-2".to_owned(), title: "Two".to_owned() });
    let proposals = propose(
        &[("Slow build".to_owned(), 3)],
        &[("correction: no unwrap".to_owned(), 2)],
        &audit,
    );
    assert_eq!(proposals.len(), 3);
    assert_eq!(proposals[0].title, "Reduce repeated friction: Slow build");
    assert_eq!(proposals[0].evidence, "3 traces recorded similar friction: Slow build");
    assert_eq!(proposals[0].confidence, "high");
    assert_eq!(proposals[1].title, "Address repeated intervention: correction: no unwrap");
    assert_eq!(
        proposals[1].evidence,
        "2 interventions share the pattern: correction: no unwrap"
    );
    assert_eq!(proposals[1].confidence, "medium");
    assert_eq!(proposals[2].title, "Clean up stale unfinished stories");
    assert_eq!(proposals[2].evidence, "Audit found 2 stale unfinished stories.");
    assert_eq!(proposals[2].risk, "tiny");
    assert!(proposals.iter().all(|proposal| proposal.committed_backlog_id.is_none()));
    assert!(propose(&[], &[], &no_findings()).is_empty());
}

#[test]
fn stored_proposal_keeps_its_reasons() {
    let mut proposals = propose(&[("Slow build".to_owned(), 2)], &[], &no_findings());
    let statement = proposals[0].statement();
    assert_eq!(
        statement.params[0],
        SqlParam::Text("Reduce repeated friction: Slow build".to_owned())
    );
    assert_eq!(statement.params[3], SqlParam::Text("normal".to_owned()));
    assert_eq!(
        statement.params[5],
        SqlParam::Text(
            "component: Failure attribution; confidence: medium; validation: Review the next \
             five related traces and compare friction frequency."
                .to_owned()
        )
    );
    proposals[0].commit(12);
    assert_eq!(proposals[0].committed_backlog_id, Some(12));
}

fn named(migrations: &[Migration]) -> Vec<(i64, &str)> {
    migrations.iter().map(|migration| (migration.version, migration.name.as_str())).collect()
}

#[test]
fn versions_are_read_out_of_file_names() {
    assert_eq!(version_of("001-init.sql"), Some(1));
    assert_eq!(version_of("010-x-y.sql"), Some(10));
    assert_eq!(version_of("+7-x.sql"), Some(7));
    assert_eq!(version_of("000-none.sql"), None);
    assert_eq!(version_of("notes.sql"), None);
    assert_eq!(version_of("-1.sql"), None);
    assert_eq!(version_of("5.sql"), None);
    assert_eq!(version_of("001-init.txt"), None);
    assert_eq!(version_of(".sql"), None);
    assert_eq!(version_of("9223372036854775807-max.sql"), Some(i64::MAX));
    assert_eq!(version_of("9223372036854775808-over.sql"), None);
}

#[test]
fn scripts_are_ordered_by_version() {
    let names = owned(&["010-j.sql", "2-b.sql", "README.md", "001-a.sql", "002-c.sql"]);
    let files = migration_files(&names);
    assert_eq!(
        named(&files),
        [(1, "001-a.sql"), (2, "2-b.sql"), (2, "002-c.sql"), (10, "010-j.sql")]
    );
    let pending = pending_migrations(files, 1);
    assert_eq!(named(&pending), [(2, "2-b.sql"), (2, "002-c.sql"), (10, "010-j.sql")]);
    let reached = pending.last().unwrap().version;
    assert!(pending_migrations(pending, reached).is_empty());
}

#[test]
fn dry_run_tells_what_would_be_run() {
    assert_eq!(
        dry_run_line(3, "-- tools\n-- more\nCREATE TABLE tool (\n"),
        "Migration 003: CREATE TABLE tool ("
    );
    assert_eq!(dry_run_line(4, "-- only a comment\n"), "Migration 004: ");
    assert_eq!(dry_run_line(5, "\nSELECT 1;"), "Migration 005: ");
    assert_eq!(
        dry_run_line(6, "ALTER TABLE story ADD COLUMN priority TEXT DEFAULT 'normal';"),
        "Migration 006: ALTER TABLE story ADD COLUMN priority TEXT DEFAULT 'normal';"
    );
    assert_eq!(
        dry_run_line(7, "CREATE TABLE story_dependency (...);"),
        "Migration 007: CREATE TABLE story_dependency (...);"
    );
    assert_eq!(dry_run_line(42, ""), "Migration 042: ");
    assert_eq!(dry_run_line(100, ""), "Migration 100: ");
    assert_eq!(dry_run_line(1234, ""), "Migration 1234: ");
    assert_eq!(
        dry_run_summary(&migration_files(&owned(&["007-b.sql", "006-a.sql"])), 5),
        "Would apply 2 migrations (schema 5 -> 7)."
    );
    assert_eq!(dry_run_summary(&[], 5), "Already up to date.");
    let pending = migration_files(&owned(&["002-a.sql", "005-b.sql"]));
    assert_eq!(
        dry_run_summary(&pending, 1),
        "Would apply 2 migrations (schema 1 -> 5)."
    );
    assert_eq!(migrate_plan(true, true), MigratePlan::Repair);
    assert_eq!(migrate_plan(false, true), MigratePlan::DryRun);
    assert_eq!(migrate_plan(false, false), MigratePlan::Apply);
}

/// Answers every action of a migration of a database of version 1.
fn actions(run: &mut MigrateRun) -> Vec<MigrateAction> {
    let mut actions = Vec::new();
    loop {
        let action = run.action();
        match action {
            MigrateAction::Finish => return actions,
            MigrateAction::ReadVersion => run.advance(MigrateEvent::Version(1)),
            MigrateAction::ListScripts => run.advance(MigrateEvent::Names(owned(&[
                "003-c.sql",
                "001-a.sql",
                "002-b.sql",
            ]))),
            _ => run.advance(MigrateEvent::Done),
        }
        actions.push(action);
    }
}

#[test]
fn database_is_copied_before_scripts_are_run() {
    let mut run = MigrateRun::new(false, false);
    assert_eq!(
        actions(&mut run),
        [
            MigrateAction::ReadVersion,
            MigrateAction::Backup,
            MigrateAction::ListScripts,
            MigrateAction::Run { version: 2, name: "002-b.sql".to_owned() },
            MigrateAction::Run { version: 3, name: "003-c.sql".to_owned() },
        ]
    );
    let result = run.result();
    assert_eq!(result.current_version, 1);
    assert_eq!(result.applied, [2, 3]);
    assert!(result.backup_created);
}

#[test]
fn migrate_dry_run_no_backup_created() {
    let mut run = MigrateRun::new(false, true);
    assert_eq!(
        actions(&mut run),
        [
            MigrateAction::ReadVersion,
            MigrateAction::ListScripts,
            MigrateAction::Tell { version: 2, name: "002-b.sql".to_owned() },
            MigrateAction::Tell { version: 3, name: "003-c.sql".to_owned() },
            MigrateAction::Summarize("Would apply 2 migrations (schema 1 -> 3).".to_owned()),
        ]
    );
    let result = run.result();
    assert!(result.applied.is_empty());
    assert!(!result.backup_created);
}

/// Plays a migration on a database and its copy, of which each script changes the first.
fn play(run: &mut MigrateRun, database: &mut String, backup: &mut Option<String>) {
    loop {
        let event = match run.action() {
            MigrateAction::Finish => return,
            MigrateAction::Restore => {
                *database = backup.clone().unwrap();
                MigrateEvent::Done
            }
            MigrateAction::Backup => {
                *backup = Some(database.clone());
                MigrateEvent::Done
            }
            MigrateAction::ReadVersion => MigrateEvent::Version(database.len() as i64),
            MigrateAction::ListScripts => {
                MigrateEvent::Names(owned(&["002-b.sql", "003-c.sql"]))
            }
            MigrateAction::Run { name, .. } => {
                database.push_str(&name);
                MigrateEvent::Done
            }
            _ => MigrateEvent::Done,
        };
        run.advance(event);
    }
}

#[test]
fn repair_gives_back_what_was_there() {
    let mut database = "x".to_owned();
    let mut backup = Some("older".to_owned());
    play(&mut MigrateRun::new(false, false), &mut database, &mut backup);
    assert_eq!(database, "x002-b.sql003-c.sql");
    assert_eq!(backup.as_deref(), Some("x"));
    database = "corrupted".to_owned();
    for dry_run in [false, true] {
        let mut repair = MigrateRun::new(true, dry_run);
        play(&mut repair, &mut database, &mut backup);
        assert_eq!(database, "x");
        assert_eq!(backup.as_deref(), Some("x"));
        let result = repair.result();
        assert_eq!(result.current_version, 1);
        assert!(result.applied.is_empty());
        assert!(!result.backup_created);
    }
}

#[test]
fn migrate_backup_overwrites_previous() {
    let mut database = "x".to_owned();
    let mut backup = None;
    play(&mut MigrateRun::new(false, false), &mut database, &mut backup);
    assert_eq!(backup.as_deref(), Some("x"));
    database.push_str(" with a new intake");
    let changed = database.clone();
    let mut second = MigrateRun::new(false, false);
    play(&mut second, &mut database, &mut backup);
    assert_eq!(backup, Some(changed));
    assert!(second.result().backup_created);
}

fn batches(sql: &str, failing: usize) -> Vec<String> {
    let mut script = ScriptRun::new(sql.to_owned());
    let mut batches = Vec::new();
    while let Some(batch) = script.batch() {
        batches.push(batch.to_owned());
        let success = batches.len() != failing;
        script.advance(success);
    }
    batches
}

#[test]
fn script_is_run_in_a_transaction() {
    assert_eq!(batches("SELECT 1;", 0), ["BEGIN;", "SELECT 1;", "COMMIT;"]);
    assert_eq!(batches("SELECT 1;", 1), ["BEGIN;"]);
    assert_eq!(batches("SELECT 1;", 2), ["BEGIN;", "SELECT 1;", "ROLLBACK;"]);
    assert_eq!(batches("SELECT 1;", 3), ["BEGIN;", "SELECT 1;", "COMMIT;", "ROLLBACK;"]);
    let own = " \n-- note\n  Begin Transaction; SELECT 1; COMMIT;";
    assert_eq!(batches(own, 0), [own]);
    assert_eq!(batches(own, 1), [own, "ROLLBACK;"]);
    for alone in [
        "/**/BEGIN;COMMIT;",
        "PRAGMA foreign_keys=OFF;\n\nBegin;\nSELECT 1;\nCOMMIT;",
        "\u{feff}-- x\n;;/* begin */ bEgIn IMMEDIATE; COMMIT;",
        "SELECT 'it''s';BEGIN;COMMIT;",
        "VACUUM;",
        "INSERT INTO x VALUES (1); Commit; INSERT INTO x VALUES (2);",
        "INSERT INTO x VALUES (1); END; INSERT INTO x VALUES (2);",
        "INSERT INTO x VALUES (1); ROLLBACK; INSERT INTO x VALUES (2);",
        "CREATE TEMP TRIGGER t AFTER INSERT ON x BEGIN SELECT 1; END; END;",
    ] {
        assert!(cannot_be_wrapped(alone));
        assert_eq!(batches(alone, 0), [alone]);
    }
    for wrapped in [
        "",
        "SELECT '; BEGIN';",
        "SELECT \"; BEGIN\", [; BEGIN], `; BEGIN`;",
        "-- BEGIN;\n/* ; BEGIN; */ SELECT 1;",
        "SELECT 1 /* ; BEGIN",
        "BEGINNING;",
        "SELECT BEGIN FROM x;",
        "CREATE TRIGGER t AFTER INSERT ON x BEGIN SELECT CASE 1 WHEN 1 THEN 2 END; SELECT 2;; END;",
        "CREATE TEMPORARY TRIGGER t AFTER INSERT ON x BEGIN SELECT 1; /* */ end; SELECT 3;",
        "CREATE TABLE trigger (x); SELECT 1;",
        "\u{a0}BEGIN;",
    ] {
        assert!(!cannot_be_wrapped(wrapped));
        assert_eq!(batches(wrapped, 0), ["BEGIN;", wrapped, "COMMIT;"]);
    }
    let trigger = "CREATE TRIGGER t AFTER INSERT ON x\nBEGIN\n SELECT 1;\nEND;";
    assert_eq!(batches(trigger, 0), ["BEGIN;", trigger, "COMMIT;"]);
}

#[test]
fn each_proposal_is_stored_once_and_in_order() {
    let proposals = propose(
        &[("Slow build".to_owned(), 3), ("flaky".to_owned(), 2)],
        &[],
        &no_findings(),
    );
    let mut commit = ProposalCommit::new(proposals.clone());
    let mut statements = Vec::new();
    while let Some(statement) = commit.next() {
        assert_eq!(commit.next().as_ref(), Some(&statement));
        statements.push(statement);
        commit.stored(40 + statements.len() as i64);
    }
    assert_eq!(statements, [proposals[0].statement(), proposals[1].statement()]);
    let committed = commit.into_result();
    assert_eq!(committed.len(), 2);
    for (index, proposal) in committed.iter().enumerate() {
        assert_eq!(proposal.committed_backlog_id, Some(41 + index as i64));
        assert_eq!(proposal.title, proposals[index].title);
    }
    let none = ProposalCommit::new(Vec::new());
    assert!(none.next().is_none());
    assert!(none.into_result().is_empty());
}

#[test]
fn title_is_its_own_title() {
    for value in [
        "",
        " one  two\nthree ",
        "1 2 3 4 5 6 7 8 9",
        &"x".repeat(80),
        &format!("{} {} z", "a".repeat(68), "b".repeat(9)),
        &format!("{} {} z", "a".repeat(67), "b".repeat(9)),
    ] {
        let title = short_title(value);
        assert!(title.len() <= 72);
        let words: Vec<&str> = title.split_whitespace().collect();
        assert!(words.len() <= 8);
        assert_eq!(words.join(" "), title);
        assert_eq!(short_title(&title), title);
    }
}

#[test]
fn repair_runs_no_script() {
    let mut run = MigrateRun::new(true, false);
    assert_eq!(actions(&mut run), [MigrateAction::Restore, MigrateAction::ReadVersion]);
    let result = run.result();
    assert_eq!(result.current_version, 1);
    assert!(result.applied.is_empty());
    assert!(!result.backup_created);
}

#[test]
fn unasked_events_change_nothing() {
    let mut run = MigrateRun::new(false, false);
    run.advance(MigrateEvent::Done);
    run.advance(MigrateEvent::Names(owned(&["002-b.sql"])));
    assert_eq!(run.action(), MigrateAction::ReadVersion);
    run.advance(MigrateEvent::Version(2));
    run.advance(MigrateEvent::Version(7));
    assert_eq!(run.action(), MigrateAction::Backup);
    run.advance(MigrateEvent::Done);
    run.advance(MigrateEvent::Names(owned(&["002-b.sql"])));
    assert_eq!(run.action(), MigrateAction::Finish);
    let result = run.result();
    assert_eq!(result.current_version, 2);
    assert!(result.applied.is_empty());
    assert!(result.backup_created);
}

#[test]
fn shell_depends_on_the_system() {
    assert_eq!(verifier_shell(true), ("cmd", "/C"));
    assert_eq!(verifier_shell(false), ("sh", "-c"));
}

#[test]
fn commands_come_from_the_row_that_was_found() {
    assert_eq!(story_command("US-1", Some(Some("true".to_owned()))).unwrap(), "true");
    assert_eq!(story_command("US-1", Some(Some(" ".to_owned()))).unwrap(), " ");
    for found in [None, Some(None), Some(Some(String::new()))] {
        assert!(matches!(
            story_command("US-1", found.clone()),
            Err(HarnessInfraError::MissingStoryVerifyCommand(id)) if id == "US-1"
        ));
        assert!(matches!(
            decision_command("0001-x", found),
            Err(HarnessInfraError::MissingDecisionVerifyCommand(id)) if id == "0001-x"
        ));
    }
}

#[test]
fn blank_commands_are_skipped() {
    let story = |id: &str, command: Option<&str>| StoryToVerify {
        id: id.to_owned(),
        title: id.to_owned(),
        verify_command: command.map(str::to_owned),
    };
    let mut verification = StoryVerification::new(vec![
        story("US-1", Some("  ")),
        story("US-2", Some(" true ")),
        story("US-3", None),
    ]);
    assert_eq!(verification.next_command(), Some(" true ".to_owned()));
    assert_eq!(verification.next_command(), Some(" true ".to_owned()));
    let statement = verification.finish(&CommandOutput {
        success: true,
        stdout: Vec::new(),
        stderr: Vec::new(),
    });
    assert_eq!(
        statement.params,
        [SqlParam::Text("pass".to_owned()), SqlParam::Text("US-2".to_owned())]
    );
    assert_eq!(verification.next_command(), None);
    let result = verification.into_result();
    let results: Vec<&str> = result.items.iter().map(|item| item.result.as_str()).collect();
    assert_eq!(results, ["skipped", "pass", "skipped"]);
    assert_eq!(result.passed() + result.failed() + result.skipped(), 3);
}

#[test]
fn missing_files_are_named() {
    assert!(require_database(true, "db".to_owned()).is_ok());
    assert!(require_backup(true, "db.bak".to_owned()).is_ok());
    assert!(require_schema(true, "001-init.sql".to_owned()).is_ok());
    assert!(require_brownfield_path(true, "docs".to_owned()).is_ok());
    for (result, message) in [
        (
            require_database(false, "a/harness.db".to_owned()),
            "database not found at a/harness.db. Run: harness init",
        ),
        (
            require_backup(false, "a/harness.db.bak".to_owned()),
            "backup not found at a/harness.db.bak. Cannot repair.",
        ),
        (
            require_schema(false, "s/001-init.sql".to_owned()),
            "schema file missing: s/001-init.sql",
        ),
        (
            require_brownfield_path(false, "docs/TEST_MATRIX.md".to_owned()),
            "brownfield import: missing docs/TEST_MATRIX.md",
        ),
    ] {
        assert_eq!(result.unwrap_err().message(), message);
    }
}

#[test]
fn errors_are_told_in_words() {
    for (error, message) in [
        (
            HarnessInfraError::MissingDecisionVerifyCommand("0001-x".to_owned()),
            "decision 0001-x has no verify_command. Configure one with: harness-cli decision add \
             --id 0001-x --title <title> --verify \"<command>\"",
        ),
        (
            HarnessInfraError::MissingStoryVerifyCommand("US-1".to_owned()),
            "story US-1 has no verify_command. Configure one with: harness-cli story update --id \
             US-1 --verify \"<command>\"",
        ),
        (
            HarnessInfraError::StoryNotFound("US-1".to_owned()),
            "story update: story 'US-1' not found",
        ),
        (
            HarnessInfraError::ToolAlreadyExists("t".to_owned(), "c".to_owned()),
            "tool register: tool 't' already exists with command 'c'",
        ),
        (
            HarnessInfraError::ToolNotFound("t".to_owned()),
            "tool remove: tool 't' not found",
        ),
        (
            HarnessInfraError::ToolCommandNotFound("c".to_owned()),
            "tool register: command 'c' was not found. Re-run with --force to register anyway.",
        ),
        (HarnessInfraError::ToolValidation("too short".to_owned()), "too short"),
        (
            HarnessInfraError::BacklogNotFound(-3),
            "backlog close: backlog item '-3' not found",
        ),
        (HarnessInfraError::TraceNotFound(8), "trace '8' not found"),
        (HarnessInfraError::NoTraces, "no traces found"),
        (HarnessInfraError::EmptyStoryUpdate, "story update: nothing to update"),
        (
            HarnessInfraError::from(rusqlite::Error::InvalidQuery),
            "sqlite error: Query is not read-only",
        ),
        (
            HarnessInfraError::from(std::io::Error::new(std::io::ErrorKind::Other, "disk on fire")),
            "io error: disk on fire",
        ),
    ] {
        assert_eq!(error.message(), message);
    }
}

#[test]
fn repository_knows_its_paths() {
    let context = HarnessContext {
        repo_root: "repo".into(),
        db_path: "harness.db".into(),
        schema_dir: "scripts/schema".into(),
    };
    let repository = SqliteHarnessRepository::from(context);
    assert_eq!(repository.repo_root().to_str(), Some("repo"));
    assert_eq!(repository.db_path().to_str(), Some("harness.db"));
    assert_eq!(repository.schema_dir().to_str(), Some("scripts/schema"));
    let same =
        SqliteHarnessRepository::new("a".into(), "b".into(), "c".into());
    assert_eq!(same.db_path().to_str(), Some("b"));
}
