//! What the operations of the library give back, said of what they are given.
use vstd::prelude::*;

use crate::audit::AuditResult;
use crate::backlog::{normalize_backlog_status, BacklogImport};
use crate::backlog_laws::law_backlog_status_is_read_by_name;
use crate::backlog_table::{
    add_backlog, backlog_closed, close_backlog, query_backlog, BacklogAddInput, BacklogCloseInput,
    BacklogFilter,
};
use crate::columns::{
    backlog_closing_row, backlog_item_row, decision_row, decision_verdict_row, given_number,
    given_text, inserts, intake_row, intervention_row, keeps, law_backlog_closing_sets_its_columns,
    law_backlog_item_fills_its_columns, law_decision_fills_its_columns,
    law_decision_verdict_sets_its_columns, law_intake_fills_its_columns,
    law_intervention_fills_its_columns, law_proposal_fills_its_columns,
    law_seeded_decision_fills_its_columns, law_seeded_item_fills_its_columns,
    law_seeded_story_fills_its_columns, law_story_fills_its_columns,
    law_story_update_sets_its_columns, law_story_verdict_sets_its_columns,
    law_tool_fills_its_columns, law_trace_fills_its_columns, proposal_row, seeded_decision_row,
    seeded_item_row, seeded_story_row, story_row, story_update_row, story_verdict_row, tool_row,
    trace_row, updates,
};
use crate::decision::{import_decision, normalize_decision_status, DecisionImport};
use crate::decision_laws::{
    law_decision_comes_from_its_record, law_decision_status_is_read_by_name,
    law_section_value_is_the_first_line_below,
};
use crate::decision_table::{add_decision, DecisionAddInput};
use crate::error::{HarnessInfraError, Result};
use crate::intake::{record_intake, IntakeInput};
use crate::matrix::{
    normalize_story_status, proof_from_cell, story_from_fields, MatrixColumns, StoryImport,
};
use crate::matrix_laws::{
    flag_is_of, law_contract_is_the_title, law_proof_is_denied_in_words,
    law_proofs_come_from_their_own_cells, law_status_comes_from_its_cell,
    law_story_is_named_by_its_cell, law_story_status_is_read_by_name, names_no_story, says_unproved,
    stands_below, written,
};
use crate::migrate::{
    current_version, init_plan, migrate_plan, migrated, not_migrated, schema_version, version_of,
    InitPlan, MigratePlan, MigrateResult, Migration,
};
use crate::migrate_laws::law_scripts_are_numbered;
use crate::number::decimal;
use crate::proposal::{propose, ImprovementProposal};
use crate::proposal_laws::{
    law_drift_is_proposed_by_its_own_list, law_friction_is_proposed_by_its_text_and_count,
    law_interventions_are_proposed_by_text_and_count, law_proposals_stand_in_order, reports_drift,
};
use crate::query::{lossy_text, says_no_row};
use crate::repository::{
    init_result, require_backup, require_brownfield_path, require_database, require_schema,
    InitResult, SqliteHarnessRepository,
};
use crate::seed::{
    import_brownfield, seed_backlog_item, seed_decision, seed_story, BrownfieldImportResult,
};
use crate::statement::{
    optional_integer_param, optional_text_param, text_param, SqlData, SqlParam, SqlStatement,
};
use crate::story::{
    add_story, query_story_verify_status, story_updated, story_verify_status, update_story,
    StoryAddInput, StoryUpdateInput, StoryVerifyStatus,
};
use crate::text::{lines, trim, words};
use crate::token::{normalize_token, token, RiskLane};
use crate::tool::{
    check_registration, find_tool_command, http_endpoint, list_tools_to_check, places_of_tool,
    register_tool, remove_tool, scan_tool_status, tool_removed, Location, Place, ToolRegisterInput,
};
use crate::tool_laws::{
    is_url_tail, law_commands_are_found_by_the_first_word, law_home_stands_for_the_tilde,
    law_no_target_is_no_place, law_other_targets_are_taken_as_written, law_status_by_kind,
    law_url_without_port,
};
use crate::trace::{
    add_intervention, context_to_score, find_context_to_score, find_trace_to_score,
    query_interventions, record_trace, trace_to_score, ContextScoreSource, InterventionAddInput,
    InterventionFilter, TraceInput, TraceScoreSource,
};
use crate::verify::{
    decision_verify_command, find_decision_command, find_story_command, story_verify_command,
    verifier_shell, verify_decision, verify_story, CommandOutput, DecisionVerifyResult,
    StoryVerifyAllResult, StoryVerifyResult,
};

verus! {

/// `propose` proposes each kind of drift by the audit's list of that very kind: once, where the list
/// is not empty, and with the length of the list as its evidence.
pub proof fn law_propose_tells_drift_apart(
    friction: &[(String, usize)],
    interventions: &[(String, usize)],
    audit: &AuditResult,
    r: Vec<ImprovementProposal>,
)
    requires
        call_ensures(propose, (friction, interventions, audit), r),
    ensures
        reports_drift(
            r.deep_view(),
            "orphaned planned or in-progress stories"@,
            audit.orphaned_stories@.len(),
        ),
        reports_drift(
            r.deep_view(),
            "unverified story commands"@,
            audit.unverified_stories@.len(),
        ),
        reports_drift(
            r.deep_view(),
            "unverified decision commands"@,
            audit.unverified_decisions@.len(),
        ),
        reports_drift(
            r.deep_view(),
            "implemented backlog items without outcomes"@,
            audit.backlog_without_outcomes@.len(),
        ),
        reports_drift(r.deep_view(), "stale unfinished stories"@, audit.stale_stories@.len()),
        reports_drift(r.deep_view(), "broken registered tools"@, audit.broken_tools@.len()),
{
    law_drift_is_proposed_by_its_own_list(
        crate::proposal::counted(friction@),
        crate::proposal::counted(interventions@),
        *audit,
    );
}

/// `propose` tells of a friction, and of an intervention, by its own text and count, friction
/// first.
pub proof fn law_propose_tells_texts_and_counts(
    friction: &[(String, usize)],
    interventions: &[(String, usize)],
    audit: &AuditResult,
    r: Vec<ImprovementProposal>,
    i: int,
)
    requires
        call_ensures(propose, (friction, interventions, audit), r),
    ensures
        0 <= i < friction@.len() ==> {
            &&& r@[i].evidence@ == decimal(friction@[i].1 as nat)
                + " traces recorded similar friction: "@ + friction@[i].0@
            &&& r@[i].component@ == "Failure attribution"@
            &&& r@[i].confidence@ == if friction@[i].1 >= 3 {
                "high"@
            } else {
                "medium"@
            }
        },
        0 <= i < interventions@.len() ==> {
            let at = friction@.len() + i;
            &&& r@[at].evidence@ == decimal(interventions@[i].1 as nat)
                + " interventions share the pattern: "@ + interventions@[i].0@
            &&& r@[at].component@ == "Intervention recording"@
            &&& r@[at].confidence@ == if interventions@[i].1 >= 3 {
                "high"@
            } else {
                "medium"@
            }
        },
{
    let a = crate::proposal::counted(friction@);
    let b = crate::proposal::counted(interventions@);
    law_proposals_stand_in_order(a, b, *audit);
    if 0 <= i < friction@.len() {
        law_friction_is_proposed_by_its_text_and_count(a, b, *audit, i);
        assert(r.deep_view()[i] == r@[i].deep_view());
    }
    if 0 <= i < interventions@.len() {
        law_interventions_are_proposed_by_text_and_count(a, b, *audit, i);
        let at = friction@.len() + i;
        assert(r.deep_view()[at] == r@[at].deep_view());
    }
}

/// A story that was read out of a row has in each field what is below the heading of its own name.
pub proof fn law_story_is_read_column_by_column(
    header: &[String],
    columns: MatrixColumns,
    fields: &[String],
    story: StoryImport,
    i: int,
)
    requires
        call_ensures(MatrixColumns::from_header, (header,), columns),
        call_ensures(story_from_fields, (&columns, fields), Some(story)),
    ensures
        flag_is_of(story.unit as int, header.deep_view(), fields.deep_view(), "unit"@),
        flag_is_of(story.integration as int, header.deep_view(), fields.deep_view(), "integration"@),
        flag_is_of(story.e2e as int, header.deep_view(), fields.deep_view(), "e2e"@),
        flag_is_of(story.platform as int, header.deep_view(), fields.deep_view(), "platform"@),
        stands_below(header.deep_view(), "story"@, i) ==> story.id@ == written(
            fields.deep_view(),
            i,
        ),
        stands_below(header.deep_view(), "contract"@, i) && written(fields.deep_view(), i).len() > 0
            ==> story.contract_doc.deep_view() == Some(written(fields.deep_view(), i))
            && story.title@ == written(fields.deep_view(), i),
        stands_below(header.deep_view(), "contract"@, i) && written(fields.deep_view(), i).len()
            == 0 ==> story.contract_doc is None && story.title@ == story.id@,
        stands_below(header.deep_view(), "status"@, i) && token(written(fields.deep_view(), i))
            == "implemented"@ ==> story.status@ == "implemented"@,
        stands_below(header.deep_view(), "status"@, i) && token(written(fields.deep_view(), i))
            == "in_progress"@ ==> story.status@ == "in_progress"@,
        stands_below(header.deep_view(), "status"@, i) && token(written(fields.deep_view(), i))
            == "changed"@ ==> story.status@ == "changed"@,
        stands_below(header.deep_view(), "status"@, i) && token(written(fields.deep_view(), i))
            == "retired"@ ==> story.status@ == "retired"@,
        stands_below(header.deep_view(), "status"@, i) && token(written(fields.deep_view(), i))
            == "planned"@ ==> story.status@ == "planned"@,
{
    let h = header.deep_view();
    let f = fields.deep_view();
    let row = story.deep_view();
    assert(columns.heads(h));
    assert(Some(story).deep_view() == Some(row));
    assert(crate::matrix::story_row(h, f) == Some(row));
    law_proofs_come_from_their_own_cells(h, f, row);
    law_contract_is_the_title(h, f, row, i);
    if stands_below(h, "story"@, i) {
        law_story_is_named_by_its_cell(h, f, i);
    }
    if stands_below(h, "status"@, i) {
        law_status_comes_from_its_cell(h, f, row, i);
        reveal_strlit("planned");
        reveal_strlit("in_progress");
        reveal_strlit("implemented");
        reveal_strlit("changed");
        reveal_strlit("retired");
        assert("planned"@[0] != "in_progress"@[0]);
        assert("planned"@[0] != "implemented"@[0]);
        assert("planned"@[0] != "changed"@[0]);
        assert("planned"@[0] != "retired"@[0]);
    }
}

/// A row is no story exactly where what is below the Story heading names none.
pub proof fn law_rows_without_a_name_are_no_stories(
    header: &[String],
    columns: MatrixColumns,
    fields: &[String],
    r: Option<StoryImport>,
    i: int,
)
    requires
        call_ensures(MatrixColumns::from_header, (header,), columns),
        call_ensures(story_from_fields, (&columns, fields), r),
        stands_below(header.deep_view(), "story"@, i),
    ensures
        r is None <==> names_no_story(written(fields.deep_view(), i)),
{
    assert(columns.heads(header.deep_view()));
    assert(r.deep_view() is None <==> r is None);
    law_story_is_named_by_its_cell(header.deep_view(), fields.deep_view(), i);
}

/// A cell is no proof exactly where it says so.
pub proof fn law_proof_from_cell(value: &str, r: i64)
    requires
        call_ensures(proof_from_cell, (value,), r),
    ensures
        says_unproved(value@) ==> r == 0,
        !says_unproved(value@) ==> r == 1,
{
    law_proof_is_denied_in_words(value@);
}

/// Each status of a decision, a story and a backlog item is read as itself, in any spelling with its
/// token.
pub proof fn law_statuses_are_read_as_themselves(
    value: &str,
    decision: String,
    story: String,
    item: String,
)
    requires
        call_ensures(normalize_decision_status, (value,), decision),
        call_ensures(normalize_story_status, (value,), story),
        call_ensures(normalize_backlog_status, (value,), item),
    ensures
        token(value@) == "proposed"@ ==> decision@ == "proposed"@ && item@ == "proposed"@,
        token(value@) == "accepted"@ ==> decision@ == "accepted"@ && item@ == "accepted"@,
        token(value@) == "superseded"@ ==> decision@ == "superseded"@,
        token(value@) == "rejected"@ ==> decision@ == "rejected"@ && item@ == "rejected"@,
        token(value@) == "implemented"@ ==> story@ == "implemented"@ && item@ == "implemented"@,
        token(value@) == "planned"@ ==> story@ == "planned"@,
        token(value@) == "in_progress"@ ==> story@ == "in_progress"@,
        token(value@) == "changed"@ ==> story@ == "changed"@,
        token(value@) == "retired"@ ==> story@ == "retired"@,
{
    law_decision_status_is_read_by_name(value@, Seq::empty());
    law_story_status_is_read_by_name(value@);
    law_backlog_status_is_read_by_name(value@);
}

/// The status of an imported decision is the one in the first line that is not blank below its
/// Status heading.
pub proof fn law_decision_has_the_status_of_its_record(
    name: &str,
    content: &str,
    r: DecisionImport,
    k: int,
    j: int,
)
    requires
        crate::decision::is_decision_file(name@),
        call_ensures(import_decision, (name, content), r),
        0 <= k < j < lines(content@).len(),
        trim(lines(content@)[k]) == seq!['#', '#', ' '] + "Status"@,
        forall|i: int|
            0 <= i < k ==> trim(#[trigger] lines(content@)[i]) != seq!['#', '#', ' '] + "Status"@,
        forall|i: int| k < i < j ==> trim(#[trigger] lines(content@)[i]).len() == 0,
        trim(lines(content@)[j]).len() > 0,
    ensures
        ({
            let t = token(trim(lines(content@)[j]));
            &&& t == "proposed"@ ==> r.status@ == "proposed"@
            &&& t == "accepted"@ ==> r.status@ == "accepted"@
            &&& t == "superseded"@ ==> r.status@ == "superseded"@
            &&& t == "rejected"@ ==> r.status@ == "rejected"@
        }),
        r.id@ + seq!['.', 'm', 'd'] == name@,
        r.doc_path@ == "docs/decisions/"@ + name@,
{
    law_section_value_is_the_first_line_below(content@, "Status"@, k, j);
    law_decision_comes_from_its_record(name@, content@);
    law_decision_status_is_read_by_name(trim(lines(content@)[j]), Seq::empty());
}

/// A tool of every kind that has a scan target is looked for below the home directory, where its
/// target starts with `~/`.
pub proof fn law_places_below_home(
    kind: &str,
    command: &str,
    target: &str,
    home: &str,
    rest: Seq<char>,
    r: Vec<Place>,
)
    requires
        call_ensures(places_of_tool, (kind, command, Some(target), Some(home)), r),
        kind@ == "mcp"@ || kind@ == "skill"@ || kind@ == "http"@,
        trim(target@) == seq!['~', '/'] + rest,
    ensures
        r.deep_view() == seq![Location::Path(home@ + seq!['/'] + rest)],
{
    assert(Some(target).deep_view() == Some(target@));
    assert(Some(home).deep_view() == Some(home@));
    law_home_stands_for_the_tilde(command@, target@, rest, home@);
}

/// Any other scan target is looked for as it is written, and a command by its first word.
pub proof fn law_places_as_written(
    kind: &str,
    command: &str,
    target: &str,
    home: Option<&str>,
    r: Vec<Place>,
)
    requires
        call_ensures(places_of_tool, (kind, command, Some(target), home), r),
    ensures
        (kind@ == "mcp"@ || kind@ == "skill"@) && trim(target@).len() > 0 && (home is None || trim(
            target@,
        )[0] != '~') ==> r.deep_view() == seq![Location::Path(trim(target@))],
        (kind@ == "mcp"@ || kind@ == "skill"@ || kind@ == "http"@) && trim(target@).len() == 0
            ==> r@.len() == 0,
        (kind@ == "cli"@ || kind@ == "binary"@) && words(command@).len() > 0 && words(
            command@,
        )[0].len() > 0 ==> r.deep_view() == seq![
            if words(command@)[0].contains('/') || words(command@)[0].contains('\\') {
                Location::Path(words(command@)[0])
            } else {
                Location::Command(words(command@)[0])
            },
        ],
{
    assert(Some(target).deep_view() == Some(target@));
    assert(home.deep_view() is None <==> home is None);
    if trim(target@).len() == 0 {
        law_no_target_is_no_place(command@, Some(target@), home.deep_view());
        assert(r.deep_view().len() == r@.len());
    } else if home is None || trim(target@)[0] != '~' {
        law_other_targets_are_taken_as_written(command@, target@, home.deep_view());
    }
    if words(command@).len() > 0 && words(command@)[0].len() > 0 {
        law_commands_are_found_by_the_first_word(command@, Some(target@), home.deep_view());
    }
}

/// A URL gives its host, and the port behind it or that of its scheme.
pub proof fn law_endpoint_of_a_url(
    target: &str,
    host: Seq<char>,
    tail: Seq<char>,
    r: Option<(String, u16)>,
)
    requires
        call_ensures(http_endpoint, (target,), r),
        host.len() > 0,
        !host.contains('/'),
        !host.contains(':'),
        is_url_tail(tail),
    ensures
        target@ == "http://"@ + host + tail ==> {
            r matches Some((name, port)) && name@ == host && port == 80
        },
        target@ == "https://"@ + host + tail ==> {
            r matches Some((name, port)) && name@ == host && port == 443
        },
{
    law_url_without_port(host, tail);
}

/// What is said of a tool is whether it was found, on account of its command or of its target.
pub proof fn law_status_says_what_was_found(
    kind: &str,
    command: &str,
    target: Option<&str>,
    found: bool,
    r: (&'static str, String),
)
    requires
        call_ensures(scan_tool_status, (kind, command, target, found), r),
    ensures
        kind@ == "cli"@ || kind@ == "binary"@ ==> {
            &&& r.0@ == if found {
                "present"@
            } else {
                "missing"@
            }
            &&& r.1@ == command@
        },
        (kind@ == "mcp"@ || kind@ == "skill"@ || kind@ == "http"@) && target is Some && trim(
            target->0@,
        ).len() > 0 ==> {
            &&& r.0@ == if found {
                "present"@
            } else {
                "missing"@
            }
            &&& r.1@ == trim(target->0@)
        },
{
    assert(target is Some ==> target.deep_view() == Some(target->0@));
    law_status_by_kind(command@, target.deep_view(), found);
}

/// A recorded trace has each of its fields in the column of that name.
pub proof fn law_recorded_trace_has_its_columns(input: &TraceInput, r: SqlStatement)
    requires
        call_ensures(record_trace, (input,), r),
    ensures
        inserts(
            r.deep_view(),
            "INSERT INTO trace ("@,
            trace_row(*input),
            ") VALUES ("@,
            ");"@,
        ),
        r.params@.len() == 14,
{
    law_trace_fills_its_columns(*input);
    assert(r.deep_view().params.len() == r.params@.len());
}

/// A recorded intervention has each of its fields in the column of that name.
pub proof fn law_recorded_intervention_has_its_columns(
    input: &InterventionAddInput,
    r: SqlStatement,
)
    requires
        call_ensures(add_intervention, (input,), r),
    ensures
        inserts(
            r.deep_view(),
            "INSERT INTO intervention ("@,
            intervention_row(*input),
            ") VALUES ("@,
            ");"@,
        ),
        r.params@.len() == 6,
{
    law_intervention_fills_its_columns(*input);
    assert(r.deep_view().params.len() == r.params@.len());
}

/// A recorded intake has each of its fields in the column of that name.
pub proof fn law_recorded_intake_has_its_columns(input: &IntakeInput, r: SqlStatement)
    requires
        call_ensures(record_intake, (input,), r),
    ensures
        inserts(
            r.deep_view(),
            "INSERT INTO intake ("@,
            intake_row(*input),
            ") VALUES ("@,
            ");"@,
        ),
        r.params@.len() == 7,
{
    law_intake_fills_its_columns(*input);
    assert(r.deep_view().params.len() == r.params@.len());
}

/// An added story has each of its fields in the column of that name.
pub proof fn law_added_story_has_its_columns(input: &StoryAddInput, r: SqlStatement)
    requires
        call_ensures(add_story, (input,), r),
    ensures
        inserts(
            r.deep_view(),
            "INSERT INTO story ("@,
            story_row(*input),
            ") VALUES ("@,
            ");"@,
        ),
        r.params@.len() == 6,
{
    law_story_fills_its_columns(*input);
    assert(r.deep_view().params.len() == r.params@.len());
}

/// An added decision has each of its fields in the column of that name.
pub proof fn law_added_decision_has_its_columns(input: &DecisionAddInput, r: SqlStatement)
    requires
        call_ensures(add_decision, (input,), r),
    ensures
        inserts(
            r.deep_view(),
            "INSERT INTO decision ("@,
            decision_row(*input),
            ") VALUES ("@,
            ");"@,
        ),
{
    law_decision_fills_its_columns(*input);
}

/// An added backlog item has each of its fields in the column of that name.
pub proof fn law_added_item_has_its_columns(input: &BacklogAddInput, r: SqlStatement)
    requires
        call_ensures(add_backlog, (input,), r),
    ensures
        inserts(
            r.deep_view(),
            "INSERT INTO backlog ("@,
            backlog_item_row(*input),
            ") VALUES ("@,
            ");"@,
        ),
{
    law_backlog_item_fills_its_columns(*input);
}

/// A committed proposal has each of its fields in the column that keeps it.
pub proof fn law_committed_proposal_has_its_columns(
    proposal: &ImprovementProposal,
    r: SqlStatement,
)
    requires
        call_ensures(ImprovementProposal::statement, (proposal,), r),
    ensures
        inserts(
            r.deep_view(),
            "INSERT INTO backlog ("@,
            proposal_row(*proposal),
            ") VALUES ("@,
            ");"@,
        ),
        r.params@.len() == 6,
{
    law_proposal_fills_its_columns(*proposal);
    assert(r.deep_view().params.len() == r.params@.len());
}

/// A tool is registered with each of its fields in the column of that name, where the search for
/// its name found none.
pub proof fn law_registered_tool_has_its_columns(
    input: ToolRegisterInput,
    error: rusqlite::Error,
    r: Result<SqlStatement>,
)
    requires
        call_ensures(register_tool, (input, Err::<String, rusqlite::Error>(error)), r),
    ensures
        says_no_row(error) ==> r is Ok && inserts(
            r->Ok_0.deep_view(),
            "INSERT INTO tool ("@,
            tool_row(input),
            ") VALUES ("@,
            ");"@,
        ),
        !says_no_row(error) ==> r == Err::<SqlStatement, HarnessInfraError>(
            HarnessInfraError::Sqlite(error),
        ),
{
    law_tool_fills_its_columns(input);
}

/// A tool whose name is taken is refused, by that name and the command of the other tool.
pub proof fn law_taken_names_are_refused(
    input: ToolRegisterInput,
    command: String,
    r: Result<SqlStatement>,
)
    requires
        call_ensures(register_tool, (input, Ok::<String, rusqlite::Error>(command)), r),
    ensures
        r == Err::<SqlStatement, HarnessInfraError>(
            HarnessInfraError::ToolAlreadyExists(input.name, command),
        ),
{
}

/// What is imported of a document has each of its fields in the column of that name.
pub proof fn law_seeds_have_their_columns(
    story: &StoryImport,
    decision: &DecisionImport,
    item: &BacklogImport,
    of_story: SqlStatement,
    of_decision: SqlStatement,
    of_item: SqlStatement,
)
    requires
        call_ensures(seed_story, (story,), of_story),
        call_ensures(seed_decision, (decision,), of_decision),
        call_ensures(seed_backlog_item, (item,), of_item),
    ensures
        inserts(
            of_story.deep_view(),
            "INSERT INTO story ("@,
            seeded_story_row(*story),
            ") VALUES ("@,
            ") ON CONFLICT(id) DO UPDATE SET title=excluded.title, contract_doc=excluded.contract_doc, status=excluded.status, unit_proof=excluded.unit_proof, integration_proof=excluded.integration_proof, e2e_proof=excluded.e2e_proof, platform_proof=excluded.platform_proof, evidence=excluded.evidence, notes=excluded.notes;"@,
        ),
        inserts(
            of_decision.deep_view(),
            "INSERT INTO decision ("@,
            seeded_decision_row(*decision),
            ") VALUES ("@,
            ") ON CONFLICT(id) DO UPDATE SET title=excluded.title, status=excluded.status, doc_path=excluded.doc_path, notes=excluded.notes;"@,
        ),
        inserts(
            of_item.deep_view(),
            "INSERT INTO backlog ("@,
            seeded_item_row(*item),
            ") SELECT "@,
            " WHERE NOT EXISTS (SELECT 1 FROM backlog WHERE title=?1);"@,
        ),
{
    law_seeded_story_fills_its_columns(*story);
    law_seeded_decision_fills_its_columns(*decision);
    law_seeded_item_fills_its_columns(*item);
}

/// An update of a story sets what is given in the column of that name, and is refused exactly where
/// nothing is given.
pub proof fn law_story_update_has_its_columns(input: &StoryUpdateInput, r: Result<SqlStatement>)
    requires
        call_ensures(update_story, (input,), r),
    ensures
        r is Err <==> {
            &&& input.status is None
            &&& input.evidence is None
            &&& input.unit is None
            &&& input.integration is None
            &&& input.e2e is None
            &&& input.platform is None
            &&& input.verify_command is None
        },
        r is Err ==> r->Err_0 is EmptyStoryUpdate,
        r is Ok ==> keeps(
            r->Ok_0.deep_view(),
            "UPDATE story SET "@,
            story_update_row(*input),
            " WHERE id="@,
            8,
            SqlData::Text(input.id@),
        ),
{
    law_story_update_sets_its_columns(*input);
}

/// A closed item of the backlog has its status and its outcome in the columns of those names.
pub proof fn law_closing_has_its_columns(input: &BacklogCloseInput, r: SqlStatement)
    requires
        call_ensures(close_backlog, (input,), r),
    ensures
        updates(
            r.deep_view(),
            "UPDATE backlog SET "@,
            backlog_closing_row(*input),
            " WHERE id="@,
            3,
            SqlData::Integer(input.id as int),
        ),
{
    law_backlog_closing_sets_its_columns(*input);
}

/// The verification of a story is reported and kept by whether its command succeeded, with what the
/// command wrote to each of its outputs.
pub proof fn law_story_verification_is_reported(
    id: &str,
    command: String,
    output: &CommandOutput,
    statement: SqlStatement,
    report: StoryVerifyResult,
)
    requires
        call_ensures(verify_story, (id, command, output), (statement, report)),
    ensures
        report.command@ == command@,
        report.result@ == if output.success {
            "pass"@
        } else {
            "fail"@
        },
        report.stdout@ == lossy_text(output.stdout@),
        report.stderr@ == lossy_text(output.stderr@),
        updates(
            statement.deep_view(),
            "UPDATE story SET "@,
            story_verdict_row(id@, output.success),
            " WHERE id="@,
            2,
            SqlData::Text(id@),
        ),
{
    law_story_verdict_sets_its_columns(id@, output.success);
}

/// The verification of a decision is reported and kept by whether its command succeeded.
pub proof fn law_decision_verification_is_reported(
    id: &str,
    command: String,
    success: bool,
    statement: SqlStatement,
    report: DecisionVerifyResult,
)
    requires
        call_ensures(verify_decision, (id, command, success), (statement, report)),
    ensures
        report.command@ == command@,
        report.result@ == if success {
            "pass"@
        } else {
            "fail"@
        },
        updates(
            statement.deep_view(),
            "UPDATE decision SET "@,
            decision_verdict_row(id@, success),
            " WHERE id="@,
            2,
            SqlData::Text(id@),
        ),
{
    law_decision_verdict_sets_its_columns(id@, success);
}

/// A command to verify a story is the one that is stored. Where there is none, the story is named as
/// lacking it.
pub proof fn law_story_command_is_the_stored_one(
    id: &str,
    row: std::result::Result<Option<String>, rusqlite::Error>,
    r: Result<String>,
)
    requires
        call_ensures(story_verify_command, (id, row), r),
    ensures
        row matches Ok(Some(command)) ==> command@.len() > 0 ==> r == Ok::<
            String,
            HarnessInfraError,
        >(command),
        row matches Ok(Some(command)) ==> command@.len() == 0 ==> {
            r matches Err(HarnessInfraError::MissingStoryVerifyCommand(missing)) && missing@ == id@
        },
        row == Ok::<Option<String>, rusqlite::Error>(None) ==> {
            r matches Err(HarnessInfraError::MissingStoryVerifyCommand(missing)) && missing@ == id@
        },
        row matches Err(error) ==> if says_no_row(error) {
            r matches Err(HarnessInfraError::MissingStoryVerifyCommand(missing)) && missing@ == id@
        } else {
            r == Err::<String, HarnessInfraError>(HarnessInfraError::Sqlite(error))
        },
{
}

/// A command to verify a decision is the one that is stored. Where there is none, the decision is
/// named as lacking it.
pub proof fn law_decision_command_is_the_stored_one(
    id: &str,
    row: std::result::Result<Option<String>, rusqlite::Error>,
    r: Result<String>,
)
    requires
        call_ensures(decision_verify_command, (id, row), r),
    ensures
        row matches Ok(Some(command)) ==> command@.len() > 0 ==> r == Ok::<
            String,
            HarnessInfraError,
        >(command),
        row matches Ok(Some(command)) ==> command@.len() == 0 ==> {
            r matches Err(HarnessInfraError::MissingDecisionVerifyCommand(missing)) && missing@
                == id@
        },
        row == Ok::<Option<String>, rusqlite::Error>(None) ==> {
            r matches Err(HarnessInfraError::MissingDecisionVerifyCommand(missing)) && missing@
                == id@
        },
        row matches Err(error) ==> if says_no_row(error) {
            r matches Err(HarnessInfraError::MissingDecisionVerifyCommand(missing)) && missing@
                == id@
        } else {
            r == Err::<String, HarnessInfraError>(HarnessInfraError::Sqlite(error))
        },
{
}

/// The statements on one row name that row, by the key that they are given.
pub proof fn law_statements_name_their_row(
    key: &str,
    story_command: SqlStatement,
    decision_command: SqlStatement,
    story_status: SqlStatement,
    tool_command: SqlStatement,
    tool_removal: SqlStatement,
)
    requires
        call_ensures(find_story_command, (key,), story_command),
        call_ensures(find_decision_command, (key,), decision_command),
        call_ensures(query_story_verify_status, (key,), story_status),
        call_ensures(find_tool_command, (key,), tool_command),
        call_ensures(remove_tool, (key,), tool_removal),
    ensures
        story_command.sql@ == "SELECT verify_command FROM story WHERE id=?1;"@,
        story_command.params.deep_view() == seq![SqlData::Text(key@)],
        decision_command.sql@ == "SELECT verify_command FROM decision WHERE id=?1;"@,
        decision_command.params.deep_view() == seq![SqlData::Text(key@)],
        story_status.params.deep_view() == seq![SqlData::Text(key@)],
        tool_command.sql@ == "SELECT command FROM tool WHERE name=?1;"@,
        tool_command.params.deep_view() == seq![SqlData::Text(key@)],
        tool_removal.sql@ == "DELETE FROM tool WHERE name=?1;"@,
        tool_removal.params.deep_view() == seq![SqlData::Text(key@)],
{
    let params = seq![SqlData::Text(key@)];
    assert(story_command.deep_view().params == params);
    assert(decision_command.deep_view().params == params);
    assert(story_status.deep_view().params == params);
    assert(tool_command.deep_view().params == params);
    assert(tool_removal.deep_view().params == params);
}

/// What changed no row names what was not found, and what changed some is done.
pub proof fn law_no_change_means_not_found(
    id: i64,
    key: &str,
    changes: u64,
    item: Result<()>,
    story: Result<()>,
    tool: Result<()>,
)
    requires
        call_ensures(backlog_closed, (id, changes), item),
        call_ensures(story_updated, (key, changes), story),
        call_ensures(tool_removed, (key, changes), tool),
    ensures
        changes > 0 ==> item is Ok && story is Ok && tool is Ok,
        changes == 0 ==> {
            &&& item == Err::<(), HarnessInfraError>(HarnessInfraError::BacklogNotFound(id))
            &&& story matches Err(HarnessInfraError::StoryNotFound(missing)) && missing@ == key@
            &&& tool matches Err(HarnessInfraError::ToolNotFound(missing)) && missing@ == key@
        },
{
}

/// A row that is there is given back. One that is not is an error that names it, and any other error
/// stays what it is.
pub proof fn law_rows_are_given_back(
    key: &str,
    id: i64,
    row: std::result::Result<StoryVerifyStatus, rusqlite::Error>,
    story: Result<StoryVerifyStatus>,
    trace: std::result::Result<TraceScoreSource, rusqlite::Error>,
    numbered: Result<TraceScoreSource>,
    last: Result<TraceScoreSource>,
    context: std::result::Result<ContextScoreSource, rusqlite::Error>,
    scored: Result<ContextScoreSource>,
)
    requires
        call_ensures(story_verify_status, (key, row), story),
        call_ensures(trace_to_score, (Some(id), trace), numbered),
        call_ensures(trace_to_score, (None::<i64>, trace), last),
        call_ensures(context_to_score, (id, context), scored),
    ensures
        row matches Ok(status) ==> story == Ok::<StoryVerifyStatus, HarnessInfraError>(status),
        row matches Err(error) ==> if says_no_row(error) {
            story matches Err(HarnessInfraError::StoryNotFound(missing)) && missing@ == key@
        } else {
            story == Err::<StoryVerifyStatus, HarnessInfraError>(HarnessInfraError::Sqlite(error))
        },
        trace matches Ok(source) ==> {
            &&& numbered == Ok::<TraceScoreSource, HarnessInfraError>(source)
            &&& last == Ok::<TraceScoreSource, HarnessInfraError>(source)
        },
        trace matches Err(error) ==> if says_no_row(error) {
            &&& numbered == Err::<TraceScoreSource, HarnessInfraError>(
                HarnessInfraError::TraceNotFound(id),
            )
            &&& last == Err::<TraceScoreSource, HarnessInfraError>(HarnessInfraError::NoTraces)
        } else {
            &&& numbered == Err::<TraceScoreSource, HarnessInfraError>(
                HarnessInfraError::Sqlite(error),
            )
            &&& last == Err::<TraceScoreSource, HarnessInfraError>(
                HarnessInfraError::Sqlite(error),
            )
        },
        context matches Ok(source) ==> scored == Ok::<ContextScoreSource, HarnessInfraError>(
            source,
        ),
        context matches Err(error) ==> if says_no_row(error) {
            scored == Err::<ContextScoreSource, HarnessInfraError>(
                HarnessInfraError::TraceNotFound(id),
            )
        } else {
            scored == Err::<ContextScoreSource, HarnessInfraError>(
                HarnessInfraError::Sqlite(error),
            )
        },
{
}

/// The queries with a filter bind what is asked for, and null for what is not.
pub proof fn law_filters_are_bound(
    filter: &InterventionFilter,
    interventions: SqlStatement,
    name: &Option<String>,
    tools: SqlStatement,
    id: i64,
    numbered: SqlStatement,
    last: SqlStatement,
    context: SqlStatement,
)
    requires
        call_ensures(query_interventions, (filter,), interventions),
        call_ensures(list_tools_to_check, (name,), tools),
        call_ensures(find_trace_to_score, (Some(id),), numbered),
        call_ensures(find_trace_to_score, (None::<i64>,), last),
        call_ensures(find_context_to_score, (id,), context),
    ensures
        interventions.params.deep_view() == seq![
            given_number(filter.trace_id),
            given_text(filter.story_id.deep_view()),
            given_text(filter.intervention_type.deep_view()),
        ],
        tools.params.deep_view() == seq![given_text(name.deep_view())],
        numbered.params.deep_view() == seq![SqlData::Integer(id as int)],
        last.params@.len() == 0,
        context.params.deep_view() == seq![SqlData::Integer(id as int)],
{
    assert(interventions.deep_view().params =~= seq![
        given_number(filter.trace_id),
        given_text(filter.story_id.deep_view()),
        given_text(filter.intervention_type.deep_view()),
    ]);
    assert(tools.deep_view().params =~= seq![given_text(name.deep_view())]);
    assert(numbered.deep_view().params =~= seq![SqlData::Integer(id as int)]);
    assert(last.deep_view().params.len() == last.params@.len());
    assert(context.deep_view().params =~= seq![SqlData::Integer(id as int)]);
}

/// A statement has its text and its parameters, each of them what it says.
pub proof fn law_statement_contents(statement: SqlStatement, number: i64, text: String)
    ensures
        statement.deep_view().sql == statement.sql@,
        statement.deep_view().params.len() == statement.params@.len(),
        forall|i: int|
            0 <= i < statement.params@.len() ==> #[trigger] statement.deep_view().params[i]
                == statement.params@[i].deep_view(),
        SqlParam::Null.deep_view() == SqlData::Null,
        SqlParam::Integer(number).deep_view() == SqlData::Integer(number as int),
        SqlParam::Text(text).deep_view() == SqlData::Text(text@),
{
}

/// Parameters are made of the values that they are given, and null where there is none.
pub proof fn law_parameters_hold_their_values(
    text: &str,
    string: String,
    number: i64,
    of_text: SqlParam,
    of_some: SqlParam,
    of_none: SqlParam,
    of_number: SqlParam,
    of_no_number: SqlParam,
)
    requires
        call_ensures(text_param, (text,), of_text),
        call_ensures(optional_text_param, (&Some(string),), of_some),
        call_ensures(optional_text_param, (&None::<String>,), of_none),
        call_ensures(optional_integer_param, (Some(number),), of_number),
        call_ensures(optional_integer_param, (None::<i64>,), of_no_number),
    ensures
        of_text matches SqlParam::Text(value) && value@ == text@,
        of_some matches SqlParam::Text(value) && value@ == string@,
        of_none is Null,
        of_number == SqlParam::Integer(number),
        of_no_number is Null,
{
    assert(Some(string).deep_view() == Some(string@));
}

/// Open items, closed items and all of them are asked for by the query that is for them.
pub proof fn law_backlog_is_asked_for_by_filter(
    all: &'static str,
    open: &'static str,
    closed: &'static str,
)
    requires
        call_ensures(query_backlog, (BacklogFilter::All,), all),
        call_ensures(query_backlog, (BacklogFilter::Open,), open),
        call_ensures(query_backlog, (BacklogFilter::Closed,), closed),
    ensures
        all@ == crate::backlog_table::QUERY_BACKLOG@,
        open@ == crate::backlog_table::QUERY_OPEN_BACKLOG@,
        closed@ == crate::backlog_table::QUERY_CLOSED_BACKLOG@,
{
}

/// Commands are looked for before they are registered: one that is not found is refused by its own
/// text, unless that is not wanted. A description that is not valid is refused first, for its own
/// reason, and tools of other kinds are registered either way.
pub proof fn law_commands_are_looked_for_before_registration(
    input: &ToolRegisterInput,
    reason: String,
    found: bool,
    invalid: Result<()>,
    valid: Result<()>,
)
    requires
        call_ensures(check_registration, (input, Err::<(), String>(reason), found), invalid),
        call_ensures(check_registration, (input, Ok::<(), String>(()), found), valid),
    ensures
        invalid == Err::<(), HarnessInfraError>(HarnessInfraError::ToolValidation(reason)),
        (input.kind@ == "cli"@ || input.kind@ == "binary"@) && !input.force && !found ==> {
            valid matches Err(HarnessInfraError::ToolCommandNotFound(command)) && command@
                == input.command@
        },
        (input.kind@ != "cli"@ && input.kind@ != "binary"@) || input.force || found ==> valid is Ok,
{
}

/// What is missing is an error that names its path, and nothing else is.
pub proof fn law_missing_paths_are_named(
    path: String,
    database: Result<()>,
    backup: Result<()>,
    schema: Result<()>,
    document: Result<()>,
    found: bool,
)
    requires
        call_ensures(require_database, (found, path), database),
        call_ensures(require_backup, (found, path), backup),
        call_ensures(require_schema, (found, path), schema),
        call_ensures(require_brownfield_path, (found, path), document),
    ensures
        found ==> database is Ok && backup is Ok && schema is Ok && document is Ok,
        !found ==> {
            &&& database == Err::<(), HarnessInfraError>(HarnessInfraError::MissingDatabase(path))
            &&& backup == Err::<(), HarnessInfraError>(HarnessInfraError::MissingBackup(path))
            &&& schema == Err::<(), HarnessInfraError>(HarnessInfraError::MissingSchema(path))
            &&& document == Err::<(), HarnessInfraError>(
                HarnessInfraError::MissingBrownfieldPath(path),
            )
        },
{
}

/// The version of a schema is the one that is stored. Without a row it is zero, and any other error
/// is one, unless the version is only asked for to begin with.
pub proof fn law_schema_version_is_the_stored_one(
    version: i64,
    error: rusqlite::Error,
    stored: Result<i64>,
    failed: Result<i64>,
    current: i64,
    unknown: i64,
)
    requires
        call_ensures(schema_version, (Ok::<i64, rusqlite::Error>(version),), stored),
        call_ensures(schema_version, (Err::<i64, rusqlite::Error>(error),), failed),
        call_ensures(current_version, (Ok::<i64, rusqlite::Error>(version),), current),
        call_ensures(current_version, (Err::<i64, rusqlite::Error>(error),), unknown),
    ensures
        stored == Ok::<i64, HarnessInfraError>(version),
        says_no_row(error) ==> failed == Ok::<i64, HarnessInfraError>(0),
        !says_no_row(error) ==> failed == Err::<i64, HarnessInfraError>(
            HarnessInfraError::Sqlite(error),
        ),
        current == version,
        unknown == 0,
{
}

/// The version of a script is the number before its first hyphen.
pub proof fn law_script_has_the_version_in_its_name(
    name: &str,
    zeros: Seq<char>,
    version: nat,
    rest: Seq<char>,
    r: Option<i64>,
)
    requires
        call_ensures(version_of, (name,), r),
        forall|i: int| 0 <= i < zeros.len() ==> #[trigger] zeros[i] == '0',
        0 < version <= i64::MAX,
        rest.len() > 4,
        rest.skip(rest.len() - 4) == seq!['.', 's', 'q', 'l'],
        name@ == zeros + decimal(version) + seq!['-'] + rest,
    ensures
        r == Some(version as i64),
{
    law_scripts_are_numbered(zeros, version, rest);
}

/// A repair comes before a dry run, and scripts are run only where neither is wanted.
pub proof fn law_plan_of_a_migration(
    dry_run: bool,
    repairing: MigratePlan,
    dry: MigratePlan,
    wet: MigratePlan,
)
    requires
        call_ensures(migrate_plan, (true, dry_run), repairing),
        call_ensures(migrate_plan, (false, true), dry),
        call_ensures(migrate_plan, (false, false), wet),
    ensures
        repairing is Repair,
        dry is DryRun,
        wet is Apply,
{
}

/// A migration reports the version that it found, the versions of its scripts in order, and the copy
/// that it made. One that ran no script reports neither.
pub proof fn law_migration_reports_its_scripts(
    current: i64,
    scripts: &[Migration],
    done: MigrateResult,
    nothing: MigrateResult,
    i: int,
)
    requires
        call_ensures(migrated, (current, scripts), done),
        call_ensures(not_migrated, (current,), nothing),
    ensures
        done.current_version == current,
        done.backup_created,
        done.applied@.len() == scripts@.len(),
        0 <= i < scripts@.len() ==> done.applied@[i] == scripts@[i].version,
        nothing.current_version == current,
        nothing.applied@.len() == 0,
        !nothing.backup_created,
{
    let applied = done.applied@.map_values(|version: i64| version as int);
    assert(applied.len() == done.applied@.len());
    assert(scripts.deep_view().len() == scripts@.len());
    if 0 <= i < scripts@.len() {
        assert(applied[i] == done.applied@[i]);
        assert(scripts.deep_view()[i] == scripts@[i].deep_view());
    }
}

/// A database that is not there is created, one without a schema gets it, and any other keeps the
/// version that it has.
pub proof fn law_plan_of_a_set_up(
    version: i64,
    path: std::path::PathBuf,
    fresh: InitPlan,
    found: InitPlan,
    created: InitResult,
    upgraded: InitResult,
    kept: InitResult,
)
    requires
        call_ensures(init_plan, (None::<i64>,), fresh),
        call_ensures(init_plan, (Some(version),), found),
        call_ensures(init_result, (InitPlan::Create, path), created),
        call_ensures(init_result, (InitPlan::Upgrade, path), upgraded),
        call_ensures(init_result, (InitPlan::Keep(version), path), kept),
    ensures
        fresh is Create,
        version == 0 ==> found is Upgrade,
        version != 0 ==> found == InitPlan::Keep(version),
        created == (InitResult::Created { db_path: path }),
        upgraded == (InitResult::MigratedExisting { db_path: path }),
        kept == (InitResult::Existing { db_path: path, version }),
{
}

/// An import counts each kind of record by itself.
pub proof fn law_import_counts_its_records(
    stories: &[StoryImport],
    decisions: &[DecisionImport],
    items: &[BacklogImport],
    r: BrownfieldImportResult,
)
    requires
        call_ensures(import_brownfield, (stories, decisions, items), r),
    ensures
        r.stories == stories@.len(),
        r.decisions == decisions@.len(),
        r.backlog_items == items@.len(),
{
}

/// Commands are run by the shell of the system.
pub proof fn law_shell_of_the_system(
    windows: (&'static str, &'static str),
    other: (&'static str, &'static str),
)
    requires
        call_ensures(verifier_shell, (true,), windows),
        call_ensures(verifier_shell, (false,), other),
    ensures
        windows.0@ == "cmd"@,
        windows.1@ == "/C"@,
        other.0@ == "sh"@,
        other.1@ == "-c"@,
{
}

/// The stories of a verification that passed, failed and were skipped are counted each by their own
/// result.
pub proof fn law_results_are_counted_apart(
    result: &StoryVerifyAllResult,
    passed: usize,
    failed: usize,
    skipped: usize,
)
    requires
        call_ensures(StoryVerifyAllResult::passed, (result,), passed),
        call_ensures(StoryVerifyAllResult::failed, (result,), failed),
        call_ensures(StoryVerifyAllResult::skipped, (result,), skipped),
    ensures
        passed == crate::verify::count_of(result.items@, "pass"@),
        failed == crate::verify::count_of(result.items@, "fail"@),
        skipped == crate::verify::count_of(result.items@, "skipped"@),
{
}

/// A token is that of the text, and a lane is named by its own name.
pub proof fn law_tokens_and_lanes(
    value: &str,
    normalized: String,
    named: Option<RiskLane>,
    tiny: &'static str,
    normal: &'static str,
    high: &'static str,
)
    requires
        call_ensures(normalize_token, (value,), normalized),
        call_ensures(RiskLane::from_name, (value,), named),
        call_ensures(RiskLane::as_db_value, (&RiskLane::Tiny,), tiny),
        call_ensures(RiskLane::as_db_value, (&RiskLane::Normal,), normal),
        call_ensures(RiskLane::as_db_value, (&RiskLane::HighRisk,), high),
    ensures
        normalized@ == token(value@),
        tiny@ == "tiny"@,
        normal@ == "normal"@,
        high@ == "high_risk"@,
        named == Some(RiskLane::Tiny) ==> token(value@) == "tiny"@,
        named == Some(RiskLane::Normal) ==> token(value@) == "normal"@,
        named == Some(RiskLane::HighRisk) ==> token(value@) == "high_risk"@,
        named is None ==> token(value@) != "tiny"@ && token(value@) != "normal"@ && token(value@)
            != "high_risk"@,
{
}

/// A repository has the paths that it was made with, each in its own place.
pub proof fn law_repository_has_its_paths(
    repo_root: std::path::PathBuf,
    db_path: std::path::PathBuf,
    schema_dir: std::path::PathBuf,
    repository: SqliteHarnessRepository,
    root: &std::path::PathBuf,
    database: &std::path::PathBuf,
    schema: &std::path::PathBuf,
)
    requires
        call_ensures(SqliteHarnessRepository::new, (repo_root, db_path, schema_dir), repository),
        call_ensures(SqliteHarnessRepository::repo_root, (&repository,), root),
        call_ensures(SqliteHarnessRepository::db_path, (&repository,), database),
        call_ensures(SqliteHarnessRepository::schema_dir, (&repository,), schema),
    ensures
        *root == repo_root,
        *database == db_path,
        *schema == schema_dir,
{
}

} // verus!
