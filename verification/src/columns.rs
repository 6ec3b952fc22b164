//! Which column of a table each parameter of a statement fills, and which columns a query reads.
use vstd::prelude::*;

use crate::audit::{
    BACKLOG_WITHOUT_OUTCOMES, LIST_TOOLS_TO_AUDIT, ORPHANED_STORIES, STALE_STORIES,
    UNVERIFIED_DECISIONS, UNVERIFIED_STORIES,
};
use crate::backlog::BacklogImport;
use crate::backlog_table::{
    backlog_statement, closing_statement, BacklogAddInput, BacklogCloseInput, ADD_BACKLOG,
    CLOSE_BACKLOG, QUERY_BACKLOG, QUERY_CLOSED_BACKLOG, QUERY_OPEN_BACKLOG,
};
use crate::decision::DecisionImport;
use crate::decision_table::{decision_statement, DecisionAddInput, ADD_DECISION, QUERY_DECISIONS};
use crate::intake::{intake_statement, IntakeInput, QUERY_INTAKES, RECORD_INTAKE};
use crate::matrix::StoryImport;
use crate::migrate::QUERY_SCHEMA_VERSION;
use crate::number::{decimal, digit};
use crate::proposal::{ImprovementProposal, COMMIT_PROPOSAL, LIST_FRICTION, LIST_INTERVENTIONS};
use crate::repository::QUERY_STATS;
use crate::seed::{
    backlog_item_seed, decision_seed, story_seed, SEED_BACKLOG_ITEM, SEED_DECISION, SEED_STORY,
};
use crate::statement::{SqlData, SqlStatement, SqlText};
use crate::story::{
    story_statement, BoolFlag, StoryAddInput, StoryUpdateInput, ADD_STORY, QUERY_MATRIX,
    QUERY_STORY_VERIFY_STATUS, UPDATE_STORY,
};
use crate::token::{token, RiskLane};
use crate::tool::{
    ToolCheckResult, ToolRegisterInput, ToolToCheck, FIND_TOOL_COMMAND, LIST_TOOLS_TO_CHECK,
    QUERY_TOOLS, REGISTER_TOOL, UPDATE_TOOL_STATUS,
};
use crate::tool_args::args_text;
use crate::trace::{
    intervention_query, intervention_statement, trace_lookup, trace_statement,
    InterventionAddInput, InterventionFilter, TraceInput, ADD_INTERVENTION, FIND_CONTEXT_TO_SCORE,
    FIND_LAST_TRACE_TO_SCORE, FIND_TRACE_TO_SCORE, QUERY_FRICTION, QUERY_INTERVENTIONS,
    QUERY_TRACES, RECORD_TRACE,
};
use crate::verify::{
    decision_result, story_result, FIND_DECISION_COMMAND, FIND_STORY_COMMAND,
    LIST_STORIES_TO_VERIFY, RECORD_DECISION_RESULT, RECORD_STORY_RESULT,
};

verus! {

/// What a statement puts into a column: the parameter with this number, which holds this, or a
/// value that it names itself.
pub enum Cell {
    Param(nat, SqlData),
    Fixed(Seq<char>),
}

/// What a column has for a text: a missing one is null.
pub open spec fn given_text(text: Option<Seq<char>>) -> SqlData {
    match text {
        Some(text) => SqlData::Text(text),
        None => SqlData::Null,
    }
}

/// What a column has for a number: a missing one is null.
pub open spec fn given_number(number: Option<i64>) -> SqlData {
    match number {
        Some(number) => SqlData::Integer(number as int),
        None => SqlData::Null,
    }
}

/// What a column has for a flag: a missing one is null.
pub open spec fn given_flag(flag: Option<BoolFlag>) -> SqlData {
    match flag {
        Some(flag) => SqlData::Integer(flag.0 as int),
        None => SqlData::Null,
    }
}

/// What a column has for a lane: a missing one is null.
pub open spec fn given_lane(lane: Option<RiskLane>) -> SqlData {
    match lane {
        Some(RiskLane::Tiny) => SqlData::Text("tiny"@),
        Some(RiskLane::Normal) => SqlData::Text("normal"@),
        Some(RiskLane::HighRisk) => SqlData::Text("high_risk"@),
        None => SqlData::Null,
    }
}

/// The notes of a committed proposal.
pub open spec fn proposal_notes(proposal: ImprovementProposal) -> Seq<char> {
    "component: "@ + proposal.component@ + "; confidence: "@ + proposal.confidence@
        + "; validation: "@ + proposal.validation_plan@
}

/// How the value of a column is written.
pub open spec fn cell_text(cell: Cell) -> Seq<char> {
    match cell {
        Cell::Param(number, _) => "?"@ + decimal(number),
        Cell::Fixed(text) => text,
    }
}

/// The names of the first `n` columns, with commas between them.
pub open spec fn columns_text(row: Seq<(Seq<char>, Cell)>, n: nat) -> Seq<char>
    decreases n,
{
    if n == 0 {
        Seq::empty()
    } else if n == 1 {
        row[0].0
    } else {
        columns_text(row, (n - 1) as nat) + ", "@ + row[n - 1].0
    }
}

/// The values of the first `n` columns, with commas between them.
pub open spec fn values_text(row: Seq<(Seq<char>, Cell)>, n: nat) -> Seq<char>
    decreases n,
{
    if n == 0 {
        Seq::empty()
    } else if n == 1 {
        cell_text(row[0].1)
    } else {
        values_text(row, (n - 1) as nat) + ", "@ + cell_text(row[n - 1].1)
    }
}

/// The assignments of the first `n` columns, with commas between them.
pub open spec fn assigned_text(row: Seq<(Seq<char>, Cell)>, n: nat) -> Seq<char>
    decreases n,
{
    if n == 0 {
        Seq::empty()
    } else if n == 1 {
        row[0].0 + "="@ + cell_text(row[0].1)
    } else {
        assigned_text(row, (n - 1) as nat) + ", "@ + row[n - 1].0 + "="@ + cell_text(row[n - 1].1)
    }
}

/// The assignments of the first `n` columns, each of which keeps what it has where it is given
/// null, with commas between them.
pub open spec fn kept_text(row: Seq<(Seq<char>, Cell)>, n: nat) -> Seq<char>
    decreases n,
{
    if n == 0 {
        Seq::empty()
    } else if n == 1 {
        row[0].0 + "=COALESCE("@ + cell_text(row[0].1) + ", "@ + row[0].0 + ")"@
    } else {
        kept_text(row, (n - 1) as nat) + ", "@ + row[n - 1].0 + "=COALESCE("@ + cell_text(
            row[n - 1].1,
        ) + ", "@ + row[n - 1].0 + ")"@
    }
}

/// Whether each parameter that `row` names holds what `row` says of it.
pub open spec fn binds(params: Seq<SqlData>, row: Seq<(Seq<char>, Cell)>) -> bool {
    forall|i: int|
        0 <= i < row.len() ==> ((#[trigger] row[i]).1 matches Cell::Param(number, data) ==> {
            &&& 1 <= number <= params.len()
            &&& params[number - 1] == data
        })
}

/// Whether a statement adds a row that has in each column what `row` names beside it: its text
/// lists the columns and, in the same order, their values, and each parameter holds what its
/// column is to have.
pub open spec fn inserts(
    statement: SqlText,
    head: Seq<char>,
    row: Seq<(Seq<char>, Cell)>,
    mid: Seq<char>,
    tail: Seq<char>,
) -> bool {
    &&& statement.sql == head + columns_text(row, row.len()) + mid + values_text(row, row.len())
        + tail
    &&& binds(statement.params, row)
}

/// Whether a statement sets each column that `row` names to what stands beside it, in the row that
/// the parameter `number` picks.
pub open spec fn updates(
    statement: SqlText,
    head: Seq<char>,
    row: Seq<(Seq<char>, Cell)>,
    mid: Seq<char>,
    number: nat,
    key: SqlData,
) -> bool {
    &&& statement.sql == head + assigned_text(row, row.len()) + mid + ("?"@ + decimal(number))
        + ";"@
    &&& binds(statement.params, row)
    &&& 1 <= number <= statement.params.len()
    &&& statement.params[number - 1] == key
}

/// Whether a statement does so, but keeps the columns that are given null.
pub open spec fn keeps(
    statement: SqlText,
    head: Seq<char>,
    row: Seq<(Seq<char>, Cell)>,
    mid: Seq<char>,
    number: nat,
    key: SqlData,
) -> bool {
    &&& statement.sql == head + kept_text(row, row.len()) + mid + ("?"@ + decimal(number)) + ";"@
    &&& binds(statement.params, row)
    &&& 1 <= number <= statement.params.len()
    &&& statement.params[number - 1] == key
}

/// The interventions that are listed are those that have the given trace, story and type, each
/// where one is given.
pub proof fn law_intervention_filter_binds_its_columns(filter: InterventionFilter)
    ensures
        intervention_query(filter).sql == QUERY_INTERVENTIONS@,
        intervention_query(filter).params == seq![
            given_number(filter.trace_id),
            given_text(filter.story_id.deep_view()),
            given_text(filter.intervention_type.deep_view()),
        ],
{
    assert(intervention_query(filter).params =~= seq![
        given_number(filter.trace_id),
        given_text(filter.story_id.deep_view()),
        given_text(filter.intervention_type.deep_view()),
    ]);
}

/// A trace is looked for by its number where one is given, and as the last one otherwise.
pub proof fn law_trace_lookup_follows_the_number(id: Option<i64>)
    ensures
        match id {
            Some(number) => {
                &&& trace_lookup(id).sql == FIND_TRACE_TO_SCORE@
                &&& trace_lookup(id).params == seq![SqlData::Integer(number as int)]
            },
            None => {
                &&& trace_lookup(id).sql == FIND_LAST_TRACE_TO_SCORE@
                &&& trace_lookup(id).params.len() == 0
            },
        },
{
}

/// What the row of a recorded trace has in each column.
pub open spec fn trace_row(input: TraceInput) -> Seq<(Seq<char>, Cell)> {
    seq![
        ("task_summary"@, Cell::Param(1, SqlData::Text(input.task_summary@))),
        ("intake_id"@, Cell::Param(2, given_number(input.intake_id))),
        ("story_id"@, Cell::Param(3, given_text(input.story_id.deep_view()))),
        ("agent"@, Cell::Param(4, given_text(input.agent.deep_view()))),
        ("actions_taken"@, Cell::Param(5, given_text(input.actions.deep_view()))),
        ("files_read"@, Cell::Param(6, given_text(input.files_read.deep_view()))),
        ("files_changed"@, Cell::Param(7, given_text(input.files_changed.deep_view()))),
        ("decisions_made"@, Cell::Param(8, given_text(input.decisions.deep_view()))),
        ("errors"@, Cell::Param(9, given_text(input.errors.deep_view()))),
        ("outcome"@, Cell::Param(10, given_text(input.outcome.deep_view()))),
        ("duration_seconds"@, Cell::Param(11, given_number(input.duration_seconds))),
        ("token_estimate"@, Cell::Param(12, given_number(input.token_estimate))),
        ("harness_friction"@, Cell::Param(13, given_text(input.friction.deep_view()))),
        ("notes"@, Cell::Param(14, given_text(input.notes.deep_view()))),
    ]
}

/// A recorded trace has in each column what was given for it.
pub proof fn law_trace_fills_its_columns(input: TraceInput)
    ensures
        inserts(
            trace_statement(input),
            "INSERT INTO trace ("@,
            trace_row(input),
            ") VALUES ("@,
            ");"@,
        ),
{
    let row = trace_row(input);
    let sql = RECORD_TRACE@;
    reveal_strlit("INSERT INTO trace (task_summary, intake_id, story_id, agent, actions_taken, \
        files_read, files_changed, decisions_made, errors, outcome, duration_seconds, \
        token_estimate, harness_friction, notes) VALUES (?1, ?2, ?3, ?4, ?5, ?6, ?7, ?8, ?9, \
        ?10, ?11, ?12, ?13, ?14);");
    reveal_strlit("INSERT INTO trace (");
    reveal_strlit("task_summary");
    reveal_strlit(", ");
    reveal_strlit("intake_id");
    reveal_strlit("story_id");
    reveal_strlit("agent");
    reveal_strlit("actions_taken");
    reveal_strlit("files_read");
    reveal_strlit("files_changed");
    reveal_strlit("decisions_made");
    reveal_strlit("errors");
    reveal_strlit("outcome");
    reveal_strlit("duration_seconds");
    reveal_strlit("token_estimate");
    reveal_strlit("harness_friction");
    reveal_strlit("notes");
    reveal_strlit(") VALUES (");
    reveal_strlit("?");
    reveal_strlit(");");
    assert(sql.subrange(0, 19) =~= "INSERT INTO trace ("@);
    assert(sql.subrange(19, 31) =~= "task_summary"@);
    assert(columns_text(row, 1) =~= sql.subrange(19, 31));
    assert(sql.subrange(31, 33) =~= ", "@);
    assert(sql.subrange(33, 42) =~= "intake_id"@);
    assert(columns_text(row, 2) =~= sql.subrange(19, 42));
    assert(sql.subrange(42, 44) =~= ", "@);
    assert(sql.subrange(44, 52) =~= "story_id"@);
    assert(columns_text(row, 3) =~= sql.subrange(19, 52));
    assert(sql.subrange(52, 54) =~= ", "@);
    assert(sql.subrange(54, 59) =~= "agent"@);
    assert(columns_text(row, 4) =~= sql.subrange(19, 59));
    assert(sql.subrange(59, 61) =~= ", "@);
    assert(sql.subrange(61, 74) =~= "actions_taken"@);
    assert(columns_text(row, 5) =~= sql.subrange(19, 74));
    assert(sql.subrange(74, 76) =~= ", "@);
    assert(sql.subrange(76, 86) =~= "files_read"@);
    assert(columns_text(row, 6) =~= sql.subrange(19, 86));
    assert(sql.subrange(86, 88) =~= ", "@);
    assert(sql.subrange(88, 101) =~= "files_changed"@);
    assert(columns_text(row, 7) =~= sql.subrange(19, 101));
    assert(sql.subrange(101, 103) =~= ", "@);
    assert(sql.subrange(103, 117) =~= "decisions_made"@);
    assert(columns_text(row, 8) =~= sql.subrange(19, 117));
    assert(sql.subrange(117, 119) =~= ", "@);
    assert(sql.subrange(119, 125) =~= "errors"@);
    assert(columns_text(row, 9) =~= sql.subrange(19, 125));
    assert(sql.subrange(125, 127) =~= ", "@);
    assert(sql.subrange(127, 134) =~= "outcome"@);
    assert(columns_text(row, 10) =~= sql.subrange(19, 134));
    assert(sql.subrange(134, 136) =~= ", "@);
    assert(sql.subrange(136, 152) =~= "duration_seconds"@);
    assert(columns_text(row, 11) =~= sql.subrange(19, 152));
    assert(sql.subrange(152, 154) =~= ", "@);
    assert(sql.subrange(154, 168) =~= "token_estimate"@);
    assert(columns_text(row, 12) =~= sql.subrange(19, 168));
    assert(sql.subrange(168, 170) =~= ", "@);
    assert(sql.subrange(170, 186) =~= "harness_friction"@);
    assert(columns_text(row, 13) =~= sql.subrange(19, 186));
    assert(sql.subrange(186, 188) =~= ", "@);
    assert(sql.subrange(188, 193) =~= "notes"@);
    assert(columns_text(row, 14) =~= sql.subrange(19, 193));
    assert(sql.subrange(193, 203) =~= ") VALUES ("@);
    assert(sql.subrange(203, 205) =~= cell_text(row[0].1));
    assert(values_text(row, 1) =~= sql.subrange(203, 205));
    assert(sql.subrange(205, 207) =~= ", "@);
    assert(sql.subrange(207, 209) =~= cell_text(row[1].1));
    assert(values_text(row, 2) =~= sql.subrange(203, 209));
    assert(sql.subrange(209, 211) =~= ", "@);
    assert(sql.subrange(211, 213) =~= cell_text(row[2].1));
    assert(values_text(row, 3) =~= sql.subrange(203, 213));
    assert(sql.subrange(213, 215) =~= ", "@);
    assert(sql.subrange(215, 217) =~= cell_text(row[3].1));
    assert(values_text(row, 4) =~= sql.subrange(203, 217));
    assert(sql.subrange(217, 219) =~= ", "@);
    assert(sql.subrange(219, 221) =~= cell_text(row[4].1));
    assert(values_text(row, 5) =~= sql.subrange(203, 221));
    assert(sql.subrange(221, 223) =~= ", "@);
    assert(sql.subrange(223, 225) =~= cell_text(row[5].1));
    assert(values_text(row, 6) =~= sql.subrange(203, 225));
    assert(sql.subrange(225, 227) =~= ", "@);
    assert(sql.subrange(227, 229) =~= cell_text(row[6].1));
    assert(values_text(row, 7) =~= sql.subrange(203, 229));
    assert(sql.subrange(229, 231) =~= ", "@);
    assert(sql.subrange(231, 233) =~= cell_text(row[7].1));
    assert(values_text(row, 8) =~= sql.subrange(203, 233));
    assert(sql.subrange(233, 235) =~= ", "@);
    assert(sql.subrange(235, 237) =~= cell_text(row[8].1));
    assert(values_text(row, 9) =~= sql.subrange(203, 237));
    assert(sql.subrange(237, 239) =~= ", "@);
    assert(decimal(10) =~= decimal(1).push(digit(0)));
    assert(sql.subrange(239, 242) =~= cell_text(row[9].1));
    assert(values_text(row, 10) =~= sql.subrange(203, 242));
    assert(sql.subrange(242, 244) =~= ", "@);
    assert(decimal(11) =~= decimal(1).push(digit(1)));
    assert(sql.subrange(244, 247) =~= cell_text(row[10].1));
    assert(values_text(row, 11) =~= sql.subrange(203, 247));
    assert(sql.subrange(247, 249) =~= ", "@);
    assert(decimal(12) =~= decimal(1).push(digit(2)));
    assert(sql.subrange(249, 252) =~= cell_text(row[11].1));
    assert(values_text(row, 12) =~= sql.subrange(203, 252));
    assert(sql.subrange(252, 254) =~= ", "@);
    assert(decimal(13) =~= decimal(1).push(digit(3)));
    assert(sql.subrange(254, 257) =~= cell_text(row[12].1));
    assert(values_text(row, 13) =~= sql.subrange(203, 257));
    assert(sql.subrange(257, 259) =~= ", "@);
    assert(decimal(14) =~= decimal(1).push(digit(4)));
    assert(sql.subrange(259, 262) =~= cell_text(row[13].1));
    assert(values_text(row, 14) =~= sql.subrange(203, 262));
    assert(sql.subrange(262, 264) =~= ");"@);
    assert(sql =~= "INSERT INTO trace ("@ + sql.subrange(19, 193) + ") VALUES ("@ + sql.subrange(203, 262) + ");"@);
}

/// What the row of an intervention has in each column.
pub open spec fn intervention_row(input: InterventionAddInput) -> Seq<(Seq<char>, Cell)> {
    seq![
        ("trace_id"@, Cell::Param(1, given_number(input.trace_id))),
        ("story_id"@, Cell::Param(2, given_text(input.story_id.deep_view()))),
        ("type"@, Cell::Param(3, SqlData::Text(input.intervention_type@))),
        ("description"@, Cell::Param(4, SqlData::Text(input.description@))),
        ("source"@, Cell::Param(5, SqlData::Text(input.source@))),
        ("impact"@, Cell::Param(6, given_text(input.impact.deep_view()))),
    ]
}

/// An added intervention has in each column what was given for it.
pub proof fn law_intervention_fills_its_columns(input: InterventionAddInput)
    ensures
        inserts(
            intervention_statement(input),
            "INSERT INTO intervention ("@,
            intervention_row(input),
            ") VALUES ("@,
            ");"@,
        ),
{
    let row = intervention_row(input);
    let sql = ADD_INTERVENTION@;
    reveal_strlit("INSERT INTO intervention (trace_id, story_id, type, description, source, impact) \
        VALUES (?1, ?2, ?3, ?4, ?5, ?6);");
    reveal_strlit("INSERT INTO intervention (");
    reveal_strlit("trace_id");
    reveal_strlit(", ");
    reveal_strlit("story_id");
    reveal_strlit("type");
    reveal_strlit("description");
    reveal_strlit("source");
    reveal_strlit("impact");
    reveal_strlit(") VALUES (");
    reveal_strlit("?");
    reveal_strlit(");");
    {
        let part = "INSERT INTO intervention ("@;
        assert(sql.subrange(0, 16) =~= part.subrange(0, 16));
        assert(sql.subrange(0, 16) =~= part.subrange(0, 16));
        assert(sql.subrange(16, 26) =~= part.subrange(16, 26));
        assert(sql.subrange(0, 26) =~= part.subrange(0, 26));
        assert(part.subrange(0, 26) =~= part);
    }
    assert(sql.subrange(26, 34) =~= "trace_id"@);
    assert(columns_text(row, 1) =~= sql.subrange(26, 34));
    assert(sql.subrange(34, 36) =~= ", "@);
    assert(sql.subrange(36, 44) =~= "story_id"@);
    assert(columns_text(row, 2) =~= sql.subrange(26, 44));
    assert(sql.subrange(44, 46) =~= ", "@);
    assert(sql.subrange(46, 50) =~= "type"@);
    assert(columns_text(row, 3) =~= sql.subrange(26, 50));
    assert(sql.subrange(50, 52) =~= ", "@);
    assert(sql.subrange(52, 63) =~= "description"@);
    assert(columns_text(row, 4) =~= sql.subrange(26, 63));
    assert(sql.subrange(63, 65) =~= ", "@);
    assert(sql.subrange(65, 71) =~= "source"@);
    assert(columns_text(row, 5) =~= sql.subrange(26, 71));
    assert(sql.subrange(71, 73) =~= ", "@);
    assert(sql.subrange(73, 79) =~= "impact"@);
    assert(columns_text(row, 6) =~= sql.subrange(26, 79));
    assert(sql.subrange(79, 89) =~= ") VALUES ("@);
    assert(sql.subrange(89, 91) =~= cell_text(row[0].1));
    assert(values_text(row, 1) =~= sql.subrange(89, 91));
    assert(sql.subrange(91, 93) =~= ", "@);
    assert(sql.subrange(93, 95) =~= cell_text(row[1].1));
    assert(values_text(row, 2) =~= sql.subrange(89, 95));
    assert(sql.subrange(95, 97) =~= ", "@);
    assert(sql.subrange(97, 99) =~= cell_text(row[2].1));
    assert(values_text(row, 3) =~= sql.subrange(89, 99));
    assert(sql.subrange(99, 101) =~= ", "@);
    assert(sql.subrange(101, 103) =~= cell_text(row[3].1));
    assert(values_text(row, 4) =~= sql.subrange(89, 103));
    assert(sql.subrange(103, 105) =~= ", "@);
    assert(sql.subrange(105, 107) =~= cell_text(row[4].1));
    assert(values_text(row, 5) =~= sql.subrange(89, 107));
    assert(sql.subrange(107, 109) =~= ", "@);
    assert(sql.subrange(109, 111) =~= cell_text(row[5].1));
    assert(values_text(row, 6) =~= sql.subrange(89, 111));
    assert(sql.subrange(111, 113) =~= ");"@);
    assert(sql =~= "INSERT INTO intervention ("@ + sql.subrange(26, 79) + ") VALUES ("@ + sql.subrange(89, 111) + ");"@);
}

/// What the row of an intake has in each column.
pub open spec fn intake_row(input: IntakeInput) -> Seq<(Seq<char>, Cell)> {
    seq![
        ("input_type"@, Cell::Param(1, SqlData::Text(input.input_type@))),
        ("summary"@, Cell::Param(2, SqlData::Text(input.summary@))),
        ("risk_lane"@, Cell::Param(3, SqlData::Text(input.risk_lane.name()))),
        ("risk_flags"@, Cell::Param(4, given_text(input.risk_flags.deep_view()))),
        ("affected_docs"@, Cell::Param(5, given_text(input.affected_docs.deep_view()))),
        ("story_id"@, Cell::Param(6, given_text(input.story_id.deep_view()))),
        ("notes"@, Cell::Param(7, given_text(input.notes.deep_view()))),
    ]
}

/// A recorded intake has in each column what was given for it.
pub proof fn law_intake_fills_its_columns(input: IntakeInput)
    ensures
        inserts(
            intake_statement(input),
            "INSERT INTO intake ("@,
            intake_row(input),
            ") VALUES ("@,
            ");"@,
        ),
{
    let row = intake_row(input);
    let sql = RECORD_INTAKE@;
    reveal_strlit("INSERT INTO intake (input_type, summary, risk_lane, risk_flags, affected_docs, \
        story_id, notes) VALUES (?1, ?2, ?3, ?4, ?5, ?6, ?7);");
    reveal_strlit("INSERT INTO intake (");
    reveal_strlit("input_type");
    reveal_strlit(", ");
    reveal_strlit("summary");
    reveal_strlit("risk_lane");
    reveal_strlit("risk_flags");
    reveal_strlit("affected_docs");
    reveal_strlit("story_id");
    reveal_strlit("notes");
    reveal_strlit(") VALUES (");
    reveal_strlit("?");
    reveal_strlit(");");
    assert(sql.subrange(0, 20) =~= "INSERT INTO intake ("@);
    assert(sql.subrange(20, 30) =~= "input_type"@);
    assert(columns_text(row, 1) =~= sql.subrange(20, 30));
    assert(sql.subrange(30, 32) =~= ", "@);
    assert(sql.subrange(32, 39) =~= "summary"@);
    assert(columns_text(row, 2) =~= sql.subrange(20, 39));
    assert(sql.subrange(39, 41) =~= ", "@);
    assert(sql.subrange(41, 50) =~= "risk_lane"@);
    assert(columns_text(row, 3) =~= sql.subrange(20, 50));
    assert(sql.subrange(50, 52) =~= ", "@);
    assert(sql.subrange(52, 62) =~= "risk_flags"@);
    assert(columns_text(row, 4) =~= sql.subrange(20, 62));
    assert(sql.subrange(62, 64) =~= ", "@);
    assert(sql.subrange(64, 77) =~= "affected_docs"@);
    assert(columns_text(row, 5) =~= sql.subrange(20, 77));
    assert(sql.subrange(77, 79) =~= ", "@);
    assert(sql.subrange(79, 87) =~= "story_id"@);
    assert(columns_text(row, 6) =~= sql.subrange(20, 87));
    assert(sql.subrange(87, 89) =~= ", "@);
    assert(sql.subrange(89, 94) =~= "notes"@);
    assert(columns_text(row, 7) =~= sql.subrange(20, 94));
    assert(sql.subrange(94, 104) =~= ") VALUES ("@);
    assert(sql.subrange(104, 106) =~= cell_text(row[0].1));
    assert(values_text(row, 1) =~= sql.subrange(104, 106));
    assert(sql.subrange(106, 108) =~= ", "@);
    assert(sql.subrange(108, 110) =~= cell_text(row[1].1));
    assert(values_text(row, 2) =~= sql.subrange(104, 110));
    assert(sql.subrange(110, 112) =~= ", "@);
    assert(sql.subrange(112, 114) =~= cell_text(row[2].1));
    assert(values_text(row, 3) =~= sql.subrange(104, 114));
    assert(sql.subrange(114, 116) =~= ", "@);
    assert(sql.subrange(116, 118) =~= cell_text(row[3].1));
    assert(values_text(row, 4) =~= sql.subrange(104, 118));
    assert(sql.subrange(118, 120) =~= ", "@);
    assert(sql.subrange(120, 122) =~= cell_text(row[4].1));
    assert(values_text(row, 5) =~= sql.subrange(104, 122));
    assert(sql.subrange(122, 124) =~= ", "@);
    assert(sql.subrange(124, 126) =~= cell_text(row[5].1));
    assert(values_text(row, 6) =~= sql.subrange(104, 126));
    assert(sql.subrange(126, 128) =~= ", "@);
    assert(sql.subrange(128, 130) =~= cell_text(row[6].1));
    assert(values_text(row, 7) =~= sql.subrange(104, 130));
    assert(sql.subrange(130, 132) =~= ");"@);
    assert(sql =~= "INSERT INTO intake ("@ + sql.subrange(20, 94) + ") VALUES ("@ + sql.subrange(104, 130) + ");"@);
}

/// What the row of an added story has in each column.
pub open spec fn story_row(input: StoryAddInput) -> Seq<(Seq<char>, Cell)> {
    seq![
        ("id"@, Cell::Param(1, SqlData::Text(input.id@))),
        ("title"@, Cell::Param(2, SqlData::Text(input.title@))),
        ("risk_lane"@, Cell::Param(3, SqlData::Text(input.risk_lane.name()))),
        ("contract_doc"@, Cell::Param(4, given_text(input.contract_doc.deep_view()))),
        ("verify_command"@, Cell::Param(5, given_text(input.verify_command.deep_view()))),
        ("notes"@, Cell::Param(6, given_text(input.notes.deep_view()))),
    ]
}

/// An added story has in each column what was given for it.
pub proof fn law_story_fills_its_columns(input: StoryAddInput)
    ensures
        inserts(
            story_statement(input),
            "INSERT INTO story ("@,
            story_row(input),
            ") VALUES ("@,
            ");"@,
        ),
{
    let row = story_row(input);
    let sql = ADD_STORY@;
    reveal_strlit("INSERT INTO story (id, title, risk_lane, contract_doc, verify_command, notes) VALUES \
        (?1, ?2, ?3, ?4, ?5, ?6);");
    reveal_strlit("INSERT INTO story (");
    reveal_strlit("id");
    reveal_strlit(", ");
    reveal_strlit("title");
    reveal_strlit("risk_lane");
    reveal_strlit("contract_doc");
    reveal_strlit("verify_command");
    reveal_strlit("notes");
    reveal_strlit(") VALUES (");
    reveal_strlit("?");
    reveal_strlit(");");
    assert(sql.subrange(0, 19) =~= "INSERT INTO story ("@);
    assert(sql.subrange(19, 21) =~= "id"@);
    assert(columns_text(row, 1) =~= sql.subrange(19, 21));
    assert(sql.subrange(21, 23) =~= ", "@);
    assert(sql.subrange(23, 28) =~= "title"@);
    assert(columns_text(row, 2) =~= sql.subrange(19, 28));
    assert(sql.subrange(28, 30) =~= ", "@);
    assert(sql.subrange(30, 39) =~= "risk_lane"@);
    assert(columns_text(row, 3) =~= sql.subrange(19, 39));
    assert(sql.subrange(39, 41) =~= ", "@);
    assert(sql.subrange(41, 53) =~= "contract_doc"@);
    assert(columns_text(row, 4) =~= sql.subrange(19, 53));
    assert(sql.subrange(53, 55) =~= ", "@);
    assert(sql.subrange(55, 69) =~= "verify_command"@);
    assert(columns_text(row, 5) =~= sql.subrange(19, 69));
    assert(sql.subrange(69, 71) =~= ", "@);
    assert(sql.subrange(71, 76) =~= "notes"@);
    assert(columns_text(row, 6) =~= sql.subrange(19, 76));
    assert(sql.subrange(76, 86) =~= ") VALUES ("@);
    assert(sql.subrange(86, 88) =~= cell_text(row[0].1));
    assert(values_text(row, 1) =~= sql.subrange(86, 88));
    assert(sql.subrange(88, 90) =~= ", "@);
    assert(sql.subrange(90, 92) =~= cell_text(row[1].1));
    assert(values_text(row, 2) =~= sql.subrange(86, 92));
    assert(sql.subrange(92, 94) =~= ", "@);
    assert(sql.subrange(94, 96) =~= cell_text(row[2].1));
    assert(values_text(row, 3) =~= sql.subrange(86, 96));
    assert(sql.subrange(96, 98) =~= ", "@);
    assert(sql.subrange(98, 100) =~= cell_text(row[3].1));
    assert(values_text(row, 4) =~= sql.subrange(86, 100));
    assert(sql.subrange(100, 102) =~= ", "@);
    assert(sql.subrange(102, 104) =~= cell_text(row[4].1));
    assert(values_text(row, 5) =~= sql.subrange(86, 104));
    assert(sql.subrange(104, 106) =~= ", "@);
    assert(sql.subrange(106, 108) =~= cell_text(row[5].1));
    assert(values_text(row, 6) =~= sql.subrange(86, 108));
    assert(sql.subrange(108, 110) =~= ");"@);
    assert(sql =~= "INSERT INTO story ("@ + sql.subrange(19, 76) + ") VALUES ("@ + sql.subrange(86, 108) + ");"@);
}

/// What the row of an added decision has in each column.
pub open spec fn decision_row(input: DecisionAddInput) -> Seq<(Seq<char>, Cell)> {
    seq![
        ("id"@, Cell::Param(1, SqlData::Text(input.id@))),
        ("title"@, Cell::Param(2, SqlData::Text(input.title@))),
        ("status"@, Cell::Param(3, SqlData::Text(input.status@))),
        ("doc_path"@, Cell::Param(4, given_text(input.doc_path.deep_view()))),
        ("verify_command"@, Cell::Param(5, given_text(input.verify_command.deep_view()))),
        ("predicted_impact"@, Cell::Param(6, given_text(input.predicted_impact.deep_view()))),
        ("notes"@, Cell::Param(7, given_text(input.notes.deep_view()))),
    ]
}

/// An added decision has in each column what was given for it.
pub proof fn law_decision_fills_its_columns(input: DecisionAddInput)
    ensures
        inserts(
            decision_statement(input),
            "INSERT INTO decision ("@,
            decision_row(input),
            ") VALUES ("@,
            ");"@,
        ),
{
    let row = decision_row(input);
    let sql = ADD_DECISION@;
    reveal_strlit("INSERT INTO decision (id, title, status, doc_path, verify_command, predicted_impact, \
        notes) VALUES (?1, ?2, ?3, ?4, ?5, ?6, ?7);");
    reveal_strlit("INSERT INTO decision (");
    reveal_strlit("id");
    reveal_strlit(", ");
    reveal_strlit("title");
    reveal_strlit("status");
    reveal_strlit("doc_path");
    reveal_strlit("verify_command");
    reveal_strlit("predicted_impact");
    reveal_strlit("notes");
    reveal_strlit(") VALUES (");
    reveal_strlit("?");
    reveal_strlit(");");
    assert(sql.subrange(0, 22) =~= "INSERT INTO decision ("@);
    assert(sql.subrange(22, 24) =~= "id"@);
    assert(columns_text(row, 1) =~= sql.subrange(22, 24));
    assert(sql.subrange(24, 26) =~= ", "@);
    assert(sql.subrange(26, 31) =~= "title"@);
    assert(columns_text(row, 2) =~= sql.subrange(22, 31));
    assert(sql.subrange(31, 33) =~= ", "@);
    assert(sql.subrange(33, 39) =~= "status"@);
    assert(columns_text(row, 3) =~= sql.subrange(22, 39));
    assert(sql.subrange(39, 41) =~= ", "@);
    assert(sql.subrange(41, 49) =~= "doc_path"@);
    assert(columns_text(row, 4) =~= sql.subrange(22, 49));
    assert(sql.subrange(49, 51) =~= ", "@);
    assert(sql.subrange(51, 65) =~= "verify_command"@);
    assert(columns_text(row, 5) =~= sql.subrange(22, 65));
    assert(sql.subrange(65, 67) =~= ", "@);
    assert(sql.subrange(67, 83) =~= "predicted_impact"@);
    assert(columns_text(row, 6) =~= sql.subrange(22, 83));
    assert(sql.subrange(83, 85) =~= ", "@);
    assert(sql.subrange(85, 90) =~= "notes"@);
    assert(columns_text(row, 7) =~= sql.subrange(22, 90));
    assert(sql.subrange(90, 100) =~= ") VALUES ("@);
    assert(sql.subrange(100, 102) =~= cell_text(row[0].1));
    assert(values_text(row, 1) =~= sql.subrange(100, 102));
    assert(sql.subrange(102, 104) =~= ", "@);
    assert(sql.subrange(104, 106) =~= cell_text(row[1].1));
    assert(values_text(row, 2) =~= sql.subrange(100, 106));
    assert(sql.subrange(106, 108) =~= ", "@);
    assert(sql.subrange(108, 110) =~= cell_text(row[2].1));
    assert(values_text(row, 3) =~= sql.subrange(100, 110));
    assert(sql.subrange(110, 112) =~= ", "@);
    assert(sql.subrange(112, 114) =~= cell_text(row[3].1));
    assert(values_text(row, 4) =~= sql.subrange(100, 114));
    assert(sql.subrange(114, 116) =~= ", "@);
    assert(sql.subrange(116, 118) =~= cell_text(row[4].1));
    assert(values_text(row, 5) =~= sql.subrange(100, 118));
    assert(sql.subrange(118, 120) =~= ", "@);
    assert(sql.subrange(120, 122) =~= cell_text(row[5].1));
    assert(values_text(row, 6) =~= sql.subrange(100, 122));
    assert(sql.subrange(122, 124) =~= ", "@);
    assert(sql.subrange(124, 126) =~= cell_text(row[6].1));
    assert(values_text(row, 7) =~= sql.subrange(100, 126));
    assert(sql.subrange(126, 128) =~= ");"@);
    assert(sql =~= "INSERT INTO decision ("@ + sql.subrange(22, 90) + ") VALUES ("@ + sql.subrange(100, 126) + ");"@);
}

/// What the row of an added backlog item has in each column.
pub open spec fn backlog_item_row(input: BacklogAddInput) -> Seq<(Seq<char>, Cell)> {
    seq![
        ("title"@, Cell::Param(1, SqlData::Text(input.title@))),
        ("discovered_while"@, Cell::Param(2, given_text(input.discovered_while.deep_view()))),
        ("current_pain"@, Cell::Param(3, given_text(input.current_pain.deep_view()))),
        ("suggested_improvement"@, Cell::Param(4, given_text(input.suggestion.deep_view()))),
        ("risk"@, Cell::Param(5, given_lane(input.risk))),
        ("predicted_impact"@, Cell::Param(6, given_text(input.predicted_impact.deep_view()))),
        ("notes"@, Cell::Param(7, given_text(input.notes.deep_view()))),
    ]
}

/// An added backlog item has in each column what was given for it.
pub proof fn law_backlog_item_fills_its_columns(input: BacklogAddInput)
    ensures
        inserts(
            backlog_statement(input),
            "INSERT INTO backlog ("@,
            backlog_item_row(input),
            ") VALUES ("@,
            ");"@,
        ),
{
    let row = backlog_item_row(input);
    let sql = ADD_BACKLOG@;
    reveal_strlit("INSERT INTO backlog (title, discovered_while, current_pain, suggested_improvement, \
        risk, predicted_impact, notes) VALUES (?1, ?2, ?3, ?4, ?5, ?6, ?7);");
    reveal_strlit("INSERT INTO backlog (");
    reveal_strlit("title");
    reveal_strlit(", ");
    reveal_strlit("discovered_while");
    reveal_strlit("current_pain");
    reveal_strlit("suggested_improvement");
    reveal_strlit("risk");
    reveal_strlit("predicted_impact");
    reveal_strlit("notes");
    reveal_strlit(") VALUES (");
    reveal_strlit("?");
    reveal_strlit(");");
    assert(sql.subrange(0, 21) =~= "INSERT INTO backlog ("@);
    assert(sql.subrange(21, 26) =~= "title"@);
    assert(columns_text(row, 1) =~= sql.subrange(21, 26));
    assert(sql.subrange(26, 28) =~= ", "@);
    assert(sql.subrange(28, 44) =~= "discovered_while"@);
    assert(columns_text(row, 2) =~= sql.subrange(21, 44));
    assert(sql.subrange(44, 46) =~= ", "@);
    assert(sql.subrange(46, 58) =~= "current_pain"@);
    assert(columns_text(row, 3) =~= sql.subrange(21, 58));
    assert(sql.subrange(58, 60) =~= ", "@);
    assert(sql.subrange(60, 81) =~= "suggested_improvement"@);
    assert(columns_text(row, 4) =~= sql.subrange(21, 81));
    assert(sql.subrange(81, 83) =~= ", "@);
    assert(sql.subrange(83, 87) =~= "risk"@);
    assert(columns_text(row, 5) =~= sql.subrange(21, 87));
    assert(sql.subrange(87, 89) =~= ", "@);
    assert(sql.subrange(89, 105) =~= "predicted_impact"@);
    assert(columns_text(row, 6) =~= sql.subrange(21, 105));
    assert(sql.subrange(105, 107) =~= ", "@);
    assert(sql.subrange(107, 112) =~= "notes"@);
    assert(columns_text(row, 7) =~= sql.subrange(21, 112));
    assert(sql.subrange(112, 122) =~= ") VALUES ("@);
    assert(sql.subrange(122, 124) =~= cell_text(row[0].1));
    assert(values_text(row, 1) =~= sql.subrange(122, 124));
    assert(sql.subrange(124, 126) =~= ", "@);
    assert(sql.subrange(126, 128) =~= cell_text(row[1].1));
    assert(values_text(row, 2) =~= sql.subrange(122, 128));
    assert(sql.subrange(128, 130) =~= ", "@);
    assert(sql.subrange(130, 132) =~= cell_text(row[2].1));
    assert(values_text(row, 3) =~= sql.subrange(122, 132));
    assert(sql.subrange(132, 134) =~= ", "@);
    assert(sql.subrange(134, 136) =~= cell_text(row[3].1));
    assert(values_text(row, 4) =~= sql.subrange(122, 136));
    assert(sql.subrange(136, 138) =~= ", "@);
    assert(sql.subrange(138, 140) =~= cell_text(row[4].1));
    assert(values_text(row, 5) =~= sql.subrange(122, 140));
    assert(sql.subrange(140, 142) =~= ", "@);
    assert(sql.subrange(142, 144) =~= cell_text(row[5].1));
    assert(values_text(row, 6) =~= sql.subrange(122, 144));
    assert(sql.subrange(144, 146) =~= ", "@);
    assert(sql.subrange(146, 148) =~= cell_text(row[6].1));
    assert(values_text(row, 7) =~= sql.subrange(122, 148));
    assert(sql.subrange(148, 150) =~= ");"@);
    assert(sql =~= "INSERT INTO backlog ("@ + sql.subrange(21, 112) + ") VALUES ("@ + sql.subrange(122, 148) + ");"@);
}

/// What the row of a committed proposal has in each column.
pub open spec fn proposal_row(proposal: ImprovementProposal) -> Seq<(Seq<char>, Cell)> {
    seq![
        ("title"@, Cell::Param(1, SqlData::Text(proposal.title@))),
        ("discovered_while"@, Cell::Fixed("'harness-cli propose'"@)),
        ("current_pain"@, Cell::Param(2, SqlData::Text(proposal.evidence@))),
        ("suggested_improvement"@, Cell::Param(3, SqlData::Text(proposal.suggested_action@))),
        ("risk"@, Cell::Param(4, SqlData::Text(token(proposal.risk@)))),
        ("predicted_impact"@, Cell::Param(5, SqlData::Text(proposal.predicted_impact@))),
        ("notes"@, Cell::Param(6, SqlData::Text(proposal_notes(proposal)))),
    ]
}

/// A committed proposal has in each column what it says.
pub proof fn law_proposal_fills_its_columns(proposal: ImprovementProposal)
    ensures
        inserts(
            proposal.stored(),
            "INSERT INTO backlog ("@,
            proposal_row(proposal),
            ") VALUES ("@,
            ");"@,
        ),
{
    let row = proposal_row(proposal);
    let sql = COMMIT_PROPOSAL@;
    reveal_strlit("INSERT INTO backlog (title, discovered_while, current_pain, suggested_improvement, \
        risk, predicted_impact, notes) VALUES (?1, 'harness-cli propose', ?2, ?3, ?4, ?5, \
        ?6);");
    reveal_strlit("INSERT INTO backlog (");
    reveal_strlit("title");
    reveal_strlit(", ");
    reveal_strlit("discovered_while");
    reveal_strlit("current_pain");
    reveal_strlit("suggested_improvement");
    reveal_strlit("risk");
    reveal_strlit("predicted_impact");
    reveal_strlit("notes");
    reveal_strlit(") VALUES (");
    reveal_strlit("?");
    reveal_strlit("'harness-cli propose'");
    reveal_strlit(");");
    assert(sql.subrange(0, 21) =~= "INSERT INTO backlog ("@);
    assert(sql.subrange(21, 26) =~= "title"@);
    assert(columns_text(row, 1) =~= sql.subrange(21, 26));
    assert(sql.subrange(26, 28) =~= ", "@);
    assert(sql.subrange(28, 44) =~= "discovered_while"@);
    assert(columns_text(row, 2) =~= sql.subrange(21, 44));
    assert(sql.subrange(44, 46) =~= ", "@);
    assert(sql.subrange(46, 58) =~= "current_pain"@);
    assert(columns_text(row, 3) =~= sql.subrange(21, 58));
    assert(sql.subrange(58, 60) =~= ", "@);
    assert(sql.subrange(60, 81) =~= "suggested_improvement"@);
    assert(columns_text(row, 4) =~= sql.subrange(21, 81));
    assert(sql.subrange(81, 83) =~= ", "@);
    assert(sql.subrange(83, 87) =~= "risk"@);
    assert(columns_text(row, 5) =~= sql.subrange(21, 87));
    assert(sql.subrange(87, 89) =~= ", "@);
    assert(sql.subrange(89, 105) =~= "predicted_impact"@);
    assert(columns_text(row, 6) =~= sql.subrange(21, 105));
    assert(sql.subrange(105, 107) =~= ", "@);
    assert(sql.subrange(107, 112) =~= "notes"@);
    assert(columns_text(row, 7) =~= sql.subrange(21, 112));
    assert(sql.subrange(112, 122) =~= ") VALUES ("@);
    assert(sql.subrange(122, 124) =~= cell_text(row[0].1));
    assert(values_text(row, 1) =~= sql.subrange(122, 124));
    assert(sql.subrange(124, 126) =~= ", "@);
    assert(sql.subrange(126, 147) =~= "'harness-cli propose'"@);
    assert(values_text(row, 2) =~= sql.subrange(122, 147));
    assert(sql.subrange(147, 149) =~= ", "@);
    assert(sql.subrange(149, 151) =~= cell_text(row[2].1));
    assert(values_text(row, 3) =~= sql.subrange(122, 151));
    assert(sql.subrange(151, 153) =~= ", "@);
    assert(sql.subrange(153, 155) =~= cell_text(row[3].1));
    assert(values_text(row, 4) =~= sql.subrange(122, 155));
    assert(sql.subrange(155, 157) =~= ", "@);
    assert(sql.subrange(157, 159) =~= cell_text(row[4].1));
    assert(values_text(row, 5) =~= sql.subrange(122, 159));
    assert(sql.subrange(159, 161) =~= ", "@);
    assert(sql.subrange(161, 163) =~= cell_text(row[5].1));
    assert(values_text(row, 6) =~= sql.subrange(122, 163));
    assert(sql.subrange(163, 165) =~= ", "@);
    assert(sql.subrange(165, 167) =~= cell_text(row[6].1));
    assert(values_text(row, 7) =~= sql.subrange(122, 167));
    assert(sql.subrange(167, 169) =~= ");"@);
    assert(sql =~= "INSERT INTO backlog ("@ + sql.subrange(21, 112) + ") VALUES ("@ + sql.subrange(122, 167) + ");"@);
}

/// What the row of a registered tool has in each column.
pub open spec fn tool_row(input: ToolRegisterInput) -> Seq<(Seq<char>, Cell)> {
    seq![
        ("name"@, Cell::Param(1, SqlData::Text(input.name@))),
        ("provider"@, Cell::Fixed("'custom'"@)),
        ("command"@, Cell::Param(2, SqlData::Text(input.command@))),
        ("description"@, Cell::Param(3, SqlData::Text(input.description@))),
        ("args"@, Cell::Param(4, given_text(args_text(input.args.deep_view())))),
        ("responsibility"@, Cell::Param(5, SqlData::Text(input.responsibility@))),
        ("since"@, Cell::Fixed("'registered'"@)),
        ("kind"@, Cell::Param(6, SqlData::Text(input.kind@))),
        ("capability"@, Cell::Param(7, given_text(input.capability.deep_view()))),
        ("scan_target"@, Cell::Param(8, given_text(input.scan_target.deep_view()))),
        ("status"@, Cell::Fixed("'unknown'"@)),
    ]
}

/// A registered tool has in each column what was given for it.
pub proof fn law_tool_fills_its_columns(input: ToolRegisterInput)
    ensures
        inserts(input.registration(), "INSERT INTO tool ("@, tool_row(input), ") VALUES ("@, ");"@),
{
    let row = tool_row(input);
    let sql = REGISTER_TOOL@;
    reveal_strlit("INSERT INTO tool (name, provider, command, description, args, responsibility, since, \
        kind, capability, scan_target, status) VALUES (?1, 'custom', ?2, ?3, ?4, ?5, \
        'registered', ?6, ?7, ?8, 'unknown');");
    reveal_strlit("INSERT INTO tool (");
    reveal_strlit("name");
    reveal_strlit(", ");
    reveal_strlit("provider");
    reveal_strlit("command");
    reveal_strlit("description");
    reveal_strlit("args");
    reveal_strlit("responsibility");
    reveal_strlit("since");
    reveal_strlit("kind");
    reveal_strlit("capability");
    reveal_strlit("scan_target");
    reveal_strlit("status");
    reveal_strlit(") VALUES (");
    reveal_strlit("?");
    reveal_strlit("'custom'");
    reveal_strlit("'registered'");
    reveal_strlit("'unknown'");
    reveal_strlit(");");
    assert(sql.subrange(0, 18) =~= "INSERT INTO tool ("@);
    assert(sql.subrange(18, 22) =~= "name"@);
    assert(columns_text(row, 1) =~= sql.subrange(18, 22));
    assert(sql.subrange(22, 24) =~= ", "@);
    assert(sql.subrange(24, 32) =~= "provider"@);
    assert(columns_text(row, 2) =~= sql.subrange(18, 32));
    assert(sql.subrange(32, 34) =~= ", "@);
    assert(sql.subrange(34, 41) =~= "command"@);
    assert(columns_text(row, 3) =~= sql.subrange(18, 41));
    assert(sql.subrange(41, 43) =~= ", "@);
    assert(sql.subrange(43, 54) =~= "description"@);
    assert(columns_text(row, 4) =~= sql.subrange(18, 54));
    assert(sql.subrange(54, 56) =~= ", "@);
    assert(sql.subrange(56, 60) =~= "args"@);
    assert(columns_text(row, 5) =~= sql.subrange(18, 60));
    assert(sql.subrange(60, 62) =~= ", "@);
    assert(sql.subrange(62, 76) =~= "responsibility"@);
    assert(columns_text(row, 6) =~= sql.subrange(18, 76));
    assert(sql.subrange(76, 78) =~= ", "@);
    assert(sql.subrange(78, 83) =~= "since"@);
    assert(columns_text(row, 7) =~= sql.subrange(18, 83));
    assert(sql.subrange(83, 85) =~= ", "@);
    assert(sql.subrange(85, 89) =~= "kind"@);
    assert(columns_text(row, 8) =~= sql.subrange(18, 89));
    assert(sql.subrange(89, 91) =~= ", "@);
    assert(sql.subrange(91, 101) =~= "capability"@);
    assert(columns_text(row, 9) =~= sql.subrange(18, 101));
    assert(sql.subrange(101, 103) =~= ", "@);
    assert(sql.subrange(103, 114) =~= "scan_target"@);
    assert(columns_text(row, 10) =~= sql.subrange(18, 114));
    assert(sql.subrange(114, 116) =~= ", "@);
    assert(sql.subrange(116, 122) =~= "status"@);
    assert(columns_text(row, 11) =~= sql.subrange(18, 122));
    assert(sql.subrange(122, 132) =~= ") VALUES ("@);
    assert(sql.subrange(132, 134) =~= cell_text(row[0].1));
    assert(values_text(row, 1) =~= sql.subrange(132, 134));
    assert(sql.subrange(134, 136) =~= ", "@);
    assert(sql.subrange(136, 144) =~= "'custom'"@);
    assert(values_text(row, 2) =~= sql.subrange(132, 144));
    assert(sql.subrange(144, 146) =~= ", "@);
    assert(sql.subrange(146, 148) =~= cell_text(row[2].1));
    assert(values_text(row, 3) =~= sql.subrange(132, 148));
    assert(sql.subrange(148, 150) =~= ", "@);
    assert(sql.subrange(150, 152) =~= cell_text(row[3].1));
    assert(values_text(row, 4) =~= sql.subrange(132, 152));
    assert(sql.subrange(152, 154) =~= ", "@);
    assert(sql.subrange(154, 156) =~= cell_text(row[4].1));
    assert(values_text(row, 5) =~= sql.subrange(132, 156));
    assert(sql.subrange(156, 158) =~= ", "@);
    assert(sql.subrange(158, 160) =~= cell_text(row[5].1));
    assert(values_text(row, 6) =~= sql.subrange(132, 160));
    assert(sql.subrange(160, 162) =~= ", "@);
    assert(sql.subrange(162, 174) =~= "'registered'"@);
    assert(values_text(row, 7) =~= sql.subrange(132, 174));
    assert(sql.subrange(174, 176) =~= ", "@);
    assert(sql.subrange(176, 178) =~= cell_text(row[7].1));
    assert(values_text(row, 8) =~= sql.subrange(132, 178));
    assert(sql.subrange(178, 180) =~= ", "@);
    assert(sql.subrange(180, 182) =~= cell_text(row[8].1));
    assert(values_text(row, 9) =~= sql.subrange(132, 182));
    assert(sql.subrange(182, 184) =~= ", "@);
    assert(sql.subrange(184, 186) =~= cell_text(row[9].1));
    assert(values_text(row, 10) =~= sql.subrange(132, 186));
    assert(sql.subrange(186, 188) =~= ", "@);
    assert(sql.subrange(188, 197) =~= "'unknown'"@);
    assert(values_text(row, 11) =~= sql.subrange(132, 197));
    assert(sql.subrange(197, 199) =~= ");"@);
    assert(sql =~= "INSERT INTO tool ("@ + sql.subrange(18, 122) + ") VALUES ("@ + sql.subrange(132, 197) + ");"@);
}

/// What the row of a seeded story has in each column.
pub open spec fn seeded_story_row(story: StoryImport) -> Seq<(Seq<char>, Cell)> {
    seq![
        ("id"@, Cell::Param(1, SqlData::Text(story.id@))),
        ("title"@, Cell::Param(2, SqlData::Text(story.title@))),
        ("risk_lane"@, Cell::Fixed("'high_risk'"@)),
        ("contract_doc"@, Cell::Param(3, given_text(story.contract_doc.deep_view()))),
        ("status"@, Cell::Param(4, SqlData::Text(story.status@))),
        ("unit_proof"@, Cell::Param(5, SqlData::Integer(story.unit as int))),
        ("integration_proof"@, Cell::Param(6, SqlData::Integer(story.integration as int))),
        ("e2e_proof"@, Cell::Param(7, SqlData::Integer(story.e2e as int))),
        ("platform_proof"@, Cell::Param(8, SqlData::Integer(story.platform as int))),
        ("evidence"@, Cell::Param(9, given_text(story.evidence.deep_view()))),
        ("notes"@, Cell::Fixed("'Imported from docs/TEST_MATRIX.md by harness import brownfield.'"@)),
    ]
}

/// A seeded story has in each column what the matrix gives for it.
pub proof fn law_seeded_story_fills_its_columns(story: StoryImport)
    ensures
        inserts(
            story_seed(story),
            "INSERT INTO story ("@,
            seeded_story_row(story),
            ") VALUES ("@,
            ") ON CONFLICT(id) DO UPDATE SET title=excluded.title, \
                contract_doc=excluded.contract_doc, status=excluded.status, \
                unit_proof=excluded.unit_proof, integration_proof=excluded.integration_proof, \
                e2e_proof=excluded.e2e_proof, platform_proof=excluded.platform_proof, \
                evidence=excluded.evidence, notes=excluded.notes;"@,
        ),
{
    let row = seeded_story_row(story);
    let sql = SEED_STORY@;
    reveal_strlit("INSERT INTO story (id, title, risk_lane, contract_doc, status, unit_proof, \
        integration_proof, e2e_proof, platform_proof, evidence, notes) VALUES (?1, ?2, \
        'high_risk', ?3, ?4, ?5, ?6, ?7, ?8, ?9, 'Imported from docs/TEST_MATRIX.md by \
        harness import brownfield.') ON CONFLICT(id) DO UPDATE SET title=excluded.title, \
        contract_doc=excluded.contract_doc, status=excluded.status, \
        unit_proof=excluded.unit_proof, integration_proof=excluded.integration_proof, \
        e2e_proof=excluded.e2e_proof, platform_proof=excluded.platform_proof, \
        evidence=excluded.evidence, notes=excluded.notes;");
    reveal_strlit("INSERT INTO story (");
    reveal_strlit("id");
    reveal_strlit(", ");
    reveal_strlit("title");
    reveal_strlit("risk_lane");
    reveal_strlit("contract_doc");
    reveal_strlit("status");
    reveal_strlit("unit_proof");
    reveal_strlit("integration_proof");
    reveal_strlit("e2e_proof");
    reveal_strlit("platform_proof");
    reveal_strlit("evidence");
    reveal_strlit("notes");
    reveal_strlit(") VALUES (");
    reveal_strlit("?");
    reveal_strlit("'high_risk'");
    reveal_strlit("'Imported from docs/TEST_MATRIX.md by harness import brownfield.'");
    reveal_strlit(") ON CONFLICT(id) DO UPDATE SET title=excluded.title, contract_doc=excluded.contract_doc, status=excluded.status, unit_proof=excluded.unit_proof, integration_proof=excluded.integration_proof, e2e_proof=excluded.e2e_proof, platform_proof=excluded.platform_proof, evidence=excluded.evidence, notes=excluded.notes;");
    assert(sql.subrange(0, 19) =~= "INSERT INTO story ("@);
    assert(sql.subrange(19, 21) =~= "id"@);
    assert(columns_text(row, 1) =~= sql.subrange(19, 21));
    assert(sql.subrange(21, 23) =~= ", "@);
    assert(sql.subrange(23, 28) =~= "title"@);
    assert(columns_text(row, 2) =~= sql.subrange(19, 28));
    assert(sql.subrange(28, 30) =~= ", "@);
    assert(sql.subrange(30, 39) =~= "risk_lane"@);
    assert(columns_text(row, 3) =~= sql.subrange(19, 39));
    assert(sql.subrange(39, 41) =~= ", "@);
    assert(sql.subrange(41, 53) =~= "contract_doc"@);
    assert(columns_text(row, 4) =~= sql.subrange(19, 53));
    assert(sql.subrange(53, 55) =~= ", "@);
    assert(sql.subrange(55, 61) =~= "status"@);
    assert(columns_text(row, 5) =~= sql.subrange(19, 61));
    assert(sql.subrange(61, 63) =~= ", "@);
    assert(sql.subrange(63, 73) =~= "unit_proof"@);
    assert(columns_text(row, 6) =~= sql.subrange(19, 73));
    assert(sql.subrange(73, 75) =~= ", "@);
    assert(sql.subrange(75, 92) =~= "integration_proof"@);
    assert(columns_text(row, 7) =~= sql.subrange(19, 92));
    assert(sql.subrange(92, 94) =~= ", "@);
    assert(sql.subrange(94, 103) =~= "e2e_proof"@);
    assert(columns_text(row, 8) =~= sql.subrange(19, 103));
    assert(sql.subrange(103, 105) =~= ", "@);
    assert(sql.subrange(105, 119) =~= "platform_proof"@);
    assert(columns_text(row, 9) =~= sql.subrange(19, 119));
    assert(sql.subrange(119, 121) =~= ", "@);
    assert(sql.subrange(121, 129) =~= "evidence"@);
    assert(columns_text(row, 10) =~= sql.subrange(19, 129));
    assert(sql.subrange(129, 131) =~= ", "@);
    assert(sql.subrange(131, 136) =~= "notes"@);
    assert(columns_text(row, 11) =~= sql.subrange(19, 136));
    assert(sql.subrange(136, 146) =~= ") VALUES ("@);
    assert(sql.subrange(146, 148) =~= cell_text(row[0].1));
    assert(values_text(row, 1) =~= sql.subrange(146, 148));
    assert(sql.subrange(148, 150) =~= ", "@);
    assert(sql.subrange(150, 152) =~= cell_text(row[1].1));
    assert(values_text(row, 2) =~= sql.subrange(146, 152));
    assert(sql.subrange(152, 154) =~= ", "@);
    assert(sql.subrange(154, 165) =~= "'high_risk'"@);
    assert(values_text(row, 3) =~= sql.subrange(146, 165));
    assert(sql.subrange(165, 167) =~= ", "@);
    assert(sql.subrange(167, 169) =~= cell_text(row[3].1));
    assert(values_text(row, 4) =~= sql.subrange(146, 169));
    assert(sql.subrange(169, 171) =~= ", "@);
    assert(sql.subrange(171, 173) =~= cell_text(row[4].1));
    assert(values_text(row, 5) =~= sql.subrange(146, 173));
    assert(sql.subrange(173, 175) =~= ", "@);
    assert(sql.subrange(175, 177) =~= cell_text(row[5].1));
    assert(values_text(row, 6) =~= sql.subrange(146, 177));
    assert(sql.subrange(177, 179) =~= ", "@);
    assert(sql.subrange(179, 181) =~= cell_text(row[6].1));
    assert(values_text(row, 7) =~= sql.subrange(146, 181));
    assert(sql.subrange(181, 183) =~= ", "@);
    assert(sql.subrange(183, 185) =~= cell_text(row[7].1));
    assert(values_text(row, 8) =~= sql.subrange(146, 185));
    assert(sql.subrange(185, 187) =~= ", "@);
    assert(sql.subrange(187, 189) =~= cell_text(row[8].1));
    assert(values_text(row, 9) =~= sql.subrange(146, 189));
    assert(sql.subrange(189, 191) =~= ", "@);
    assert(sql.subrange(191, 193) =~= cell_text(row[9].1));
    assert(values_text(row, 10) =~= sql.subrange(146, 193));
    assert(sql.subrange(193, 195) =~= ", "@);
    {
        let part = "'Imported from docs/TEST_MATRIX.md by harness import brownfield.'"@;
        assert(sql.subrange(195, 211) =~= part.subrange(0, 16));
        assert(sql.subrange(195, 211) =~= part.subrange(0, 16));
        assert(sql.subrange(211, 227) =~= part.subrange(16, 32));
        assert(sql.subrange(195, 227) =~= part.subrange(0, 32));
        assert(sql.subrange(227, 243) =~= part.subrange(32, 48));
        assert(sql.subrange(195, 243) =~= part.subrange(0, 48));
        assert(sql.subrange(243, 259) =~= part.subrange(48, 64));
        assert(sql.subrange(195, 259) =~= part.subrange(0, 64));
        assert(sql.subrange(259, 260) =~= part.subrange(64, 65));
        assert(sql.subrange(195, 260) =~= part.subrange(0, 65));
        assert(part.subrange(0, 65) =~= part);
    }
    assert(values_text(row, 11) =~= sql.subrange(146, 260));
    {
        let part = ") ON CONFLICT(id) DO UPDATE SET title=excluded.title, contract_doc=excluded.contract_doc, status=excluded.status, unit_proof=excluded.unit_proof, integration_proof=excluded.integration_proof, e2e_proof=excluded.e2e_proof, platform_proof=excluded.platform_proof, evidence=excluded.evidence, notes=excluded.notes;"@;
        assert(sql.subrange(260, 276) =~= part.subrange(0, 16));
        assert(sql.subrange(260, 276) =~= part.subrange(0, 16));
        assert(sql.subrange(276, 292) =~= part.subrange(16, 32));
        assert(sql.subrange(260, 292) =~= part.subrange(0, 32));
        assert(sql.subrange(292, 308) =~= part.subrange(32, 48));
        assert(sql.subrange(260, 308) =~= part.subrange(0, 48));
        assert(sql.subrange(308, 324) =~= part.subrange(48, 64));
        assert(sql.subrange(260, 324) =~= part.subrange(0, 64));
        assert(sql.subrange(324, 340) =~= part.subrange(64, 80));
        assert(sql.subrange(260, 340) =~= part.subrange(0, 80));
        assert(sql.subrange(340, 356) =~= part.subrange(80, 96));
        assert(sql.subrange(260, 356) =~= part.subrange(0, 96));
        assert(sql.subrange(356, 372) =~= part.subrange(96, 112));
        assert(sql.subrange(260, 372) =~= part.subrange(0, 112));
        assert(sql.subrange(372, 388) =~= part.subrange(112, 128));
        assert(sql.subrange(260, 388) =~= part.subrange(0, 128));
        assert(sql.subrange(388, 404) =~= part.subrange(128, 144));
        assert(sql.subrange(260, 404) =~= part.subrange(0, 144));
        assert(sql.subrange(404, 420) =~= part.subrange(144, 160));
        assert(sql.subrange(260, 420) =~= part.subrange(0, 160));
        assert(sql.subrange(420, 436) =~= part.subrange(160, 176));
        assert(sql.subrange(260, 436) =~= part.subrange(0, 176));
        assert(sql.subrange(436, 452) =~= part.subrange(176, 192));
        assert(sql.subrange(260, 452) =~= part.subrange(0, 192));
        assert(sql.subrange(452, 468) =~= part.subrange(192, 208));
        assert(sql.subrange(260, 468) =~= part.subrange(0, 208));
        assert(sql.subrange(468, 484) =~= part.subrange(208, 224));
        assert(sql.subrange(260, 484) =~= part.subrange(0, 224));
        assert(sql.subrange(484, 500) =~= part.subrange(224, 240));
        assert(sql.subrange(260, 500) =~= part.subrange(0, 240));
        assert(sql.subrange(500, 516) =~= part.subrange(240, 256));
        assert(sql.subrange(260, 516) =~= part.subrange(0, 256));
        assert(sql.subrange(516, 532) =~= part.subrange(256, 272));
        assert(sql.subrange(260, 532) =~= part.subrange(0, 272));
        assert(sql.subrange(532, 548) =~= part.subrange(272, 288));
        assert(sql.subrange(260, 548) =~= part.subrange(0, 288));
        assert(sql.subrange(548, 564) =~= part.subrange(288, 304));
        assert(sql.subrange(260, 564) =~= part.subrange(0, 304));
        assert(sql.subrange(564, 571) =~= part.subrange(304, 311));
        assert(sql.subrange(260, 571) =~= part.subrange(0, 311));
        assert(part.subrange(0, 311) =~= part);
    }
    assert(sql =~= "INSERT INTO story ("@ + sql.subrange(19, 136) + ") VALUES ("@ + sql.subrange(146, 260) + ") ON CONFLICT(id) DO UPDATE SET title=excluded.title, contract_doc=excluded.contract_doc, status=excluded.status, unit_proof=excluded.unit_proof, integration_proof=excluded.integration_proof, e2e_proof=excluded.e2e_proof, platform_proof=excluded.platform_proof, evidence=excluded.evidence, notes=excluded.notes;"@);
}

/// What the row of a seeded decision has in each column.
pub open spec fn seeded_decision_row(decision: DecisionImport) -> Seq<(Seq<char>, Cell)> {
    seq![
        ("id"@, Cell::Param(1, SqlData::Text(decision.id@))),
        ("title"@, Cell::Param(2, SqlData::Text(decision.title@))),
        ("status"@, Cell::Param(3, SqlData::Text(decision.status@))),
        ("doc_path"@, Cell::Param(4, SqlData::Text(decision.doc_path@))),
        ("notes"@, Cell::Fixed("'Imported from docs/decisions by harness import brownfield.'"@)),
    ]
}

/// A seeded decision has in each column what its record gives for it.
pub proof fn law_seeded_decision_fills_its_columns(decision: DecisionImport)
    ensures
        inserts(
            decision_seed(decision),
            "INSERT INTO decision ("@,
            seeded_decision_row(decision),
            ") VALUES ("@,
            ") ON CONFLICT(id) DO UPDATE SET title=excluded.title, status=excluded.status, \
                doc_path=excluded.doc_path, notes=excluded.notes;"@,
        ),
{
    let row = seeded_decision_row(decision);
    let sql = SEED_DECISION@;
    reveal_strlit("INSERT INTO decision (id, title, status, doc_path, notes) VALUES (?1, ?2, ?3, ?4, \
        'Imported from docs/decisions by harness import brownfield.') ON CONFLICT(id) DO \
        UPDATE SET title=excluded.title, status=excluded.status, doc_path=excluded.doc_path, \
        notes=excluded.notes;");
    reveal_strlit("INSERT INTO decision (");
    reveal_strlit("id");
    reveal_strlit(", ");
    reveal_strlit("title");
    reveal_strlit("status");
    reveal_strlit("doc_path");
    reveal_strlit("notes");
    reveal_strlit(") VALUES (");
    reveal_strlit("?");
    reveal_strlit("'Imported from docs/decisions by harness import brownfield.'");
    reveal_strlit(") ON CONFLICT(id) DO UPDATE SET title=excluded.title, status=excluded.status, doc_path=excluded.doc_path, notes=excluded.notes;");
    assert(sql.subrange(0, 22) =~= "INSERT INTO decision ("@);
    assert(sql.subrange(22, 24) =~= "id"@);
    assert(columns_text(row, 1) =~= sql.subrange(22, 24));
    assert(sql.subrange(24, 26) =~= ", "@);
    assert(sql.subrange(26, 31) =~= "title"@);
    assert(columns_text(row, 2) =~= sql.subrange(22, 31));
    assert(sql.subrange(31, 33) =~= ", "@);
    assert(sql.subrange(33, 39) =~= "status"@);
    assert(columns_text(row, 3) =~= sql.subrange(22, 39));
    assert(sql.subrange(39, 41) =~= ", "@);
    assert(sql.subrange(41, 49) =~= "doc_path"@);
    assert(columns_text(row, 4) =~= sql.subrange(22, 49));
    assert(sql.subrange(49, 51) =~= ", "@);
    assert(sql.subrange(51, 56) =~= "notes"@);
    assert(columns_text(row, 5) =~= sql.subrange(22, 56));
    assert(sql.subrange(56, 66) =~= ") VALUES ("@);
    assert(sql.subrange(66, 68) =~= cell_text(row[0].1));
    assert(values_text(row, 1) =~= sql.subrange(66, 68));
    assert(sql.subrange(68, 70) =~= ", "@);
    assert(sql.subrange(70, 72) =~= cell_text(row[1].1));
    assert(values_text(row, 2) =~= sql.subrange(66, 72));
    assert(sql.subrange(72, 74) =~= ", "@);
    assert(sql.subrange(74, 76) =~= cell_text(row[2].1));
    assert(values_text(row, 3) =~= sql.subrange(66, 76));
    assert(sql.subrange(76, 78) =~= ", "@);
    assert(sql.subrange(78, 80) =~= cell_text(row[3].1));
    assert(values_text(row, 4) =~= sql.subrange(66, 80));
    assert(sql.subrange(80, 82) =~= ", "@);
    {
        let part = "'Imported from docs/decisions by harness import brownfield.'"@;
        assert(sql.subrange(82, 98) =~= part.subrange(0, 16));
        assert(sql.subrange(82, 98) =~= part.subrange(0, 16));
        assert(sql.subrange(98, 114) =~= part.subrange(16, 32));
        assert(sql.subrange(82, 114) =~= part.subrange(0, 32));
        assert(sql.subrange(114, 130) =~= part.subrange(32, 48));
        assert(sql.subrange(82, 130) =~= part.subrange(0, 48));
        assert(sql.subrange(130, 142) =~= part.subrange(48, 60));
        assert(sql.subrange(82, 142) =~= part.subrange(0, 60));
        assert(part.subrange(0, 60) =~= part);
    }
    assert(values_text(row, 5) =~= sql.subrange(66, 142));
    {
        let part = ") ON CONFLICT(id) DO UPDATE SET title=excluded.title, status=excluded.status, doc_path=excluded.doc_path, notes=excluded.notes;"@;
        assert(sql.subrange(142, 158) =~= part.subrange(0, 16));
        assert(sql.subrange(142, 158) =~= part.subrange(0, 16));
        assert(sql.subrange(158, 174) =~= part.subrange(16, 32));
        assert(sql.subrange(142, 174) =~= part.subrange(0, 32));
        assert(sql.subrange(174, 190) =~= part.subrange(32, 48));
        assert(sql.subrange(142, 190) =~= part.subrange(0, 48));
        assert(sql.subrange(190, 206) =~= part.subrange(48, 64));
        assert(sql.subrange(142, 206) =~= part.subrange(0, 64));
        assert(sql.subrange(206, 222) =~= part.subrange(64, 80));
        assert(sql.subrange(142, 222) =~= part.subrange(0, 80));
        assert(sql.subrange(222, 238) =~= part.subrange(80, 96));
        assert(sql.subrange(142, 238) =~= part.subrange(0, 96));
        assert(sql.subrange(238, 254) =~= part.subrange(96, 112));
        assert(sql.subrange(142, 254) =~= part.subrange(0, 112));
        assert(sql.subrange(254, 269) =~= part.subrange(112, 127));
        assert(sql.subrange(142, 269) =~= part.subrange(0, 127));
        assert(part.subrange(0, 127) =~= part);
    }
    assert(sql =~= "INSERT INTO decision ("@ + sql.subrange(22, 56) + ") VALUES ("@ + sql.subrange(66, 142) + ") ON CONFLICT(id) DO UPDATE SET title=excluded.title, status=excluded.status, doc_path=excluded.doc_path, notes=excluded.notes;"@);
}

/// What the row of a seeded backlog item has in each column.
pub open spec fn seeded_item_row(item: BacklogImport) -> Seq<(Seq<char>, Cell)> {
    seq![
        ("title"@, Cell::Param(1, SqlData::Text(item.title@))),
        ("discovered_while"@, Cell::Param(2, given_text(item.discovered_while.deep_view()))),
        ("current_pain"@, Cell::Param(3, given_text(item.current_pain.deep_view()))),
        ("suggested_improvement"@, Cell::Param(4, given_text(item.suggested_improvement.deep_view()))),
        ("risk"@, Cell::Param(5, given_lane(item.risk))),
        ("status"@, Cell::Param(6, SqlData::Text(item.status@))),
        ("notes"@, Cell::Fixed("'Imported from docs/HARNESS_BACKLOG.md by harness import brownfield.'"@)),
    ]
}

/// A seeded backlog item has in each column what the document gives for it.
pub proof fn law_seeded_item_fills_its_columns(item: BacklogImport)
    ensures
        inserts(
            backlog_item_seed(item),
            "INSERT INTO backlog ("@,
            seeded_item_row(item),
            ") SELECT "@,
            " WHERE NOT EXISTS (SELECT 1 FROM backlog WHERE title=?1);"@,
        ),
{
    let row = seeded_item_row(item);
    let sql = SEED_BACKLOG_ITEM@;
    reveal_strlit("INSERT INTO backlog (title, discovered_while, current_pain, suggested_improvement, \
        risk, status, notes) SELECT ?1, ?2, ?3, ?4, ?5, ?6, 'Imported from \
        docs/HARNESS_BACKLOG.md by harness import brownfield.' WHERE NOT EXISTS (SELECT 1 \
        FROM backlog WHERE title=?1);");
    reveal_strlit("INSERT INTO backlog (");
    reveal_strlit("title");
    reveal_strlit(", ");
    reveal_strlit("discovered_while");
    reveal_strlit("current_pain");
    reveal_strlit("suggested_improvement");
    reveal_strlit("risk");
    reveal_strlit("status");
    reveal_strlit("notes");
    reveal_strlit(") SELECT ");
    reveal_strlit("?");
    reveal_strlit("'Imported from docs/HARNESS_BACKLOG.md by harness import brownfield.'");
    reveal_strlit(" WHERE NOT EXISTS (SELECT 1 FROM backlog WHERE title=?1);");
    assert(sql.subrange(0, 21) =~= "INSERT INTO backlog ("@);
    assert(sql.subrange(21, 26) =~= "title"@);
    assert(columns_text(row, 1) =~= sql.subrange(21, 26));
    assert(sql.subrange(26, 28) =~= ", "@);
    assert(sql.subrange(28, 44) =~= "discovered_while"@);
    assert(columns_text(row, 2) =~= sql.subrange(21, 44));
    assert(sql.subrange(44, 46) =~= ", "@);
    assert(sql.subrange(46, 58) =~= "current_pain"@);
    assert(columns_text(row, 3) =~= sql.subrange(21, 58));
    assert(sql.subrange(58, 60) =~= ", "@);
    assert(sql.subrange(60, 81) =~= "suggested_improvement"@);
    assert(columns_text(row, 4) =~= sql.subrange(21, 81));
    assert(sql.subrange(81, 83) =~= ", "@);
    assert(sql.subrange(83, 87) =~= "risk"@);
    assert(columns_text(row, 5) =~= sql.subrange(21, 87));
    assert(sql.subrange(87, 89) =~= ", "@);
    assert(sql.subrange(89, 95) =~= "status"@);
    assert(columns_text(row, 6) =~= sql.subrange(21, 95));
    assert(sql.subrange(95, 97) =~= ", "@);
    assert(sql.subrange(97, 102) =~= "notes"@);
    assert(columns_text(row, 7) =~= sql.subrange(21, 102));
    assert(sql.subrange(102, 111) =~= ") SELECT "@);
    assert(sql.subrange(111, 113) =~= cell_text(row[0].1));
    assert(values_text(row, 1) =~= sql.subrange(111, 113));
    assert(sql.subrange(113, 115) =~= ", "@);
    assert(sql.subrange(115, 117) =~= cell_text(row[1].1));
    assert(values_text(row, 2) =~= sql.subrange(111, 117));
    assert(sql.subrange(117, 119) =~= ", "@);
    assert(sql.subrange(119, 121) =~= cell_text(row[2].1));
    assert(values_text(row, 3) =~= sql.subrange(111, 121));
    assert(sql.subrange(121, 123) =~= ", "@);
    assert(sql.subrange(123, 125) =~= cell_text(row[3].1));
    assert(values_text(row, 4) =~= sql.subrange(111, 125));
    assert(sql.subrange(125, 127) =~= ", "@);
    assert(sql.subrange(127, 129) =~= cell_text(row[4].1));
    assert(values_text(row, 5) =~= sql.subrange(111, 129));
    assert(sql.subrange(129, 131) =~= ", "@);
    assert(sql.subrange(131, 133) =~= cell_text(row[5].1));
    assert(values_text(row, 6) =~= sql.subrange(111, 133));
    assert(sql.subrange(133, 135) =~= ", "@);
    {
        let part = "'Imported from docs/HARNESS_BACKLOG.md by harness import brownfield.'"@;
        assert(sql.subrange(135, 151) =~= part.subrange(0, 16));
        assert(sql.subrange(135, 151) =~= part.subrange(0, 16));
        assert(sql.subrange(151, 167) =~= part.subrange(16, 32));
        assert(sql.subrange(135, 167) =~= part.subrange(0, 32));
        assert(sql.subrange(167, 183) =~= part.subrange(32, 48));
        assert(sql.subrange(135, 183) =~= part.subrange(0, 48));
        assert(sql.subrange(183, 199) =~= part.subrange(48, 64));
        assert(sql.subrange(135, 199) =~= part.subrange(0, 64));
        assert(sql.subrange(199, 204) =~= part.subrange(64, 69));
        assert(sql.subrange(135, 204) =~= part.subrange(0, 69));
        assert(part.subrange(0, 69) =~= part);
    }
    assert(values_text(row, 7) =~= sql.subrange(111, 204));
    {
        let part = " WHERE NOT EXISTS (SELECT 1 FROM backlog WHERE title=?1);"@;
        assert(sql.subrange(204, 220) =~= part.subrange(0, 16));
        assert(sql.subrange(204, 220) =~= part.subrange(0, 16));
        assert(sql.subrange(220, 236) =~= part.subrange(16, 32));
        assert(sql.subrange(204, 236) =~= part.subrange(0, 32));
        assert(sql.subrange(236, 252) =~= part.subrange(32, 48));
        assert(sql.subrange(204, 252) =~= part.subrange(0, 48));
        assert(sql.subrange(252, 261) =~= part.subrange(48, 57));
        assert(sql.subrange(204, 261) =~= part.subrange(0, 57));
        assert(part.subrange(0, 57) =~= part);
    }
    assert(sql =~= "INSERT INTO backlog ("@ + sql.subrange(21, 102) + ") SELECT "@ + sql.subrange(111, 204) + " WHERE NOT EXISTS (SELECT 1 FROM backlog WHERE title=?1);"@);
}

/// What an update of a story puts into each column.
pub open spec fn story_update_row(input: StoryUpdateInput) -> Seq<(Seq<char>, Cell)> {
    seq![
        ("status"@, Cell::Param(1, given_text(input.status.deep_view()))),
        ("evidence"@, Cell::Param(2, given_text(input.evidence.deep_view()))),
        ("unit_proof"@, Cell::Param(3, given_flag(input.unit))),
        ("integration_proof"@, Cell::Param(4, given_flag(input.integration))),
        ("e2e_proof"@, Cell::Param(5, given_flag(input.e2e))),
        ("platform_proof"@, Cell::Param(6, given_flag(input.platform))),
        ("verify_command"@, Cell::Param(7, given_text(input.verify_command.deep_view()))),
    ]
}

/// An update of a story sets each column to what was given for it, and keeps a column for which nothing was given.
pub proof fn law_story_update_sets_its_columns(input: StoryUpdateInput)
    ensures
        keeps(
            input.update(),
            "UPDATE story SET "@,
            story_update_row(input),
            " WHERE id="@,
            8,
            SqlData::Text(input.id@),
        ),
{
    let row = story_update_row(input);
    let sql = UPDATE_STORY@;
    reveal_strlit("UPDATE story SET status=COALESCE(?1, status), evidence=COALESCE(?2, evidence), \
        unit_proof=COALESCE(?3, unit_proof), integration_proof=COALESCE(?4, \
        integration_proof), e2e_proof=COALESCE(?5, e2e_proof), platform_proof=COALESCE(?6, \
        platform_proof), verify_command=COALESCE(?7, verify_command) WHERE id=?8;");
    reveal_strlit("UPDATE story SET ");
    reveal_strlit("status");
    reveal_strlit("=COALESCE(");
    reveal_strlit("?");
    reveal_strlit(", ");
    reveal_strlit(")");
    reveal_strlit("evidence");
    reveal_strlit("unit_proof");
    reveal_strlit("integration_proof");
    reveal_strlit("e2e_proof");
    reveal_strlit("platform_proof");
    reveal_strlit("verify_command");
    reveal_strlit(" WHERE id=");
    reveal_strlit(";");
    assert(sql.subrange(0, 17) =~= "UPDATE story SET "@);
    assert(sql.subrange(17, 23) =~= "status"@);
    assert(sql.subrange(23, 33) =~= "=COALESCE("@);
    assert(sql.subrange(33, 35) =~= cell_text(row[0].1));
    assert(sql.subrange(35, 37) =~= ", "@);
    assert(sql.subrange(37, 43) =~= "status"@);
    assert(sql.subrange(43, 44) =~= ")"@);
    assert(kept_text(row, 1) =~= sql.subrange(17, 44));
    assert(sql.subrange(44, 46) =~= ", "@);
    assert(sql.subrange(46, 54) =~= "evidence"@);
    assert(sql.subrange(54, 64) =~= "=COALESCE("@);
    assert(sql.subrange(64, 66) =~= cell_text(row[1].1));
    assert(sql.subrange(66, 68) =~= ", "@);
    assert(sql.subrange(68, 76) =~= "evidence"@);
    assert(sql.subrange(76, 77) =~= ")"@);
    assert(kept_text(row, 2) =~= sql.subrange(17, 77));
    assert(sql.subrange(77, 79) =~= ", "@);
    assert(sql.subrange(79, 89) =~= "unit_proof"@);
    assert(sql.subrange(89, 99) =~= "=COALESCE("@);
    assert(sql.subrange(99, 101) =~= cell_text(row[2].1));
    assert(sql.subrange(101, 103) =~= ", "@);
    assert(sql.subrange(103, 113) =~= "unit_proof"@);
    assert(sql.subrange(113, 114) =~= ")"@);
    assert(kept_text(row, 3) =~= sql.subrange(17, 114));
    assert(sql.subrange(114, 116) =~= ", "@);
    assert(sql.subrange(116, 133) =~= "integration_proof"@);
    assert(sql.subrange(133, 143) =~= "=COALESCE("@);
    assert(sql.subrange(143, 145) =~= cell_text(row[3].1));
    assert(sql.subrange(145, 147) =~= ", "@);
    assert(sql.subrange(147, 164) =~= "integration_proof"@);
    assert(sql.subrange(164, 165) =~= ")"@);
    assert(kept_text(row, 4) =~= sql.subrange(17, 165));
    assert(sql.subrange(165, 167) =~= ", "@);
    assert(sql.subrange(167, 176) =~= "e2e_proof"@);
    assert(sql.subrange(176, 186) =~= "=COALESCE("@);
    assert(sql.subrange(186, 188) =~= cell_text(row[4].1));
    assert(sql.subrange(188, 190) =~= ", "@);
    assert(sql.subrange(190, 199) =~= "e2e_proof"@);
    assert(sql.subrange(199, 200) =~= ")"@);
    assert(kept_text(row, 5) =~= sql.subrange(17, 200));
    assert(sql.subrange(200, 202) =~= ", "@);
    assert(sql.subrange(202, 216) =~= "platform_proof"@);
    assert(sql.subrange(216, 226) =~= "=COALESCE("@);
    assert(sql.subrange(226, 228) =~= cell_text(row[5].1));
    assert(sql.subrange(228, 230) =~= ", "@);
    assert(sql.subrange(230, 244) =~= "platform_proof"@);
    assert(sql.subrange(244, 245) =~= ")"@);
    assert(kept_text(row, 6) =~= sql.subrange(17, 245));
    assert(sql.subrange(245, 247) =~= ", "@);
    assert(sql.subrange(247, 261) =~= "verify_command"@);
    assert(sql.subrange(261, 271) =~= "=COALESCE("@);
    assert(sql.subrange(271, 273) =~= cell_text(row[6].1));
    assert(sql.subrange(273, 275) =~= ", "@);
    assert(sql.subrange(275, 289) =~= "verify_command"@);
    assert(sql.subrange(289, 290) =~= ")"@);
    assert(kept_text(row, 7) =~= sql.subrange(17, 290));
    assert(sql.subrange(290, 300) =~= " WHERE id="@);
    assert(sql.subrange(300, 302) =~= "?"@ + decimal(8));
    assert(sql.subrange(302, 303) =~= ";"@);
    assert(sql =~= "UPDATE story SET "@ + sql.subrange(17, 290) + " WHERE id="@ + ("?"@ + decimal(8)) + ";"@);
}

/// What closing a backlog item puts into each column.
pub open spec fn backlog_closing_row(input: BacklogCloseInput) -> Seq<(Seq<char>, Cell)> {
    seq![
        ("status"@, Cell::Param(1, SqlData::Text(input.status@))),
        ("actual_outcome"@, Cell::Param(2, given_text(input.actual_outcome.deep_view()))),
        ("implemented_at"@, Cell::Fixed("datetime('now')"@)),
    ]
}

/// Closing a backlog item sets its status and its outcome, and those of no other item.
pub proof fn law_backlog_closing_sets_its_columns(input: BacklogCloseInput)
    ensures
        updates(
            closing_statement(input),
            "UPDATE backlog SET "@,
            backlog_closing_row(input),
            " WHERE id="@,
            3,
            SqlData::Integer(input.id as int),
        ),
{
    let row = backlog_closing_row(input);
    let sql = CLOSE_BACKLOG@;
    reveal_strlit("UPDATE backlog SET status=?1, actual_outcome=?2, implemented_at=datetime('now') \
        WHERE id=?3;");
    reveal_strlit("UPDATE backlog SET ");
    reveal_strlit("status");
    reveal_strlit("=");
    reveal_strlit("?");
    reveal_strlit(", ");
    reveal_strlit("actual_outcome");
    reveal_strlit("implemented_at");
    reveal_strlit("datetime('now')");
    reveal_strlit(" WHERE id=");
    reveal_strlit(";");
    assert(sql.subrange(0, 19) =~= "UPDATE backlog SET "@);
    assert(sql.subrange(19, 25) =~= "status"@);
    assert(sql.subrange(25, 26) =~= "="@);
    assert(sql.subrange(26, 28) =~= cell_text(row[0].1));
    assert(assigned_text(row, 1) =~= sql.subrange(19, 28));
    assert(sql.subrange(28, 30) =~= ", "@);
    assert(sql.subrange(30, 44) =~= "actual_outcome"@);
    assert(sql.subrange(44, 45) =~= "="@);
    assert(sql.subrange(45, 47) =~= cell_text(row[1].1));
    assert(assigned_text(row, 2) =~= sql.subrange(19, 47));
    assert(sql.subrange(47, 49) =~= ", "@);
    assert(sql.subrange(49, 63) =~= "implemented_at"@);
    assert(sql.subrange(63, 64) =~= "="@);
    assert(sql.subrange(64, 79) =~= "datetime('now')"@);
    assert(assigned_text(row, 3) =~= sql.subrange(19, 79));
    assert(sql.subrange(79, 89) =~= " WHERE id="@);
    assert(sql.subrange(89, 91) =~= "?"@ + decimal(3));
    assert(sql.subrange(91, 92) =~= ";"@);
    assert(sql =~= "UPDATE backlog SET "@ + sql.subrange(19, 79) + " WHERE id="@ + ("?"@ + decimal(3)) + ";"@);
}

/// What the verification of a story puts into each column.
pub open spec fn story_verdict_row(id: Seq<char>, success: bool) -> Seq<(Seq<char>, Cell)> {
    seq![
        ("last_verified_at"@, Cell::Fixed("datetime('now')"@)),
        ("last_verified_result"@, Cell::Param(1, SqlData::Text(if success { "pass"@ } else { "fail"@ }))),
    ]
}

/// The verification of a story is kept as passed exactly where its command succeeded.
pub proof fn law_story_verdict_sets_its_columns(id: Seq<char>, success: bool)
    ensures
        updates(
            story_result(id, success),
            "UPDATE story SET "@,
            story_verdict_row(id, success),
            " WHERE id="@,
            2,
            SqlData::Text(id),
        ),
{
    let row = story_verdict_row(id, success);
    let sql = RECORD_STORY_RESULT@;
    reveal_strlit("UPDATE story SET last_verified_at=datetime('now'), last_verified_result=?1 WHERE \
        id=?2;");
    reveal_strlit("UPDATE story SET ");
    reveal_strlit("last_verified_at");
    reveal_strlit("=");
    reveal_strlit("datetime('now')");
    reveal_strlit(", ");
    reveal_strlit("last_verified_result");
    reveal_strlit("?");
    reveal_strlit(" WHERE id=");
    reveal_strlit(";");
    assert(sql.subrange(0, 17) =~= "UPDATE story SET "@);
    assert(sql.subrange(17, 33) =~= "last_verified_at"@);
    assert(sql.subrange(33, 34) =~= "="@);
    assert(sql.subrange(34, 49) =~= "datetime('now')"@);
    assert(assigned_text(row, 1) =~= sql.subrange(17, 49));
    assert(sql.subrange(49, 51) =~= ", "@);
    assert(sql.subrange(51, 71) =~= "last_verified_result"@);
    assert(sql.subrange(71, 72) =~= "="@);
    assert(sql.subrange(72, 74) =~= cell_text(row[1].1));
    assert(assigned_text(row, 2) =~= sql.subrange(17, 74));
    assert(sql.subrange(74, 84) =~= " WHERE id="@);
    assert(sql.subrange(84, 86) =~= "?"@ + decimal(2));
    assert(sql.subrange(86, 87) =~= ";"@);
    assert(sql =~= "UPDATE story SET "@ + sql.subrange(17, 74) + " WHERE id="@ + ("?"@ + decimal(2)) + ";"@);
}

/// What the verification of a decision puts into each column.
pub open spec fn decision_verdict_row(id: Seq<char>, success: bool) -> Seq<(Seq<char>, Cell)> {
    seq![
        ("last_verified_at"@, Cell::Fixed("datetime('now')"@)),
        ("last_verified_result"@, Cell::Param(1, SqlData::Text(if success { "pass"@ } else { "fail"@ }))),
    ]
}

/// The verification of a decision is kept as passed exactly where its command succeeded.
pub proof fn law_decision_verdict_sets_its_columns(id: Seq<char>, success: bool)
    ensures
        updates(
            decision_result(id, success),
            "UPDATE decision SET "@,
            decision_verdict_row(id, success),
            " WHERE id="@,
            2,
            SqlData::Text(id),
        ),
{
    let row = decision_verdict_row(id, success);
    let sql = RECORD_DECISION_RESULT@;
    reveal_strlit("UPDATE decision SET last_verified_at=datetime('now'), last_verified_result=?1 WHERE \
        id=?2;");
    reveal_strlit("UPDATE decision SET ");
    reveal_strlit("last_verified_at");
    reveal_strlit("=");
    reveal_strlit("datetime('now')");
    reveal_strlit(", ");
    reveal_strlit("last_verified_result");
    reveal_strlit("?");
    reveal_strlit(" WHERE id=");
    reveal_strlit(";");
    assert(sql.subrange(0, 20) =~= "UPDATE decision SET "@);
    assert(sql.subrange(20, 36) =~= "last_verified_at"@);
    assert(sql.subrange(36, 37) =~= "="@);
    assert(sql.subrange(37, 52) =~= "datetime('now')"@);
    assert(assigned_text(row, 1) =~= sql.subrange(20, 52));
    assert(sql.subrange(52, 54) =~= ", "@);
    assert(sql.subrange(54, 74) =~= "last_verified_result"@);
    assert(sql.subrange(74, 75) =~= "="@);
    assert(sql.subrange(75, 77) =~= cell_text(row[1].1));
    assert(assigned_text(row, 2) =~= sql.subrange(20, 77));
    assert(sql.subrange(77, 87) =~= " WHERE id="@);
    assert(sql.subrange(87, 89) =~= "?"@ + decimal(2));
    assert(sql.subrange(89, 90) =~= ";"@);
    assert(sql =~= "UPDATE decision SET "@ + sql.subrange(20, 77) + " WHERE id="@ + ("?"@ + decimal(2)) + ";"@);
}

/// What the check of a tool puts into each column.
pub open spec fn tool_status_row(result: ToolCheckResult) -> Seq<(Seq<char>, Cell)> {
    seq![
        ("status"@, Cell::Param(1, SqlData::Text(result.status@))),
        ("checked_at"@, Cell::Fixed("datetime('now')"@)),
    ]
}

/// The check of a tool keeps the status that it reports.
pub proof fn law_tool_status_sets_its_columns(
    tool: ToolToCheck,
    found: bool,
    r: (ToolCheckResult, SqlStatement),
)
    requires
        tool.is_checked(found, r),
    ensures
        updates(
            r.1.deep_view(),
            "UPDATE tool SET "@,
            tool_status_row(r.0),
            " WHERE name="@,
            2,
            SqlData::Text(tool.name@),
        ),
{
    let row = tool_status_row(r.0);
    let sql = UPDATE_TOOL_STATUS@;
    reveal_strlit("UPDATE tool SET status=?1, checked_at=datetime('now') WHERE name=?2;");
    reveal_strlit("UPDATE tool SET ");
    reveal_strlit("status");
    reveal_strlit("=");
    reveal_strlit("?");
    reveal_strlit(", ");
    reveal_strlit("checked_at");
    reveal_strlit("datetime('now')");
    reveal_strlit(" WHERE name=");
    reveal_strlit(";");
    assert(sql.subrange(0, 16) =~= "UPDATE tool SET "@);
    assert(sql.subrange(16, 22) =~= "status"@);
    assert(sql.subrange(22, 23) =~= "="@);
    assert(sql.subrange(23, 25) =~= cell_text(row[0].1));
    assert(assigned_text(row, 1) =~= sql.subrange(16, 25));
    assert(sql.subrange(25, 27) =~= ", "@);
    assert(sql.subrange(27, 37) =~= "checked_at"@);
    assert(sql.subrange(37, 38) =~= "="@);
    assert(sql.subrange(38, 53) =~= "datetime('now')"@);
    assert(assigned_text(row, 2) =~= sql.subrange(16, 53));
    assert(sql.subrange(53, 65) =~= " WHERE name="@);
    assert(sql.subrange(65, 67) =~= "?"@ + decimal(2));
    assert(sql.subrange(67, 68) =~= ";"@);
    assert(sql =~= "UPDATE tool SET "@ + sql.subrange(16, 53) + " WHERE name="@ + ("?"@ + decimal(2)) + ";"@);
}

/// What the queries of traces and of interventions read: the columns in the order in which a record takes them, and
/// the rows in the order in which they are listed.
pub proof fn law_queries_of_trace_read()
    ensures
        FIND_TRACE_TO_SCORE@ == "SELECT trace.id, trace.task_summary, trace.intake_id, intake.risk_lane, trace.agent, \
            trace.actions_taken, trace.files_read, trace.files_changed, trace.decisions_made, \
            trace.errors, trace.outcome, trace.duration_seconds, trace.token_estimate, \
            trace.harness_friction, trace.notes FROM trace LEFT JOIN intake ON intake.id = \
            trace.intake_id WHERE trace.id = ?1"@,
        FIND_LAST_TRACE_TO_SCORE@ == "SELECT trace.id, trace.task_summary, trace.intake_id, intake.risk_lane, trace.agent, \
            trace.actions_taken, trace.files_read, trace.files_changed, trace.decisions_made, \
            trace.errors, trace.outcome, trace.duration_seconds, trace.token_estimate, \
            trace.harness_friction, trace.notes FROM trace LEFT JOIN intake ON intake.id = \
            trace.intake_id ORDER BY trace.id DESC LIMIT 1"@,
        FIND_CONTEXT_TO_SCORE@ == "SELECT trace.id, intake.risk_lane, trace.story_id, trace.files_read, \
            trace.files_changed, trace.outcome FROM trace LEFT JOIN intake ON intake.id = \
            trace.intake_id WHERE trace.id=?1;"@,
        QUERY_TRACES@ == "SELECT id, created_at, outcome, task_summary, harness_friction FROM trace ORDER BY \
            id DESC LIMIT 20;"@,
        QUERY_FRICTION@ == "SELECT trace.id, trace.created_at, intake.risk_lane, intake.input_type, \
            trace.task_summary, trace.harness_friction FROM trace LEFT JOIN intake ON intake.id \
            = trace.intake_id WHERE trace.harness_friction IS NOT NULL ORDER BY trace.id DESC;"@,
        QUERY_INTERVENTIONS@ == "SELECT id, created_at, trace_id, story_id, type, description, source, impact FROM \
            intervention WHERE (?1 IS NULL OR trace_id = ?1) AND (?2 IS NULL OR story_id = ?2) \
            AND (?3 IS NULL OR type = ?3) ORDER BY id DESC;"@,
{
}

/// What the queries of intakes read: the columns in the order in which a record takes them, and
/// the rows in the order in which they are listed.
pub proof fn law_queries_of_intake_read()
    ensures
        QUERY_INTAKES@ == "SELECT id, created_at, input_type, risk_lane, summary FROM intake ORDER BY id DESC \
            LIMIT 20;"@,
{
}

/// What the queries of stories read: the columns in the order in which a record takes them, and
/// the rows in the order in which they are listed.
pub proof fn law_queries_of_story_read()
    ensures
        QUERY_MATRIX@ == "SELECT id, title, status, unit_proof, integration_proof, e2e_proof, platform_proof, \
            evidence FROM story ORDER BY id;"@,
        QUERY_STORY_VERIFY_STATUS@ == "SELECT id, verify_command, last_verified_result FROM story WHERE id=?1;"@,
{
}

/// What the queries of decisions read: the columns in the order in which a record takes them, and
/// the rows in the order in which they are listed.
pub proof fn law_queries_of_decision_table_read()
    ensures
        QUERY_DECISIONS@ == "SELECT id, title, status, last_verified_at, last_verified_result FROM decision ORDER \
            BY id;"@,
{
}

/// What the queries of the backlog read: the columns in the order in which a record takes them, and
/// the rows in the order in which they are listed.
pub proof fn law_queries_of_backlog_table_read()
    ensures
        QUERY_BACKLOG@ == "SELECT id, title, status, risk, predicted_impact, actual_outcome FROM backlog ORDER \
            BY status, id;"@,
        QUERY_OPEN_BACKLOG@ == "SELECT id, title, status, risk, predicted_impact, actual_outcome FROM backlog WHERE \
            status IN ('proposed', 'accepted') ORDER BY status, id;"@,
        QUERY_CLOSED_BACKLOG@ == "SELECT id, title, status, risk, predicted_impact, actual_outcome FROM backlog WHERE \
            status IN ('implemented', 'rejected') ORDER BY status, id;"@,
{
}

/// What the queries of what is to be verified read: the columns in the order in which a record takes them, and
/// the rows in the order in which they are listed.
pub proof fn law_queries_of_verify_read()
    ensures
        FIND_STORY_COMMAND@ == "SELECT verify_command FROM story WHERE id=?1;"@,
        FIND_DECISION_COMMAND@ == "SELECT verify_command FROM decision WHERE id=?1;"@,
        LIST_STORIES_TO_VERIFY@ == "SELECT id, title, verify_command FROM story ORDER BY id;"@,
{
}

/// What the queries of tools read: the columns in the order in which a record takes them, and
/// the rows in the order in which they are listed.
pub proof fn law_queries_of_tool_read()
    ensures
        FIND_TOOL_COMMAND@ == "SELECT command FROM tool WHERE name=?1;"@,
        LIST_TOOLS_TO_CHECK@ == "SELECT name, kind, command, scan_target, capability FROM tool WHERE (?1 IS NULL OR \
            name = ?1) ORDER BY name;"@,
        QUERY_TOOLS@ == "SELECT provider, name, command, description, args, responsibility, since, kind, \
            capability, scan_target, status, checked_at FROM tool ORDER BY name;"@,
{
}

/// What the queries of the audit read: the columns in the order in which a record takes them, and
/// the rows in the order in which they are listed.
pub proof fn law_queries_of_audit_read()
    ensures
        LIST_TOOLS_TO_AUDIT@ == "SELECT name, command, kind, status FROM tool ORDER BY name;"@,
        ORPHANED_STORIES@ == "SELECT story.id, story.title FROM story LEFT JOIN trace ON trace.story_id = story.id \
            WHERE story.status IN ('planned','in_progress') AND trace.id IS NULL ORDER BY \
            story.id;"@,
        UNVERIFIED_STORIES@ == "SELECT id, title FROM story WHERE verify_command IS NOT NULL AND \
            TRIM(verify_command) <> '' AND last_verified_result IS NULL ORDER BY id;"@,
        UNVERIFIED_DECISIONS@ == "SELECT id, title FROM decision WHERE verify_command IS NOT NULL AND \
            TRIM(verify_command) <> '' AND last_verified_result IS NULL ORDER BY id;"@,
        BACKLOG_WITHOUT_OUTCOMES@ == "SELECT CAST(id AS TEXT), title FROM backlog WHERE predicted_impact IS NOT NULL AND \
            actual_outcome IS NULL AND status='implemented' ORDER BY id;"@,
        STALE_STORIES@ == "SELECT story.id, story.title FROM story JOIN trace ON trace.story_id = story.id \
            WHERE story.status <> 'implemented' GROUP BY story.id, story.title HAVING \
            julianday('now') - julianday(MAX(trace.created_at)) > 30 ORDER BY story.id;"@,
{
}

/// What the queries of what recurs read: the columns in the order in which a record takes them, and
/// the rows in the order in which they are listed.
pub proof fn law_queries_of_proposal_read()
    ensures
        LIST_FRICTION@ == "SELECT harness_friction FROM trace WHERE harness_friction IS NOT NULL AND \
            TRIM(harness_friction) <> '' AND LOWER(TRIM(harness_friction)) <> 'none';"@,
        LIST_INTERVENTIONS@ == "SELECT type || ': ' || description FROM intervention WHERE TRIM(description) <> '';"@,
{
}

/// What the queries of the records read: the columns in the order in which a record takes them, and
/// the rows in the order in which they are listed.
pub proof fn law_queries_of_repository_read()
    ensures
        QUERY_STATS@ == "SELECT (SELECT COUNT(*) FROM intake) AS intakes, (SELECT COUNT(*) FROM story) AS \
            stories, (SELECT COUNT(*) FROM decision) AS decisions, (SELECT COUNT(*) FROM \
            backlog) AS backlog_items, (SELECT COUNT(*) FROM trace) AS traces;"@,
{
}

/// What the queries of the schema read: the columns in the order in which a record takes them, and
/// the rows in the order in which they are listed.
pub proof fn law_queries_of_migrate_read()
    ensures
        QUERY_SCHEMA_VERSION@ == "SELECT COALESCE(MAX(version),0) FROM schema_version;"@,
{
}

} // verus!
