//! Seeding the database from the documents of a repository that came before it.
use vstd::prelude::*;

use crate::backlog::{BacklogImport, BacklogRow};
use crate::backlog_table::{lane_data, lane_param};
use crate::decision::{DecisionImport, DecisionRow};
use crate::matrix::{StoryImport, StoryRow};
use crate::statement::{
    optional_text_param, text_data, text_param, SqlData, SqlParam, SqlStatement, SqlText,
};

verus! {

/// How much was seeded.
#[derive(Debug, Clone, Copy, PartialEq, Eq)]
pub struct BrownfieldImportResult {
    pub stories: usize,
    pub decisions: usize,
    pub backlog_items: usize,
}

pub const SEED_STORY: &'static str =
    "INSERT INTO story (id, title, risk_lane, contract_doc, status, unit_proof, \
     integration_proof, e2e_proof, platform_proof, evidence, notes) VALUES (?1, ?2, \
     'high_risk', ?3, ?4, ?5, ?6, ?7, ?8, ?9, 'Imported from docs/TEST_MATRIX.md by \
     harness import brownfield.') ON CONFLICT(id) DO UPDATE SET title=excluded.title, \
     contract_doc=excluded.contract_doc, status=excluded.status, \
     unit_proof=excluded.unit_proof, integration_proof=excluded.integration_proof, \
     e2e_proof=excluded.e2e_proof, platform_proof=excluded.platform_proof, \
     evidence=excluded.evidence, notes=excluded.notes;";

pub const SEED_DECISION: &'static str =
    "INSERT INTO decision (id, title, status, doc_path, notes) VALUES (?1, ?2, ?3, ?4, \
     'Imported from docs/decisions by harness import brownfield.') ON CONFLICT(id) DO \
     UPDATE SET title=excluded.title, status=excluded.status, doc_path=excluded.doc_path, \
     notes=excluded.notes;";

pub const SEED_BACKLOG_ITEM: &'static str =
    "INSERT INTO backlog (title, discovered_while, current_pain, suggested_improvement, \
     risk, status, notes) SELECT ?1, ?2, ?3, ?4, ?5, ?6, 'Imported from \
     docs/HARNESS_BACKLOG.md by harness import brownfield.' WHERE NOT EXISTS (SELECT 1 \
     FROM backlog WHERE title=?1);";

/// The statement that stores a story of the matrix, in place of one with its id.
pub open spec fn story_seed(story: StoryImport) -> SqlText {
    SqlText {
        sql: SEED_STORY@,
        params: seq![
            SqlData::Text(story.id@),
            SqlData::Text(story.title@),
            text_data(story.contract_doc.deep_view()),
            SqlData::Text(story.status@),
            SqlData::Integer(story.unit as int),
            SqlData::Integer(story.integration as int),
            SqlData::Integer(story.e2e as int),
            SqlData::Integer(story.platform as int),
            text_data(story.evidence.deep_view()),
        ],
    }
}

/// The statement that stores a story of the matrix, in place of one with its id.
pub fn seed_story(story: &StoryImport) -> (r: SqlStatement)
    ensures
        r.deep_view() == story_seed(*story),
{
    let params = vec![
        text_param(story.id.as_str()),
        text_param(story.title.as_str()),
        optional_text_param(&story.contract_doc),
        text_param(story.status.as_str()),
        SqlParam::Integer(story.unit),
        SqlParam::Integer(story.integration),
        SqlParam::Integer(story.e2e),
        SqlParam::Integer(story.platform),
        optional_text_param(&story.evidence),
    ];
    assert(params.deep_view() =~= story_seed(*story).params);
    SqlStatement { sql: SEED_STORY, params }
}

/// The statement that stores a decision record, in place of one with its id.
pub open spec fn decision_seed(decision: DecisionImport) -> SqlText {
    SqlText {
        sql: SEED_DECISION@,
        params: seq![
            SqlData::Text(decision.id@),
            SqlData::Text(decision.title@),
            SqlData::Text(decision.status@),
            SqlData::Text(decision.doc_path@),
        ],
    }
}

/// The statement that stores a decision record, in place of one with its id.
pub fn seed_decision(decision: &DecisionImport) -> (r: SqlStatement)
    ensures
        r.deep_view() == decision_seed(*decision),
{
    let params = vec![
        text_param(decision.id.as_str()),
        text_param(decision.title.as_str()),
        text_param(decision.status.as_str()),
        text_param(decision.doc_path.as_str()),
    ];
    assert(params.deep_view() =~= decision_seed(*decision).params);
    SqlStatement { sql: SEED_DECISION, params }
}

/// The statement that stores an item of the backlog document, unless one has its title.
pub open spec fn backlog_item_seed(item: BacklogImport) -> SqlText {
    SqlText {
        sql: SEED_BACKLOG_ITEM@,
        params: seq![
            SqlData::Text(item.title@),
            text_data(item.discovered_while.deep_view()),
            text_data(item.current_pain.deep_view()),
            text_data(item.suggested_improvement.deep_view()),
            lane_data(item.risk),
            SqlData::Text(item.status@),
        ],
    }
}

/// The statement that stores an item of the backlog document, unless one has its title.
pub fn seed_backlog_item(item: &BacklogImport) -> (r: SqlStatement)
    ensures
        r.deep_view() == backlog_item_seed(*item),
{
    let params = vec![
        text_param(item.title.as_str()),
        optional_text_param(&item.discovered_while),
        optional_text_param(&item.current_pain),
        optional_text_param(&item.suggested_improvement),
        lane_param(&item.risk),
        text_param(item.status.as_str()),
    ];
    assert(params.deep_view() =~= backlog_item_seed(*item).params);
    SqlStatement { sql: SEED_BACKLOG_ITEM, params }
}

/// What was seeded.
pub fn import_brownfield(
    stories: &[StoryImport],
    decisions: &[DecisionImport],
    backlog_items: &[BacklogImport],
) -> (r: BrownfieldImportResult)
    ensures
        r.stories == stories@.len(),
        r.decisions == decisions@.len(),
        r.backlog_items == backlog_items@.len(),
{
    BrownfieldImportResult {
        stories: stories.len(),
        decisions: decisions.len(),
        backlog_items: backlog_items.len(),
    }
}

/// A table by id, after `rows` have been stored in it: of the rows with one id the last one stays.
pub open spec fn with_rows<R>(
    table: Map<Seq<char>, R>,
    rows: Seq<R>,
    id_of: spec_fn(R) -> Seq<char>,
) -> Map<Seq<char>, R>
    decreases rows.len(),
{
    if rows.len() == 0 {
        table
    } else {
        with_rows(table, rows.drop_last(), id_of).insert(id_of(rows.last()), rows.last())
    }
}

/// The seeded columns of the table of stories after `rows` have been stored in it.
pub open spec fn with_stories(table: Map<Seq<char>, StoryRow>, rows: Seq<StoryRow>) -> Map<
    Seq<char>,
    StoryRow,
> {
    with_rows(table, rows, |row: StoryRow| row.id)
}

/// The seeded columns of the table of decisions after `rows` have been stored in it.
pub open spec fn with_decisions(
    table: Map<Seq<char>, DecisionRow>,
    rows: Seq<DecisionRow>,
) -> Map<Seq<char>, DecisionRow> {
    with_rows(table, rows, |row: DecisionRow| row.id)
}

/// Whether an item of the table has this title.
pub open spec fn has_title(table: Seq<BacklogRow>, title: Seq<char>) -> bool {
    exists|i: int| 0 <= i < table.len() && (#[trigger] table[i]).title == title
}

/// The seeded columns of the table of backlog items, in the order of their numbers, after
/// `rows` have been stored in it: of the rows with one title the first one stays.
pub open spec fn with_items(table: Seq<BacklogRow>, rows: Seq<BacklogRow>) -> Seq<BacklogRow>
    decreases rows.len(),
{
    if rows.len() == 0 {
        table
    } else {
        let before = with_items(table, rows.drop_last());
        if has_title(before, rows.last().title) {
            before
        } else {
            before.push(rows.last())
        }
    }
}

/// Whether one of `rows` has this id.
spec fn has_id<R>(rows: Seq<R>, id_of: spec_fn(R) -> Seq<char>, id: Seq<char>) -> bool {
    exists|i: int| 0 <= i < rows.len() && id_of(#[trigger] rows[i]) == id
}

/// What is stored under the id of a row does not depend on the table; all else stays.
proof fn lemma_with_rows<R>(
    a: Map<Seq<char>, R>,
    b: Map<Seq<char>, R>,
    rows: Seq<R>,
    id_of: spec_fn(R) -> Seq<char>,
    id: Seq<char>,
)
    ensures
        if has_id(rows, id_of, id) {
            &&& with_rows(a, rows, id_of).dom().contains(id)
            &&& with_rows(b, rows, id_of).dom().contains(id)
            &&& with_rows(a, rows, id_of)[id] == with_rows(b, rows, id_of)[id]
        } else {
            &&& with_rows(a, rows, id_of).dom().contains(id) == a.dom().contains(id)
            &&& with_rows(a, rows, id_of)[id] == a[id]
        },
    decreases rows.len(),
{
    if rows.len() > 0 {
        let rest = rows.drop_last();
        lemma_with_rows(a, b, rest, id_of, id);
        if has_id(rows, id_of, id) {
            let i = choose|i: int| 0 <= i < rows.len() && id_of(#[trigger] rows[i]) == id;
            if i < rest.len() {
                assert(id_of(rest[i]) == id);
            }
        } else {
            assert(id_of(rows[rows.len() - 1]) != id);
            assert forall|i: int| 0 <= i < rest.len() implies id_of(#[trigger] rest[i]) != id by {
                assert(id_of(rows[i]) != id);
            }
        }
    }
}

/// Storing rows again changes nothing.
proof fn lemma_stored_again<R>(
    table: Map<Seq<char>, R>,
    rows: Seq<R>,
    id_of: spec_fn(R) -> Seq<char>,
)
    ensures
        with_rows(with_rows(table, rows, id_of), rows, id_of) == with_rows(table, rows, id_of),
{
    let once = with_rows(table, rows, id_of);
    let twice = with_rows(once, rows, id_of);
    assert forall|id: Seq<char>| #[trigger] twice.dom().contains(id) == once.dom().contains(id) by {
        lemma_with_rows(once, table, rows, id_of, id);
    }
    assert(twice.dom() =~= once.dom());
    assert forall|id: Seq<char>| #[trigger] once.dom().contains(id) implies twice[id] == once[id] by {
        lemma_with_rows(once, table, rows, id_of, id);
    }
    assert(twice =~= once);
}

/// Every item of the table, and every title of the rows, is there after the rows are stored.
proof fn lemma_with_items(table: Seq<BacklogRow>, rows: Seq<BacklogRow>, title: Seq<char>)
    requires
        has_title(table, title) || exists|i: int|
            0 <= i < rows.len() && (#[trigger] rows[i]).title == title,
    ensures
        has_title(with_items(table, rows), title),
    decreases rows.len(),
{
    if rows.len() > 0 {
        let rest = rows.drop_last();
        let before = with_items(table, rest);
        let after = with_items(table, rows);
        if has_title(table, title) || exists|i: int|
            0 <= i < rest.len() && (#[trigger] rest[i]).title == title {
            lemma_with_items(table, rest, title);
            let k = choose|k: int| 0 <= k < before.len() && (#[trigger] before[k]).title == title;
            assert(after[k].title == title);
        } else {
            let i = choose|i: int| 0 <= i < rows.len() && (#[trigger] rows[i]).title == title;
            if i < rest.len() {
                assert(rest[i].title == title);
            }
            assert(rows.last().title == title);
            if !has_title(before, title) {
                assert(after[before.len() as int].title == title);
            }
        }
    }
}

/// Rows whose titles are all in the table change nothing.
proof fn lemma_known_items(table: Seq<BacklogRow>, rows: Seq<BacklogRow>)
    requires
        forall|i: int| 0 <= i < rows.len() ==> has_title(table, (#[trigger] rows[i]).title),
    ensures
        with_items(table, rows) == table,
    decreases rows.len(),
{
    if rows.len() > 0 {
        let rest = rows.drop_last();
        assert forall|i: int| 0 <= i < rest.len() implies has_title(
            table,
            (#[trigger] rest[i]).title,
        ) by {
            assert(rest[i] == rows[i]);
        }
        lemma_known_items(table, rest);
        assert(rows[rows.len() - 1] == rows.last());
    }
}

/// Seeding the stories again changes nothing.
pub proof fn law_seeding_stories_again_changes_nothing(
    table: Map<Seq<char>, StoryRow>,
    rows: Seq<StoryRow>,
)
    ensures
        with_stories(with_stories(table, rows), rows) == with_stories(table, rows),
{
    lemma_stored_again(table, rows, |row: StoryRow| row.id);
}

/// Seeding the decisions again changes nothing.
pub proof fn law_seeding_decisions_again_changes_nothing(
    table: Map<Seq<char>, DecisionRow>,
    rows: Seq<DecisionRow>,
)
    ensures
        with_decisions(with_decisions(table, rows), rows) == with_decisions(table, rows),
{
    lemma_stored_again(table, rows, |row: DecisionRow| row.id);
}

/// Seeding the backlog again changes nothing.
pub proof fn law_seeding_backlog_again_changes_nothing(
    table: Seq<BacklogRow>,
    rows: Seq<BacklogRow>,
)
    ensures
        with_items(with_items(table, rows), rows) == with_items(table, rows),
{
    let once = with_items(table, rows);
    assert forall|i: int| 0 <= i < rows.len() implies has_title(once, (#[trigger] rows[i]).title) by {
        lemma_with_items(table, rows, rows[i].title);
    }
    lemma_known_items(once, rows);
}

/// Seeding the backlog keeps the items that are there, in their places.
pub proof fn law_seeding_keeps_the_backlog(table: Seq<BacklogRow>, rows: Seq<BacklogRow>)
    ensures
        table.len() <= with_items(table, rows).len(),
        with_items(table, rows).take(table.len() as int) == table,
    decreases rows.len(),
{
    if rows.len() > 0 {
        law_seeding_keeps_the_backlog(table, rows.drop_last());
        let before = with_items(table, rows.drop_last());
        assert(before.push(rows.last()).take(table.len() as int) =~= before.take(
            table.len() as int,
        ));
    } else {
        assert(table.take(table.len() as int) =~= table);
    }
}

} // verus!
