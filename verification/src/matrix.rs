//! The story matrix: a Markdown table with one story to a row.
use vstd::prelude::*;
use vstd::slice::slice_subrange;

use crate::text::{
    chars_of, contains, contains_text, join, join_texts, lines, lines_of, same_text, split,
    split_text, starts_with, starts_with_text, text_between, trim, trim_start, trim_start_text,
    trim_text,
};
use crate::token::{normalize_token, token};

verus! {

/// A text, where it is not empty.
pub open spec fn non_empty(s: Seq<char>) -> Option<Seq<char>> {
    if s.len() == 0 {
        None
    } else {
        Some(s)
    }
}

/// `s` without the bar that it starts with, if it does.
pub open spec fn without_first_bar(s: Seq<char>) -> Seq<char> {
    if s.len() > 0 && s[0] == '|' {
        s.skip(1)
    } else {
        s
    }
}

/// `s` without the bar that it ends with, if it does.
pub open spec fn without_last_bar(s: Seq<char>) -> Seq<char> {
    if s.len() > 0 && s.last() == '|' {
        s.drop_last()
    } else {
        s
    }
}

/// The cells of a table row: what stands between its bars, trimmed. A bar at either end of
/// the line is no separator.
pub open spec fn table_fields(line: Seq<char>) -> Seq<Seq<char>> {
    split(without_last_bar(without_first_bar(trim(line))), "|"@).map_values(
        |field: Seq<char>| trim(field),
    )
}

/// The last column whose heading has the token `name`.
pub open spec fn column(fields: Seq<Seq<char>>, name: Seq<char>) -> Option<int>
    decreases fields.len(),
{
    if fields.len() == 0 {
        None
    } else if token(fields.last()) == name {
        Some(fields.len() - 1)
    } else {
        column(fields.drop_last(), name)
    }
}

/// The trimmed cell at `index`, where there is one and it is not empty.
pub open spec fn cell(fields: Seq<Seq<char>>, index: Option<int>) -> Option<Seq<char>> {
    match index {
        Some(i) => if 0 <= i < fields.len() {
            non_empty(trim(fields[i]))
        } else {
            None
        },
        None => None,
    }
}

/// The cells from `start` on, written with bars between them: a bar within the evidence has
/// split it into several cells.
pub open spec fn evidence(fields: Seq<Seq<char>>, start: int) -> Option<Seq<char>> {
    if 0 <= start <= fields.len() {
        non_empty(trim(join(fields.skip(start), " | "@)))
    } else {
        None
    }
}

/// Whether a cell with the token `t` says that there is no proof.
pub open spec fn denies_proof(t: Seq<char>) -> bool {
    ||| t == ""@ || t == "no"@ || t == "none"@ || t == "n_a"@ || t == "na"@ || t == "planned"@
    ||| starts_with(t, "no_"@)
    ||| contains(t, "pending"@)
    ||| contains(t, "blocked"@)
    ||| contains(t, "not_attempted"@)
    ||| contains(t, "not_operator_reviewed"@)
}

/// The proof flag of a cell: one, unless the cell says that there is no proof.
pub open spec fn proof_flag(cell: Seq<char>) -> int {
    if denies_proof(token(cell)) {
        0
    } else {
        1
    }
}

pub open spec fn is_story_status(t: Seq<char>) -> bool {
    t == "planned"@ || t == "in_progress"@ || t == "implemented"@ || t == "changed"@ || t
        == "retired"@
}

/// The story status that `value` names; a story is planned unless it says otherwise.
pub open spec fn story_status(value: Seq<char>) -> Seq<char> {
    if is_story_status(token(value)) {
        token(value)
    } else {
        "planned"@
    }
}

/// A text, where it is not empty.
pub fn empty_to_none(value: String) -> (r: Option<String>)
    ensures
        r.deep_view() == non_empty(value@),
{
    if value.as_str().is_empty() {
        None
    } else {
        Some(value)
    }
}

/// The cells of the table row `line`.
pub fn markdown_table_fields(line: &str) -> (r: Vec<String>)
    ensures
        r.deep_view() == table_fields(line@),
{
    let trimmed = trim_text(line);
    let chars = chars_of(trimmed.as_str());
    let from: usize = if chars.len() > 0 && chars[0] == '|' {
        1
    } else {
        0
    };
    let to: usize = if from < chars.len() && chars[chars.len() - 1] == '|' {
        chars.len() - 1
    } else {
        chars.len()
    };
    let inner = text_between(&chars, from, to);
    assert(inner@ =~= without_last_bar(without_first_bar(trim(line@))));
    proof {
        reveal_strlit("|");
    }
    let pieces = split_text(inner.as_str(), "|");
    let mut r: Vec<String> = Vec::new();
    let mut i: usize = 0;
    let ghost want = table_fields(line@);
    while i < pieces.len()
        invariant
            i <= pieces.len(),
            want == pieces.deep_view().map_values(|field: Seq<char>| trim(field)),
            r.deep_view() == want.take(i as int),
        decreases pieces.len() - i,
    {
        let ghost before = r.deep_view();
        r.push(trim_text(pieces[i].as_str()));
        assert(r.deep_view() =~= before.push(trim(pieces[i as int]@)));
        assert(pieces.deep_view()[i as int] == pieces[i as int]@);
        assert(want.take(i + 1) =~= want.take(i as int).push(want[i as int]));
        i = i + 1;
    }
    assert(want.take(i as int) =~= want);
    r
}

/// Where each column of a story table stands.
#[derive(Debug)]
pub struct MatrixColumns {
    pub story: Option<usize>,
    pub contract: Option<usize>,
    pub unit: Option<usize>,
    pub integration: Option<usize>,
    pub e2e: Option<usize>,
    pub platform: Option<usize>,
    pub status: Option<usize>,
    pub evidence: Option<usize>,
}

/// An index as a mathematical integer.
pub open spec fn at(index: Option<usize>) -> Option<int> {
    match index {
        Some(i) => Some(i as int),
        None => None,
    }
}

impl MatrixColumns {
    /// Whether these are the columns of the table headed by `header`.
    pub open spec fn heads(self, header: Seq<Seq<char>>) -> bool {
        &&& at(self.story) == column(header, "story"@)
        &&& at(self.contract) == column(header, "contract"@)
        &&& at(self.unit) == column(header, "unit"@)
        &&& at(self.integration) == column(header, "integration"@)
        &&& at(self.e2e) == column(header, "e2e"@)
        &&& at(self.platform) == column(header, "platform"@)
        &&& at(self.status) == column(header, "status"@)
        &&& at(self.evidence) == column(header, "evidence"@)
    }

    /// The columns of the table headed by `fields`. Of two columns with one heading the
    /// last one counts.
    pub fn from_header(fields: &[String]) -> (columns: Self)
        ensures
            columns.heads(fields.deep_view()),
    {
        let mut columns = MatrixColumns {
            story: None,
            contract: None,
            unit: None,
            integration: None,
            e2e: None,
            platform: None,
            status: None,
            evidence: None,
        };
        let ghost all = fields.deep_view();
        let mut i: usize = 0;
        while i < fields.len()
            invariant
                i <= fields.len(),
                all == fields.deep_view(),
                columns.heads(all.take(i as int)),
            decreases fields.len() - i,
        {
            let t = normalize_token(fields[i].as_str());
            assert(all.take(i + 1).drop_last() =~= all.take(i as int));
            assert(all.take(i + 1).last() == fields[i as int]@);
            if same_text(t.as_str(), "story") {
                columns.story = Some(i);
            }
            if same_text(t.as_str(), "contract") {
                columns.contract = Some(i);
            }
            if same_text(t.as_str(), "unit") {
                columns.unit = Some(i);
            }
            if same_text(t.as_str(), "integration") {
                columns.integration = Some(i);
            }
            if same_text(t.as_str(), "e2e") {
                columns.e2e = Some(i);
            }
            if same_text(t.as_str(), "platform") {
                columns.platform = Some(i);
            }
            if same_text(t.as_str(), "status") {
                columns.status = Some(i);
            }
            if same_text(t.as_str(), "evidence") {
                columns.evidence = Some(i);
            }
            i = i + 1;
        }
        assert(all.take(i as int) =~= all);
        columns
    }
}

/// The trimmed cell at `index`, where there is one and it is not empty.
pub fn field_at(fields: &[String], index: Option<usize>) -> (r: Option<String>)
    ensures
        r.deep_view() == cell(fields.deep_view(), at(index)),
{
    match index {
        Some(i) => if i < fields.len() {
            empty_to_none(trim_text(fields[i].as_str()))
        } else {
            None
        },
        None => None,
    }
}

/// The evidence that the cells from `start_index` on hold.
pub fn evidence_from_fields(fields: &[String], start_index: usize) -> (r: Option<String>)
    ensures
        r.deep_view() == evidence(fields.deep_view(), start_index as int),
{
    if start_index <= fields.len() {
        let rest = slice_subrange(fields, start_index, fields.len());
        assert(rest.deep_view() =~= fields.deep_view().skip(start_index as int));
        empty_to_none(trim_text(join_texts(rest, " | ").as_str()))
    } else {
        None
    }
}

/// The proof flag of a cell.
pub fn proof_from_cell(value: &str) -> (r: i64)
    ensures
        r == proof_flag(value@),
{
    let token = normalize_token(value);
    let t = token.as_str();
    if same_text(t, "") || same_text(t, "no") || same_text(t, "none") || same_text(t, "n_a")
        || same_text(t, "na") || same_text(t, "planned") || starts_with_text(t, "no_")
        || contains_text(t, "pending") || contains_text(t, "blocked") || contains_text(
        t,
        "not_attempted",
    ) || contains_text(t, "not_operator_reviewed") {
        0
    } else {
        1
    }
}

/// The story status that `value` names.
pub fn normalize_story_status(value: &str) -> (r: String)
    ensures
        r@ == story_status(value@),
{
    let token = normalize_token(value);
    let t = token.as_str();
    if same_text(t, "planned") || same_text(t, "in_progress") || same_text(t, "implemented")
        || same_text(t, "changed") || same_text(t, "retired") {
        token
    } else {
        "planned".to_owned()
    }
}

/// A story as its row in the matrix gives it.
#[derive(Debug)]
pub struct StoryImport {
    pub id: String,
    pub title: String,
    pub contract_doc: Option<String>,
    pub status: String,
    pub unit: i64,
    pub integration: i64,
    pub e2e: i64,
    pub platform: i64,
    pub evidence: Option<String>,
}

/// The contents of a `StoryImport`.
pub struct StoryRow {
    pub id: Seq<char>,
    pub title: Seq<char>,
    pub contract_doc: Option<Seq<char>>,
    pub status: Seq<char>,
    pub unit: int,
    pub integration: int,
    pub e2e: int,
    pub platform: int,
    pub evidence: Option<Seq<char>>,
}

impl DeepView for StoryImport {
    type V = StoryRow;

    open spec fn deep_view(&self) -> StoryRow {
        StoryRow {
            id: self.id@,
            title: self.title@,
            contract_doc: self.contract_doc.deep_view(),
            status: self.status@,
            unit: self.unit as int,
            integration: self.integration as int,
            e2e: self.e2e as int,
            platform: self.platform as int,
            evidence: self.evidence.deep_view(),
        }
    }
}

/// A text that may be missing, a missing one being empty.
pub open spec fn or_empty(s: Option<Seq<char>>) -> Seq<char> {
    match s {
        Some(text) => text,
        None => Seq::empty(),
    }
}

/// Whether `id` only holds the place of a story: it is empty, a run of hyphens, or a word
/// that stands for a story to come.
pub open spec fn is_placeholder(id: Seq<char>) -> bool {
    let t = token(id);
    ||| t == ""@ || t == "story"@ || t == "tbd"@ || t == "todo"@ || t == "example"@ || t
        == "examples"@
    ||| forall|i: int| 0 <= i < id.len() ==> id[i] == '-'
}

/// The story in the row `fields` of a table headed by `header`, if the row holds one. A
/// story without a contract document has its id for a title.
pub open spec fn story_row(header: Seq<Seq<char>>, fields: Seq<Seq<char>>) -> Option<StoryRow> {
    let id = or_empty(cell(fields, column(header, "story"@)));
    let contract_doc = cell(fields, column(header, "contract"@));
    if is_placeholder(id) {
        None
    } else {
        Some(
            StoryRow {
                id,
                title: match contract_doc {
                    Some(text) => text,
                    None => id,
                },
                contract_doc,
                status: story_status(or_empty(cell(fields, column(header, "status"@)))),
                unit: proof_flag(or_empty(cell(fields, column(header, "unit"@)))),
                integration: proof_flag(or_empty(cell(fields, column(header, "integration"@)))),
                e2e: proof_flag(or_empty(cell(fields, column(header, "e2e"@)))),
                platform: proof_flag(or_empty(cell(fields, column(header, "platform"@)))),
                evidence: match column(header, "evidence"@) {
                    Some(i) => evidence(fields, i),
                    None => None,
                },
            },
        )
    }
}

/// Whether `line` is a row of a table.
pub open spec fn is_table_line(line: Seq<char>) -> bool {
    starts_with(trim_start(line), "|"@) && table_fields(line).len() >= 2
}

/// The table rows of a document, each as its cells. A row with a single cell is none.
pub open spec fn table_rows(content: Seq<char>) -> Seq<Seq<Seq<char>>> {
    lines(content).filter(|line: Seq<char>| is_table_line(line)).map_values(
        |line: Seq<char>| table_fields(line),
    )
}

/// Whether `fields` head a story table.
pub open spec fn is_header(fields: Seq<Seq<char>>) -> bool {
    column(fields, "story"@) is Some && column(fields, "status"@) is Some
}

/// The index of the first row that heads a story table; the number of rows if none does.
pub open spec fn header_index(rows: Seq<Seq<Seq<char>>>) -> int
    decreases rows.len(),
{
    if rows.len() == 0 || is_header(rows[0]) {
        0
    } else {
        1 + header_index(rows.skip(1))
    }
}

/// The stories of the matrix `content`: those in the rows below the first story table's
/// heading.
pub open spec fn matrix_stories(content: Seq<char>) -> Seq<StoryRow> {
    let rows = table_rows(content);
    let head = header_index(rows);
    if head < rows.len() {
        rows.skip(head + 1).filter_map(|fields: Seq<Seq<char>>| story_row(rows[head], fields))
    } else {
        Seq::empty()
    }
}

fn all_hyphens(id: &str) -> (r: bool)
    ensures
        r == (forall|i: int| 0 <= i < id@.len() ==> id@[i] == '-'),
{
    let chars = chars_of(id);
    let mut i: usize = 0;
    while i < chars.len()
        invariant
            i <= chars.len(),
            chars@ == id@,
            forall|j: int| 0 <= j < i ==> chars@[j] == '-',
        decreases chars.len() - i,
    {
        if chars[i] != '-' {
            return false;
        }
        i = i + 1;
    }
    true
}

/// Whether `id` only holds the place of a story.
fn placeholder(id: &str) -> (r: bool)
    ensures
        r == is_placeholder(id@),
{
    let token = normalize_token(id);
    let t = token.as_str();
    same_text(t, "") || same_text(t, "story") || same_text(t, "tbd") || same_text(t, "todo")
        || same_text(t, "example") || same_text(t, "examples") || all_hyphens(id)
}

fn text_or_empty(s: Option<String>) -> (r: String)
    ensures
        r@ == or_empty(s.deep_view()),
{
    match s {
        Some(text) => text,
        None => String::new(),
    }
}

/// The story in the row `fields` of the table with the columns `columns`.
pub fn story_from_fields(columns: &MatrixColumns, fields: &[String]) -> (r: Option<StoryImport>)
    ensures
        forall|header: Seq<Seq<char>>| #[trigger]
            columns.heads(header) ==> r.deep_view() == story_row(header, fields.deep_view()),
{
    let id = text_or_empty(field_at(fields, columns.story));
    if placeholder(id.as_str()) {
        return None;
    }
    let contract_doc = field_at(fields, columns.contract);
    let title = match &contract_doc {
        Some(text) => text.clone(),
        None => id.clone(),
    };
    let status = text_or_empty(field_at(fields, columns.status));
    let unit = text_or_empty(field_at(fields, columns.unit));
    let integration = text_or_empty(field_at(fields, columns.integration));
    let e2e = text_or_empty(field_at(fields, columns.e2e));
    let platform = text_or_empty(field_at(fields, columns.platform));
    let evidence = match columns.evidence {
        Some(start) => evidence_from_fields(fields, start),
        None => None,
    };
    Some(
        StoryImport {
            id,
            title,
            contract_doc,
            status: normalize_story_status(status.as_str()),
            unit: proof_from_cell(unit.as_str()),
            integration: proof_from_cell(integration.as_str()),
            e2e: proof_from_cell(e2e.as_str()),
            platform: proof_from_cell(platform.as_str()),
            evidence,
        },
    )
}

/// The table rows of a document.
fn collect_table_rows(content: &str) -> (r: Vec<Vec<String>>)
    ensures
        r.deep_view() == table_rows(content@),
{
    let all = lines_of(content);
    let ghost texts = lines(content@);
    let ghost keep = |line: Seq<char>| is_table_line(line);
    let ghost cells = |line: Seq<char>| table_fields(line);
    let mut r: Vec<Vec<String>> = Vec::new();
    let mut i: usize = 0;
    assert(r.deep_view() =~= texts.take(0).filter(keep).map_values(cells)) by {
        assert(texts.take(0) =~= Seq::empty());
        reveal(Seq::filter);
    }
    while i < all.len()
        invariant
            i <= all.len(),
            texts == all.deep_view(),
            keep == (|line: Seq<char>| is_table_line(line)),
            cells == (|line: Seq<char>| table_fields(line)),
            r.deep_view() == texts.take(i as int).filter(keep).map_values(cells),
        decreases all.len() - i,
    {
        let line = all[i].as_str();
        let ghost before = r.deep_view();
        proof {
            assert(texts.take(i + 1) =~= texts.take(i as int).push(line@));
            texts.take(i as int).lemma_filter_push(line@, keep);
        }
        if starts_with_text(trim_start_text(line).as_str(), "|") {
            let fields = markdown_table_fields(line);
            assert(fields.deep_view().len() == fields.len());
            if fields.len() >= 2 {
                r.push(fields);
                assert(r.deep_view() =~= before.push(table_fields(line@)));
                assert(texts.take(i + 1).filter(keep).map_values(cells) =~= r.deep_view());
            }
        }
        i = i + 1;
    }
    assert(texts.take(i as int) =~= texts);
    r
}

/// The index of the first row that heads a story table, with the columns of that table.
fn find_header(rows: &Vec<Vec<String>>) -> (r: Option<(usize, MatrixColumns)>)
    ensures
        match r {
            Some((i, columns)) => {
                &&& i < rows.len()
                &&& header_index(rows.deep_view()) == i
                &&& columns.heads(rows.deep_view()[i as int])
            },
            None => header_index(rows.deep_view()) == rows.len(),
        },
{
    let ghost all = rows.deep_view();
    let mut i: usize = 0;
    assert(all.skip(0) =~= all);
    while i < rows.len()
        invariant
            i <= rows.len(),
            all == rows.deep_view(),
            header_index(all) == i + header_index(all.skip(i as int)),
        decreases rows.len() - i,
    {
        let columns = MatrixColumns::from_header(rows[i].as_slice());
        assert(all.skip(i as int)[0] == rows[i as int].deep_view());
        if columns.story.is_some() && columns.status.is_some() {
            return Some((i, columns));
        }
        assert(all.skip(i as int).skip(1) =~= all.skip(i + 1));
        i = i + 1;
    }
    None
}

/// The stories of the matrix `content`.
pub fn import_matrix(content: &str) -> (r: Vec<StoryImport>)
    ensures
        r.deep_view() == matrix_stories(content@),
{
    let rows = collect_table_rows(content);
    let mut r: Vec<StoryImport> = Vec::new();
    match find_header(&rows) {
        Some((head, columns)) => {
            let ghost header = rows.deep_view()[head as int];
            let ghost below = rows.deep_view().skip(head + 1);
            let ghost story = |fields: Seq<Seq<char>>| story_row(header, fields);
            let mut i: usize = head + 1;
            assert(below.take(0).filter_map(story) =~= Seq::empty());
            while i < rows.len()
                invariant
                    head < i <= rows.len(),
                    below == rows.deep_view().skip(head + 1),
                    story == (|fields: Seq<Seq<char>>| story_row(header, fields)),
                    columns.heads(header),
                    r.deep_view() == below.take(i - head - 1).filter_map(story),
                decreases rows.len() - i,
            {
                let ghost before = r.deep_view();
                let ghost fields = below[i - head - 1];
                assert(fields == rows[i as int].deep_view());
                assert(below.take(i - head).drop_last() =~= below.take(i - head - 1));
                assert(below.take(i - head).last() == fields);
                if let Some(found) = story_from_fields(&columns, rows[i].as_slice()) {
                    r.push(found);
                    assert(r.deep_view() =~= before.push(found.deep_view()));
                }
                i = i + 1;
            }
            assert(below.take(i - head - 1) =~= below);
        },
        None => {
            assert(r.deep_view() =~= Seq::empty());
        },
    }
    r
}

} // verus!
