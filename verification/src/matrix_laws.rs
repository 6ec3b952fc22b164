//! Which cell of the matrix each part of a story comes from.
use vstd::prelude::*;

use crate::matrix::{
    cell, column, evidence, header_index, is_header, is_table_line, matrix_stories, proof_flag,
    story_row, story_status, table_fields, table_rows, MatrixColumns, StoryImport, StoryRow,
};
use crate::text::{contains, join, lines, occurs_at, split, starts_with, trim, trim_start};
use crate::token::token;
use crate::tool_args_laws::{ends_at_separator, lemma_split_join};

verus! {

/// Whether the column at `i` is the last one below a heading whose token is `name`.
pub open spec fn stands_below(header: Seq<Seq<char>>, name: Seq<char>, i: int) -> bool {
    &&& 0 <= i < header.len()
    &&& token(header[i]) == name
    &&& forall|j: int| i < j < header.len() ==> token(#[trigger] header[j]) != name
}

/// Whether no column stands below a heading whose token is `name`.
pub open spec fn lacks_heading(header: Seq<Seq<char>>, name: Seq<char>) -> bool {
    forall|j: int| 0 <= j < header.len() ==> token(#[trigger] header[j]) != name
}

/// What is written in the cell at `i`; a row that ends before it has nothing there.
pub open spec fn written(fields: Seq<Seq<char>>, i: int) -> Seq<char> {
    if i < fields.len() {
        trim(fields[i])
    } else {
        Seq::empty()
    }
}

/// Whether `text` says that something was not proved.
pub open spec fn says_unproved(text: Seq<char>) -> bool {
    ||| token(text).len() == 0
    ||| token(text) == "no"@
    ||| token(text) == "none"@
    ||| token(text) == "n_a"@
    ||| token(text) == "na"@
    ||| token(text) == "planned"@
    ||| exists|rest: Seq<char>| token(text) == "no_"@ + rest
    ||| contains(token(text), "pending"@)
    ||| contains(token(text), "blocked"@)
    ||| contains(token(text), "not_attempted"@)
    ||| contains(token(text), "not_operator_reviewed"@)
}

/// A text is no proof exactly where it says so: it is empty, is "no", "none", "n/a", "na" or
/// "planned", starts with "no ", or speaks of something pending, blocked, not attempted or not
/// reviewed by an operator.
pub proof fn law_proof_is_denied_in_words(text: Seq<char>)
    ensures
        says_unproved(text) ==> proof_flag(text) == 0,
        !says_unproved(text) ==> proof_flag(text) == 1,
{
    reveal_strlit("");
    reveal_strlit("no_");
    let t = token(text);
    assert(""@ =~= Seq::empty());
    if t.len() == 0 {
        assert(t =~= ""@);
    }
    if starts_with(t, "no_"@) {
        assert(t =~= t.subrange(0, 3) + t.skip(3));
        assert(t == "no_"@ + t.skip(3));
    }
    if exists|rest: Seq<char>| t == "no_"@ + rest {
        let rest = choose|rest: Seq<char>| t == "no_"@ + rest;
        assert(t.subrange(0, 3) =~= "no_"@);
    }
}

proof fn lemma_column(header: Seq<Seq<char>>, name: Seq<char>)
    ensures
        match column(header, name) {
            Some(i) => stands_below(header, name, i),
            None => lacks_heading(header, name),
        },
    decreases header.len(),
{
    if header.len() > 0 && token(header.last()) != name {
        let rest = header.drop_last();
        lemma_column(rest, name);
        match column(rest, name) {
            Some(i) => {
                assert forall|j: int| i < j < header.len() implies token(#[trigger] header[j])
                    != name by {
                    if j < rest.len() {
                        assert(rest[j] == header[j]);
                    }
                }
            },
            None => {
                assert forall|j: int| 0 <= j < header.len() implies token(#[trigger] header[j])
                    != name by {
                    if j < rest.len() {
                        assert(rest[j] == header[j]);
                    }
                }
            },
        }
    }
}

/// A heading counts by its last column.
pub proof fn law_last_heading_counts(header: Seq<Seq<char>>, name: Seq<char>, i: int)
    ensures
        stands_below(header, name, i) <==> column(header, name) == Some(i),
        lacks_heading(header, name) <==> column(header, name) is None,
{
    lemma_column(header, name);
    if stands_below(header, name, i) {
        assert(token(header[i]) == name);
        let j = column(header, name)->0;
        assert(token(header[j]) == name);
    }
    if column(header, name) is Some {
        assert(token(header[column(header, name)->0]) == name);
    }
}

/// The columns of a table are found by the headings of their own names.
pub proof fn law_columns_are_found_by_their_headings(
    columns: MatrixColumns,
    header: Seq<Seq<char>>,
    i: usize,
)
    requires
        columns.heads(header),
    ensures
        columns.story == Some(i) <==> stands_below(header, "story"@, i as int),
        columns.contract == Some(i) <==> stands_below(header, "contract"@, i as int),
        columns.unit == Some(i) <==> stands_below(header, "unit"@, i as int),
        columns.integration == Some(i) <==> stands_below(header, "integration"@, i as int),
        columns.e2e == Some(i) <==> stands_below(header, "e2e"@, i as int),
        columns.platform == Some(i) <==> stands_below(header, "platform"@, i as int),
        columns.status == Some(i) <==> stands_below(header, "status"@, i as int),
        columns.evidence == Some(i) <==> stands_below(header, "evidence"@, i as int),
{
    law_last_heading_counts(header, "story"@, i as int);
    law_last_heading_counts(header, "contract"@, i as int);
    law_last_heading_counts(header, "unit"@, i as int);
    law_last_heading_counts(header, "integration"@, i as int);
    law_last_heading_counts(header, "e2e"@, i as int);
    law_last_heading_counts(header, "platform"@, i as int);
    law_last_heading_counts(header, "status"@, i as int);
    law_last_heading_counts(header, "evidence"@, i as int);
}

/// Whether a proof flag is that of what is written below its heading, alone.
pub open spec fn flag_is_of(
    flag: int,
    header: Seq<Seq<char>>,
    fields: Seq<Seq<char>>,
    name: Seq<char>,
) -> bool {
    &&& forall|i: int| #[trigger]
        stands_below(header, name, i) ==> {
            &&& says_unproved(written(fields, i)) ==> flag == 0
            &&& !says_unproved(written(fields, i)) ==> flag == 1
        }
    &&& lacks_heading(header, name) ==> flag == 0
}

proof fn lemma_flag(header: Seq<Seq<char>>, fields: Seq<Seq<char>>, name: Seq<char>)
    ensures
        flag_is_of(
            proof_flag(crate::matrix::or_empty(cell(fields, column(header, name)))),
            header,
            fields,
            name,
        ),
{
    lemma_written(header, fields, name);
    let text = crate::matrix::or_empty(cell(fields, column(header, name)));
    law_proof_is_denied_in_words(text);
    if lacks_heading(header, name) {
        lemma_empty_token();
    }
}

proof fn lemma_empty_token()
    ensures
        token(Seq::<char>::empty()).len() == 0,
{
}

proof fn lemma_written(header: Seq<Seq<char>>, fields: Seq<Seq<char>>, name: Seq<char>)
    ensures
        forall|i: int| #[trigger]
            stands_below(header, name, i) ==> crate::matrix::or_empty(
                cell(fields, column(header, name)),
            ) == written(fields, i),
        lacks_heading(header, name) ==> crate::matrix::or_empty(cell(fields, column(header, name)))
            == Seq::<char>::empty(),
{
    assert forall|i: int| #[trigger] stands_below(header, name, i) implies crate::matrix::or_empty(
        cell(fields, column(header, name)),
    ) == written(fields, i) by {
        law_last_heading_counts(header, name, i);
        if i < fields.len() && trim(fields[i]).len() == 0 {
            assert(trim(fields[i]) =~= Seq::empty());
        }
    }
    if lacks_heading(header, name) {
        law_last_heading_counts(header, name, 0);
    }
}

/// Each proof of a story is that of the cell below the heading of its own name: unit below Unit,
/// integration below Integration, e2e below E2E, and platform below Platform.
pub proof fn law_proofs_come_from_their_own_cells(
    header: Seq<Seq<char>>,
    fields: Seq<Seq<char>>,
    row: StoryRow,
)
    requires
        story_row(header, fields) == Some(row),
    ensures
        flag_is_of(row.unit, header, fields, "unit"@),
        flag_is_of(row.integration, header, fields, "integration"@),
        flag_is_of(row.e2e, header, fields, "e2e"@),
        flag_is_of(row.platform, header, fields, "platform"@),
{
    lemma_flag(header, fields, "unit"@);
    lemma_flag(header, fields, "integration"@);
    lemma_flag(header, fields, "e2e"@);
    lemma_flag(header, fields, "platform"@);
}

/// Two rows of a table that agree below a heading agree in the proof of that name, whatever else
/// they hold.
pub proof fn law_proofs_depend_on_their_own_cells(
    header: Seq<Seq<char>>,
    a: Seq<Seq<char>>,
    b: Seq<Seq<char>>,
    i: int,
)
    requires
        story_row(header, a) is Some,
        story_row(header, b) is Some,
        written(a, i) == written(b, i),
    ensures
        stands_below(header, "unit"@, i) ==> story_row(header, a)->0.unit == story_row(
            header,
            b,
        )->0.unit,
        stands_below(header, "integration"@, i) ==> story_row(header, a)->0.integration
            == story_row(header, b)->0.integration,
        stands_below(header, "e2e"@, i) ==> story_row(header, a)->0.e2e == story_row(
            header,
            b,
        )->0.e2e,
        stands_below(header, "platform"@, i) ==> story_row(header, a)->0.platform == story_row(
            header,
            b,
        )->0.platform,
{
    law_proofs_come_from_their_own_cells(header, a, story_row(header, a)->0);
    law_proofs_come_from_their_own_cells(header, b, story_row(header, b)->0);
}

/// Whether `id` is the id of no story: blank, hyphens alone, or a word for one to come.
pub open spec fn names_no_story(id: Seq<char>) -> bool {
    ||| token(id).len() == 0
    ||| token(id) == "story"@
    ||| token(id) == "tbd"@
    ||| token(id) == "todo"@
    ||| token(id) == "example"@
    ||| token(id) == "examples"@
    ||| forall|i: int| 0 <= i < id.len() ==> id[i] == '-'
}

/// A row is a story unless what is below the Story heading names none, and that is its id.
pub proof fn law_story_is_named_by_its_cell(
    header: Seq<Seq<char>>,
    fields: Seq<Seq<char>>,
    i: int,
)
    requires
        stands_below(header, "story"@, i),
    ensures
        names_no_story(written(fields, i)) <==> story_row(header, fields) is None,
        story_row(header, fields) is Some ==> story_row(header, fields)->0.id == written(fields, i),
{
    lemma_written(header, fields, "story"@);
    reveal_strlit("");
    if token(written(fields, i)).len() == 0 {
        assert(token(written(fields, i)) =~= ""@);
    }
}

/// The contract document of a story is what is below the Contract heading, where something is.
/// Then it is the title too, and else the id is.
pub proof fn law_contract_is_the_title(
    header: Seq<Seq<char>>,
    fields: Seq<Seq<char>>,
    row: StoryRow,
    i: int,
)
    requires
        story_row(header, fields) == Some(row),
    ensures
        stands_below(header, "contract"@, i) && written(fields, i).len() > 0 ==> {
            &&& row.contract_doc == Some(written(fields, i))
            &&& row.title == written(fields, i)
        },
        (stands_below(header, "contract"@, i) && written(fields, i).len() == 0) || lacks_heading(
            header,
            "contract"@,
        ) ==> {
            &&& row.contract_doc is None
            &&& row.title == row.id
        },
{
    law_last_heading_counts(header, "contract"@, i);
}

/// The status of a story is the one whose name is below the Status heading, and "planned" where no
/// such name is.
pub proof fn law_status_comes_from_its_cell(
    header: Seq<Seq<char>>,
    fields: Seq<Seq<char>>,
    row: StoryRow,
    i: int,
)
    requires
        story_row(header, fields) == Some(row),
        stands_below(header, "status"@, i),
    ensures
        ({
            let t = token(written(fields, i));
            &&& t == "in_progress"@ ==> row.status == "in_progress"@
            &&& t == "implemented"@ ==> row.status == "implemented"@
            &&& t == "changed"@ ==> row.status == "changed"@
            &&& t == "retired"@ ==> row.status == "retired"@
            &&& t != "in_progress"@ && t != "implemented"@ && t != "changed"@ && t != "retired"@
                ==> row.status == "planned"@
        }),
{
    lemma_written(header, fields, "status"@);
    law_story_status_is_read_by_name(written(fields, i));
}

/// A story status is read as the one that it names, and anything else as "planned".
pub proof fn law_story_status_is_read_by_name(value: Seq<char>)
    ensures
        token(value) == "planned"@ ==> story_status(value) == "planned"@,
        token(value) == "in_progress"@ ==> story_status(value) == "in_progress"@,
        token(value) == "implemented"@ ==> story_status(value) == "implemented"@,
        token(value) == "changed"@ ==> story_status(value) == "changed"@,
        token(value) == "retired"@ ==> story_status(value) == "retired"@,
        token(value) != "in_progress"@ && token(value) != "implemented"@ && token(value)
            != "changed"@ && token(value) != "retired"@ ==> story_status(value) == "planned"@,
{
}

/// The evidence of a story is what is below the Evidence heading and behind it, with bars between
/// the cells, where anything is.
pub proof fn law_evidence_runs_to_the_end(
    header: Seq<Seq<char>>,
    fields: Seq<Seq<char>>,
    row: StoryRow,
    i: int,
)
    requires
        story_row(header, fields) == Some(row),
    ensures
        stands_below(header, "evidence"@, i) && i < fields.len() ==> {
            let text = trim(join(fields.skip(i), seq![' ', '|', ' ']));
            &&& text.len() > 0 ==> row.evidence == Some(text)
            &&& text.len() == 0 ==> row.evidence is None
        },
        stands_below(header, "evidence"@, i) && i >= fields.len() ==> row.evidence is None,
        lacks_heading(header, "evidence"@) ==> row.evidence is None,
{
    law_last_heading_counts(header, "evidence"@, i);
    reveal_strlit(" | ");
    assert(" | "@ =~= seq![' ', '|', ' ']);
    if i == fields.len() {
        assert(fields.skip(i) =~= Seq::empty());
    }
}

/// The contents of an imported story are its fields, each under its own name.
pub proof fn law_story_contents(story: StoryImport)
    ensures
        story.deep_view().id == story.id@,
        story.deep_view().title == story.title@,
        story.deep_view().contract_doc == story.contract_doc.deep_view(),
        story.deep_view().status == story.status@,
        story.deep_view().unit == story.unit,
        story.deep_view().integration == story.integration,
        story.deep_view().e2e == story.e2e,
        story.deep_view().platform == story.platform,
        story.deep_view().evidence == story.evidence.deep_view(),
{
}

proof fn lemma_cells(cells: Seq<Seq<char>>)
    requires
        cells.len() > 0,
        forall|i: int| 0 <= i < cells.len() ==> !(#[trigger] cells[i]).contains('|'),
    ensures
        split(join(cells, seq!['|']), seq!['|']) == cells,
{
    let bar = seq!['|'];
    assert forall|i: int| 0 <= i < cells.len() implies ends_at_separator(
        #[trigger] cells[i],
        bar,
    ) by {
        let s = cells[i] + bar;
        assert forall|j: int| 0 <= j < cells[i].len() implies !occurs_at(s, bar, j) by {
            if occurs_at(s, bar, j) {
                assert(s.subrange(j, j + 1)[0] == '|');
                assert(cells[i][j] == '|');
            }
        }
    }
    lemma_split_join(cells, bar);
}

/// Cells written between bars come back trimmed, in their order.
pub proof fn law_cells_stand_between_bars(cells: Seq<Seq<char>>, line: Seq<char>)
    requires
        cells.len() > 0,
        forall|i: int| 0 <= i < cells.len() ==> !(#[trigger] cells[i]).contains('|'),
        trim(line) == seq!['|'] + join(cells, seq!['|']) + seq!['|'],
    ensures
        table_fields(line).len() == cells.len(),
        forall|i: int| 0 <= i < cells.len() ==> #[trigger] table_fields(line)[i] == trim(cells[i]),
{
    lemma_cells(cells);
    reveal_strlit("|");
    assert("|"@ =~= seq!['|']);
    let text = trim(line);
    let inner = join(cells, seq!['|']);
    assert(text.skip(1) =~= inner + seq!['|']);
    assert((inner + seq!['|']).drop_last() =~= inner);
}

/// A line is a row of a table exactly where a bar is the first of it but for whitespace, and it
/// has two cells or more.
pub proof fn law_table_line(line: Seq<char>)
    ensures
        is_table_line(line) <==> {
            &&& trim_start(line).len() > 0
            &&& trim_start(line)[0] == '|'
            &&& table_fields(line).len() >= 2
        },
{
    reveal_strlit("|");
    let s = trim_start(line);
    if s.len() > 0 && s[0] == '|' {
        assert(s.subrange(0, 1) =~= "|"@);
    }
    if starts_with(s, "|"@) {
        assert(s.subrange(0, 1)[0] == '|');
    }
}

/// Whether `line` heads a table of stories: one of its cells says Story, and one Status.
pub open spec fn is_heading_line(line: Seq<char>) -> bool {
    &&& is_table_line(line)
    &&& !lacks_heading(table_fields(line), "story"@)
    &&& !lacks_heading(table_fields(line), "status"@)
}

/// Whether the line at `h` is the first of `ls` that heads a table of stories.
pub open spec fn is_first_heading(ls: Seq<Seq<char>>, h: int) -> bool {
    &&& 0 <= h < ls.len()
    &&& is_heading_line(ls[h])
    &&& forall|j: int| 0 <= j < h ==> !is_heading_line(#[trigger] ls[j])
}

spec fn rows_of(ls: Seq<Seq<char>>) -> Seq<Seq<Seq<char>>> {
    ls.filter(|line: Seq<char>| is_table_line(line)).map_values(
        |line: Seq<char>| table_fields(line),
    )
}

proof fn lemma_rows_push(ls: Seq<Seq<char>>, line: Seq<char>)
    ensures
        rows_of(ls.push(line)) == if is_table_line(line) {
            rows_of(ls).push(table_fields(line))
        } else {
            rows_of(ls)
        },
{
    let keep = |line: Seq<char>| is_table_line(line);
    ls.lemma_filter_push(line, keep);
    assert(rows_of(ls.push(line)) =~= if is_table_line(line) {
        rows_of(ls).push(table_fields(line))
    } else {
        rows_of(ls)
    });
}

proof fn lemma_header_push(rows: Seq<Seq<Seq<char>>>, fields: Seq<Seq<char>>)
    ensures
        0 <= header_index(rows) <= rows.len(),
        header_index(rows) < rows.len() ==> header_index(rows.push(fields)) == header_index(rows),
        header_index(rows) == rows.len() ==> header_index(rows.push(fields)) == if is_header(
            fields,
        ) {
            rows.len() as int
        } else {
            rows.len() as int + 1
        },
    decreases rows.len(),
{
    if rows.len() > 0 {
        lemma_header_push(rows.skip(1), fields);
        assert(rows.push(fields).skip(1) =~= rows.skip(1).push(fields));
        assert(rows.push(fields)[0] == rows[0]);
    } else {
        assert(rows.push(fields).skip(1) =~= Seq::empty());
        assert(rows.push(fields)[0] == fields);
        assert(header_index(Seq::<Seq<Seq<char>>>::empty()) == 0);
    }
}

proof fn lemma_heading_line(line: Seq<char>)
    ensures
        is_heading_line(line) <==> is_table_line(line) && is_header(table_fields(line)),
{
    law_last_heading_counts(table_fields(line), "story"@, 0);
    law_last_heading_counts(table_fields(line), "status"@, 0);
}

proof fn lemma_no_heading(ls: Seq<Seq<char>>)
    requires
        forall|j: int| 0 <= j < ls.len() ==> !is_heading_line(#[trigger] ls[j]),
    ensures
        header_index(rows_of(ls)) == rows_of(ls).len(),
    decreases ls.len(),
{
    if ls.len() > 0 {
        let rest = ls.drop_last();
        assert forall|j: int| 0 <= j < rest.len() implies !is_heading_line(#[trigger] rest[j]) by {
            assert(rest[j] == ls[j]);
        }
        lemma_no_heading(rest);
        assert(ls =~= rest.push(ls.last()));
        assert(!is_heading_line(ls[ls.len() - 1]));
        lemma_rows_push(rest, ls.last());
        lemma_header_push(rows_of(rest), table_fields(ls.last()));
        lemma_heading_line(ls.last());
    } else {
        assert(ls =~= Seq::empty());
        reveal(Seq::filter);
        assert(rows_of(ls).len() == 0);
    }
}

proof fn lemma_first_heading(ls: Seq<Seq<char>>, h: int)
    requires
        is_first_heading(ls, h),
    ensures
        header_index(rows_of(ls)) < rows_of(ls).len(),
        rows_of(ls)[header_index(rows_of(ls))] == table_fields(ls[h]),
    decreases ls.len(),
{
    let rest = ls.drop_last();
    assert(ls =~= rest.push(ls.last()));
    lemma_rows_push(rest, ls.last());
    lemma_header_push(rows_of(rest), table_fields(ls.last()));
    assert forall|j: int| 0 <= j < h implies !is_heading_line(#[trigger] rest[j]) by {
        assert(rest[j] == ls[j]);
    }
    if h < rest.len() {
        assert(rest[h] == ls[h]);
        lemma_first_heading(rest, h);
    } else {
        lemma_no_heading(rest);
        lemma_heading_line(ls[h]);
    }
}

/// A document has no stories where no line heads a table of them, and below the first line that
/// does, each row of a table that names a story adds it behind those above, and no other line adds
/// any.
pub proof fn law_stories_are_added_line_by_line(
    content: Seq<char>,
    more: Seq<char>,
    line: Seq<char>,
    h: int,
)
    requires
        lines(more) == lines(content).push(line),
    ensures
        (forall|j: int| 0 <= j < lines(content).len() ==> !is_heading_line(#[trigger] lines(content)[j]))
            ==> {
            &&& matrix_stories(content).len() == 0
            &&& matrix_stories(more).len() == 0
        },
        is_first_heading(lines(content), h) ==> {
            let story = story_row(table_fields(lines(content)[h]), table_fields(line));
            matrix_stories(more) == if is_table_line(line) && story is Some {
                matrix_stories(content).push(story->0)
            } else {
                matrix_stories(content)
            }
        },
{
    let ls = lines(content);
    let rows = table_rows(content);
    assert(rows == rows_of(ls));
    assert(table_rows(more) == rows_of(ls.push(line)));
    lemma_rows_push(ls, line);
    lemma_header_push(rows, table_fields(line));
    if forall|j: int| 0 <= j < ls.len() ==> !is_heading_line(#[trigger] ls[j]) {
        lemma_no_heading(ls);
        if is_table_line(line) && is_header(table_fields(line)) {
            assert(table_rows(more).skip(rows.len() as int + 1) =~= Seq::empty());
        }
    }
    if is_first_heading(ls, h) {
        lemma_first_heading(ls, h);
        let head = header_index(rows);
        if is_table_line(line) {
            let below = rows.skip(head + 1);
            let all = table_rows(more).skip(head + 1);
            let story = |fields: Seq<Seq<char>>| story_row(rows[head], fields);
            assert(all =~= below.push(table_fields(line)));
            assert(all.drop_last() =~= below);
            assert(table_rows(more)[head] == rows[head]);
            all.lemma_filter_map_take_succ(story, all.len() - 1);
            assert(all.take(all.len() as int) =~= all);
            assert(all.take(all.len() - 1) =~= below);
        }
    }
}

} // verus!
