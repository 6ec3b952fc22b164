//! What holds of the documents and of the records as a whole.
use vstd::prelude::*;
use vstd::utf8::{decode_utf8, encode_utf8};

use crate::backlog::{
    backlog_entries, backlog_row, backlog_rows, backlog_status, is_backlog_status, scan_lines,
    BacklogEntry,
};
use crate::decision::{decision_row, decision_status, is_decision_status};
use crate::matrix::{
    cell, column, header_index, is_placeholder, is_story_status, matrix_stories, story_row,
    story_status, table_fields, table_rows, without_first_bar, without_last_bar, StoryRow,
};
use crate::number::{
    all_digits, decimal, digits_value, is_digit, parsed_number, unsigned_part,
};
use crate::proposal::{
    has_short_title, is_first, leading_words, leads_group, repeated, title_of,
};
use crate::text::{
    find, is_whitespace, lemma_find_from, occurs_at, split, trim, trim_end, trim_start,
};
use crate::token::{token, token_char, RiskLane};
use crate::tool::{lemma_filters_commute, tool_places, tool_status, ToolEntry};

verus! {

proof fn lemma_trim_start(s: Seq<char>)
    ensures
        trim_start(s).len() > 0 ==> !is_whitespace(trim_start(s)[0]),
    decreases s.len(),
{
    if s.len() > 0 && is_whitespace(s[0]) {
        lemma_trim_start(s.skip(1));
    }
}

proof fn lemma_trim_end(s: Seq<char>)
    ensures
        trim_end(s).len() > 0 ==> !is_whitespace(trim_end(s).last()) && trim_end(s)[0] == s[0],
        trim_end(s).len() <= s.len(),
    decreases s.len(),
{
    if s.len() > 0 && is_whitespace(s.last()) {
        lemma_trim_end(s.drop_last());
    }
}

/// A trimmed text neither starts nor ends with whitespace.
proof fn lemma_trim_ends(s: Seq<char>)
    ensures
        trim(s).len() > 0 ==> !is_whitespace(trim(s)[0]) && !is_whitespace(trim(s).last()),
{
    lemma_trim_start(s);
    lemma_trim_end(trim_start(s));
}

/// A text that neither starts nor ends with whitespace is trimmed.
proof fn lemma_trimmed(s: Seq<char>)
    requires
        s.len() > 0 ==> !is_whitespace(s[0]) && !is_whitespace(s.last()),
    ensures
        trim(s) == s,
{
}

/// A text in the spelling of tokens is its own token.
proof fn lemma_own_token(s: Seq<char>)
    requires
        s.len() > 0 ==> !is_whitespace(s[0]) && !is_whitespace(s.last()),
        forall|i: int| 0 <= i < s.len() ==> token_char(#[trigger] s[i]) == s[i],
    ensures
        token(s) == s,
{
    lemma_trimmed(s);
    assert(token(s) =~= s);
}

/// The spelling of a character in tokens is its own spelling, and no whitespace where the
/// character is none.
proof fn lemma_token_char(c: char)
    ensures
        token_char(token_char(c)) == token_char(c),
        !is_whitespace(c) ==> !is_whitespace(token_char(c)),
{
    if 'A' <= c <= 'Z' {
        assert('a' <= token_char(c) <= 'z');
    }
}

/// A token is its own token.
pub proof fn law_token_is_idempotent(s: Seq<char>)
    ensures
        token(token(s)) == token(s),
{
    let t = token(s);
    lemma_trim_ends(s);
    assert forall|i: int| 0 <= i < t.len() implies token_char(#[trigger] t[i]) == t[i] by {
        lemma_token_char(trim(s)[i]);
    }
    if t.len() > 0 {
        lemma_token_char(trim(s)[0]);
        lemma_token_char(trim(s).last());
    }
    lemma_own_token(t);
}

/// A risk lane is named by its spelling in the database.
pub proof fn law_lane_is_named_by_its_name(lane: RiskLane)
    ensures
        RiskLane::named(lane.name()) == Some(lane),
{
    reveal_strlit("tiny");
    reveal_strlit("normal");
    reveal_strlit("high_risk");
    lemma_own_token("tiny"@);
    lemma_own_token("normal"@);
    lemma_own_token("high_risk"@);
    assert("tiny"@[0] != "normal"@[0]);
    assert("tiny"@[0] != "high_risk"@[0]);
    assert("normal"@[0] != "high_risk"@[0]);
}

/// What a status is read as is a known status of stories, and is read as itself.
pub proof fn law_story_status_is_known(value: Seq<char>)
    ensures
        is_story_status(story_status(value)),
        story_status(story_status(value)) == story_status(value),
{
    law_token_is_idempotent(value);
    reveal_strlit("planned");
    lemma_own_token("planned"@);
}

/// What a status is read as is a known status of decisions, and is read as itself.
pub proof fn law_decision_status_is_known(value: Seq<char>)
    ensures
        is_decision_status(decision_status(value)),
        decision_status(decision_status(value)) == decision_status(value),
{
    law_token_is_idempotent(value);
    reveal_strlit("superseded");
    lemma_own_token("superseded"@);
    reveal_strlit("accepted");
    lemma_own_token("accepted"@);
}

/// What a status is read as is a known status of backlog items, and is read as itself.
pub proof fn law_backlog_status_is_known(value: Seq<char>)
    ensures
        is_backlog_status(backlog_status(value)),
        backlog_status(backlog_status(value)) == backlog_status(value),
{
    law_token_is_idempotent(value);
    reveal_strlit("proposed");
    lemma_own_token("proposed"@);
}

/// What an imported story always has.
pub open spec fn is_sound_story(row: StoryRow) -> bool {
    &&& !is_placeholder(row.id)
    &&& row.title.len() > 0
    &&& is_story_status(row.status)
    &&& row.unit == 0 || row.unit == 1
    &&& row.integration == 0 || row.integration == 1
    &&& row.e2e == 0 || row.e2e == 1
    &&& row.platform == 0 || row.platform == 1
}

/// Every story of a matrix has an id that is no placeholder, a title, a known status and proof
/// flags of zero or one.
pub proof fn law_imported_stories_are_sound(content: Seq<char>, i: int)
    requires
        0 <= i < matrix_stories(content).len(),
    ensures
        is_sound_story(matrix_stories(content)[i]),
{
    let rows = table_rows(content);
    let head = header_index(rows);
    let below = rows.skip(head + 1);
    let story = |fields: Seq<Seq<char>>| story_row(rows[head], fields);
    let row = below.filter_map(story)[i];
    assert(below.filter_map(story).contains(row));
    below.lemma_filter_map_contains(story, row);
    let k = choose|k: int| 0 <= k < below.len() && #[trigger] story(below[k]) == Some(row);
    let fields = below[k];
    law_story_status_is_known(
        crate::matrix::or_empty(cell(fields, column(rows[head], "status"@))),
    );
    assert(row.id.len() > 0);
}

/// The decision of every record has a known status and a title.
pub proof fn law_imported_decisions_are_sound(name: Seq<char>, content: Seq<char>)
    requires
        name.len() > 3,
    ensures
        is_decision_status(decision_row(name, content).status),
        decision_row(name, content).title.len() > 0,
        decision_row(name, content).doc_path == "docs/decisions/"@ + name,
{
    law_decision_status_is_known(crate::decision::section_value(content, "Status"@));
}

proof fn lemma_scanned_items_have_titles(ls: Seq<Seq<char>>, i: int)
    requires
        0 <= i < scan_lines(ls).done.len(),
    ensures
        scan_lines(ls).done[i].title.len() > 0,
    decreases ls.len(),
{
    if ls.len() > 0 {
        let before = scan_lines(ls.drop_last());
        if i < before.done.len() {
            lemma_scanned_items_have_titles(ls.drop_last(), i);
        }
    }
}

/// Every item of a backlog document has a title.
pub proof fn law_backlog_entries_have_titles(content: Seq<char>, i: int)
    requires
        0 <= i < backlog_entries(content).len(),
    ensures
        backlog_entries(content)[i].title.len() > 0,
{
    let scan = scan_lines(crate::text::lines(content));
    if i < scan.done.len() {
        lemma_scanned_items_have_titles(crate::text::lines(content), i);
    }
}

/// Every item that is stored of a backlog document has a title other than that of the
/// template, and a known status.
pub proof fn law_imported_backlog_is_sound(content: Seq<char>, i: int)
    requires
        0 <= i < backlog_rows(content).len(),
    ensures
        backlog_rows(content)[i].title.len() > 0,
        backlog_rows(content)[i].title != "Short name."@,
        is_backlog_status(backlog_rows(content)[i].status),
{
    let entries = backlog_entries(content);
    let stored = |entry: BacklogEntry| backlog_row(entry);
    let row = entries.filter_map(stored)[i];
    assert(entries.filter_map(stored).contains(row));
    entries.lemma_filter_map_contains(stored, row);
    let k = choose|k: int| 0 <= k < entries.len() && #[trigger] stored(entries[k]) == Some(row);
    law_backlog_status_is_known(entries[k].status);
}

pub proof fn lemma_rising(s: Seq<int>, pred: spec_fn(int) -> bool)
    requires
        forall|i: int, j: int| 0 <= i < j < s.len() ==> (#[trigger] s[i]) < (#[trigger] s[j]),
    ensures
        forall|i: int, j: int|
            0 <= i < j < s.filter(pred).len() ==> (#[trigger] s.filter(pred)[i]) < (
            #[trigger] s.filter(pred)[j]),
        forall|i: int|
            0 <= i < s.filter(pred).len() ==> s.contains(#[trigger] s.filter(pred)[i]) && pred(
                s.filter(pred)[i],
            ),
    decreases s.len(),
{
    reveal(Seq::filter);
    if s.len() > 0 {
        let rest = s.drop_last();
        assert forall|i: int, j: int| 0 <= i < j < rest.len() implies (#[trigger] rest[i]) < (
        #[trigger] rest[j]) by {
            assert(s[i] < s[j]);
        }
        lemma_rising(rest, pred);
        let kept = rest.filter(pred);
        assert forall|i: int| 0 <= i < kept.len() implies s.contains(#[trigger] kept[i]) && kept[i]
            < s.last() by {
            assert(rest.contains(kept[i]));
            let k = choose|k: int| 0 <= k < rest.len() && rest[k] == kept[i];
            assert(s[k] == kept[i]);
            assert(s[k] < s[s.len() - 1]);
        }
        assert(s.contains(s.last())) by {
            assert(s[s.len() - 1] == s.last());
        }
    }
}

/// Each value that recurs does so at least twice, and no two of them have one token.
pub proof fn law_repeated_values_are_distinct(values: Seq<Seq<char>>)
    ensures
        forall|i: int|
            0 <= i < repeated(values).len() ==> (#[trigger] repeated(values)[i]).1 >= 2,
        forall|i: int, j: int|
            0 <= i < j < repeated(values).len() ==> token((#[trigger] repeated(values)[i]).0)
                != token((#[trigger] repeated(values)[j]).0),
{
    let all = Seq::new(values.len(), |i: int| i);
    let leads = |i: int| leads_group(values, i);
    lemma_rising(all, leads);
    let kept = all.filter(leads);
    let groups = repeated(values);
    assert forall|i: int| 0 <= i < groups.len() implies (#[trigger] groups[i]).1 >= 2 by {
        assert(leads(kept[i]));
    }
    assert forall|i: int, j: int| 0 <= i < j < groups.len() implies token((#[trigger] groups[i]).0)
        != token((#[trigger] groups[j]).0) by {
        assert(kept[i] < kept[j]);
        assert(leads(kept[j]));
        assert(all.contains(kept[i]));
        assert(is_first(values, kept[j]));
        assert(token(values[kept[i]]) != token(values[kept[j]]));
    }
}

pub proof fn lemma_encode_concat(a: Seq<char>, b: Seq<char>)
    ensures
        encode_utf8(a + b) == encode_utf8(a) + encode_utf8(b),
    decreases a.len(),
{
    if a.len() == 0 {
        assert(a + b =~= b);
        assert(encode_utf8(a) + encode_utf8(b) =~= encode_utf8(b));
    } else {
        lemma_encode_concat(a.drop_first(), b);
        assert((a + b).drop_first() =~= a.drop_first() + b);
        assert(encode_utf8(a + b) =~= encode_utf8(a) + encode_utf8(b));
    }
}

/// A title that was cut takes 72 bytes, and no title takes more.
pub proof fn law_titles_are_short(value: Seq<char>)
    requires
        has_short_title(value),
    ensures
        encode_utf8(title_of(value)).len() <= 72,
        encode_utf8(leading_words(value)).len() > 72 ==> encode_utf8(title_of(value)).len() == 72,
{
    let text = leading_words(value);
    let bytes = encode_utf8(text);
    if bytes.len() > 72 {
        let head = bytes.subrange(0, 69);
        vstd::utf8::encode_utf8_valid_utf8(text);
        vstd::utf8::valid_utf8_split(bytes, 69);
        vstd::utf8::decode_utf8_encode_utf8(head);
        lemma_encode_concat(decode_utf8(head), "..."@);
        reveal_strlit("...");
        vstd::utf8::is_ascii_chars_encode_utf8("..."@);
    }
}

/// The status of a tool is one of three; it is present only where it was found, missing only
/// where it was not, and unknown where there is no place to look for it.
pub proof fn law_status_reports_what_was_found(
    kind: Seq<char>,
    command: Seq<char>,
    scan_target: Option<Seq<char>>,
    home: Option<Seq<char>>,
    found: bool,
)
    ensures
        ({
            let status = tool_status(kind, scan_target, found);
            &&& status == "present"@ || status == "missing"@ || status == "unknown"@
            &&& status == "present"@ ==> found
            &&& status == "missing"@ ==> !found
            &&& status == "unknown"@ ==> tool_places(kind, command, scan_target, home).len() == 0
        }),
{
    reveal_strlit("present");
    reveal_strlit("missing");
    reveal_strlit("unknown");
    assert("present"@[0] != "missing"@[0]);
    assert("present"@[0] != "unknown"@[0]);
    assert("missing"@[0] != "unknown"@[0]);
}

pub proof fn lemma_decimal(n: nat)
    ensures
        decimal(n).len() > 0,
        all_digits(decimal(n)),
        digits_value(decimal(n)) == n,
    decreases n,
{
    if n >= 10 {
        lemma_decimal(n / 10);
        let head = decimal(n / 10);
        assert(decimal(n).drop_last() =~= head);
        assert forall|i: int| 0 <= i < decimal(n).len() implies is_digit(#[trigger] decimal(n)[i]) by {
            if i < head.len() {
                assert(is_digit(head[i]));
            }
        }
    } else {
        assert(decimal(n).drop_last() =~= Seq::empty());
        assert(digits_value(Seq::<char>::empty()) == 0);
    }
}

/// A number is read back from its decimal text.
pub proof fn law_decimal_reads_back(n: nat, max: nat)
    requires
        n <= max,
    ensures
        parsed_number(decimal(n), max) == Some(n),
{
    lemma_decimal(n);
    assert(is_digit(decimal(n)[0]));
    assert(unsigned_part(decimal(n)) == decimal(n));
}

proof fn lemma_pieces_hold_no_bar(s: Seq<char>, i: int, k: int)
    requires
        0 <= i < split(s, "|"@).len(),
        0 <= k < split(s, "|"@)[i].len(),
    ensures
        split(s, "|"@)[i][k] != '|',
    decreases s.len(),
{
    let bar = "|"@;
    reveal_strlit("|");
    lemma_find_from(s, bar, 0);
    match find(s, bar) {
        Some(at) => {
            if i == 0 {
                if s[k] == '|' {
                    assert(s.subrange(k, k + 1) =~= bar);
                    assert(occurs_at(s, bar, k));
                }
            } else {
                assert(split(s, bar)[i] == split(s.skip(at + 1), bar)[i - 1]);
                lemma_pieces_hold_no_bar(s.skip(at + 1), i - 1, k);
            }
        },
        None => {
            if s[k] == '|' {
                assert(s.subrange(k, k + 1) =~= bar);
                assert(occurs_at(s, bar, k));
            }
        },
    }
}

proof fn lemma_trim_start_keeps(s: Seq<char>, c: char)
    requires
        !s.contains(c),
    ensures
        !trim_start(s).contains(c),
    decreases s.len(),
{
    if s.len() > 0 && is_whitespace(s[0]) {
        assert forall|i: int| 0 <= i < s.skip(1).len() implies s.skip(1)[i] != c by {
            assert(s[i + 1] != c);
        }
        lemma_trim_start_keeps(s.skip(1), c);
    }
}

proof fn lemma_trim_end_keeps(s: Seq<char>, c: char)
    requires
        !s.contains(c),
    ensures
        !trim_end(s).contains(c),
    decreases s.len(),
{
    if s.len() > 0 && is_whitespace(s.last()) {
        assert forall|i: int| 0 <= i < s.drop_last().len() implies s.drop_last()[i] != c by {
            assert(s[i] != c);
        }
        lemma_trim_end_keeps(s.drop_last(), c);
    }
}

/// A cell of a table row holds no bar, and no whitespace at its ends.
pub proof fn law_cells_are_trimmed_and_hold_no_bar(line: Seq<char>, i: int)
    requires
        0 <= i < table_fields(line).len(),
    ensures
        !table_fields(line)[i].contains('|'),
        trim(table_fields(line)[i]) == table_fields(line)[i],
{
    let inner = without_last_bar(without_first_bar(trim(line)));
    let piece = split(inner, "|"@)[i];
    assert forall|k: int| 0 <= k < piece.len() implies piece[k] != '|' by {
        lemma_pieces_hold_no_bar(inner, i, k);
    }
    lemma_trim_start_keeps(piece, '|');
    lemma_trim_end_keeps(trim_start(piece), '|');
    lemma_trim_ends(piece);
    lemma_trimmed(trim(piece));
}

/// Asking for a responsibility and a capability gives what asking for one and then, among
/// those, for the other gives, in either order.
pub proof fn law_tool_filters_combine(
    tools: Seq<ToolEntry>,
    responsibility: Seq<char>,
    capability: Seq<char>,
)
    ensures
        ({
            let first = |tool: ToolEntry| tool.serves(Some(responsibility), None);
            let second = |tool: ToolEntry| tool.serves(None, Some(capability));
            let both = |tool: ToolEntry| tool.serves(Some(responsibility), Some(capability));
            &&& tools.filter(both) == tools.filter(first).filter(second)
            &&& tools.filter(both) == tools.filter(second).filter(first)
        }),
{
    let first = |tool: ToolEntry| tool.serves(Some(responsibility), None);
    let second = |tool: ToolEntry| tool.serves(None, Some(capability));
    let both = |tool: ToolEntry| tool.serves(Some(responsibility), Some(capability));
    lemma_filters_commute(tools, first, second, both);
}

} // verus!
