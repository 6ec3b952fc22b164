//! What a decision record says where.
use vstd::prelude::*;

use crate::decision::{
    decision_row, decision_status, first_text, heading_title, is_decision_file, is_decision_name,
    is_sorted, section_value, text_below, text_le, DecisionImport,
};
use crate::text::{ends_with, lines, starts_with, trim};
use crate::token::token;

verus! {

/// A decision status is read as the one that it names, also where it goes on to say what the
/// decision was superseded by. Anything else is read as "accepted".
pub proof fn law_decision_status_is_read_by_name(value: Seq<char>, rest: Seq<char>)
    ensures
        token(value) == "proposed"@ ==> decision_status(value) == "proposed"@,
        token(value) == "accepted"@ ==> decision_status(value) == "accepted"@,
        token(value) == "superseded"@ ==> decision_status(value) == "superseded"@,
        token(value) == "rejected"@ ==> decision_status(value) == "rejected"@,
        token(value) == "superseded_"@ + rest ==> decision_status(value) == "superseded"@,
        token(value) != "proposed"@ && token(value) != "superseded"@ && token(value)
            != "rejected"@ && !starts_with(token(value), "superseded_"@) ==> decision_status(value)
            == "accepted"@,
{
    reveal_strlit("proposed");
    reveal_strlit("accepted");
    reveal_strlit("rejected");
    reveal_strlit("superseded");
    reveal_strlit("superseded_");
    let t = token(value);
    if t == "superseded_"@ + rest {
        assert(t.subrange(0, 11) =~= "superseded_"@);
        assert(t.len() >= 11);
    }
}

proof fn lemma_first_text(ls: Seq<Seq<char>>, j: int)
    requires
        0 <= j <= ls.len(),
        forall|i: int| 0 <= i < j ==> trim(#[trigger] ls[i]).len() == 0,
        j < ls.len() ==> trim(ls[j]).len() > 0,
    ensures
        j < ls.len() ==> first_text(ls) == trim(ls[j]),
        j == ls.len() ==> first_text(ls).len() == 0,
    decreases j,
{
    if j > 0 {
        assert(trim(ls[0]).len() == 0);
        let rest = ls.skip(1);
        assert forall|i: int| 0 <= i < j - 1 implies trim(#[trigger] rest[i]).len() == 0 by {
            assert(rest[i] == ls[i + 1]);
        }
        lemma_first_text(rest, j - 1);
    }
}

proof fn lemma_text_below(ls: Seq<Seq<char>>, heading: Seq<char>, k: int)
    requires
        0 <= k <= ls.len(),
        forall|i: int| 0 <= i < k ==> trim(#[trigger] ls[i]) != heading,
        k < ls.len() ==> trim(ls[k]) == heading,
    ensures
        k < ls.len() ==> text_below(ls, heading) == first_text(ls.skip(k + 1)),
        k == ls.len() ==> text_below(ls, heading).len() == 0,
    decreases k,
{
    if k > 0 {
        assert(trim(ls[0]) != heading);
        let rest = ls.skip(1);
        assert forall|i: int| 0 <= i < k - 1 implies trim(#[trigger] rest[i]) != heading by {
            assert(rest[i] == ls[i + 1]);
        }
        lemma_text_below(rest, heading, k - 1);
        if k < ls.len() {
            assert(rest[k - 1] == ls[k]);
            assert(rest.skip(k) =~= ls.skip(k + 1));
        }
    }
}

/// The value of a section is the first line that is not blank below the first line with its
/// heading.
pub proof fn law_section_value_is_the_first_line_below(
    content: Seq<char>,
    heading: Seq<char>,
    k: int,
    j: int,
)
    requires
        0 <= k < j < lines(content).len(),
        trim(lines(content)[k]) == seq!['#', '#', ' '] + heading,
        forall|i: int|
            0 <= i < k ==> trim(#[trigger] lines(content)[i]) != seq!['#', '#', ' '] + heading,
        forall|i: int| k < i < j ==> trim(#[trigger] lines(content)[i]).len() == 0,
        trim(lines(content)[j]).len() > 0,
    ensures
        section_value(content, heading) == trim(lines(content)[j]),
{
    reveal_strlit("## ");
    assert("## "@ =~= seq!['#', '#', ' ']);
    let ls = lines(content);
    lemma_text_below(ls, "## "@ + heading, k);
    let rest = ls.skip(k + 1);
    assert forall|i: int| 0 <= i < j - k - 1 implies trim(#[trigger] rest[i]).len() == 0 by {
        assert(rest[i] == ls[i + k + 1]);
    }
    assert(rest[j - k - 1] == ls[j]);
    lemma_first_text(rest, j - k - 1);
}

/// A section has no value where nothing but blank lines is below its heading, and where there is no
/// such heading.
pub proof fn law_section_without_value(content: Seq<char>, heading: Seq<char>, k: int)
    requires
        0 <= k <= lines(content).len(),
        k < lines(content).len() ==> trim(lines(content)[k]) == seq!['#', '#', ' '] + heading,
        forall|i: int|
            0 <= i < k ==> trim(#[trigger] lines(content)[i]) != seq!['#', '#', ' '] + heading,
        forall|i: int|
            k < i < lines(content).len() ==> trim(#[trigger] lines(content)[i]).len() == 0,
    ensures
        section_value(content, heading).len() == 0,
{
    reveal_strlit("## ");
    assert("## "@ =~= seq!['#', '#', ' ']);
    let ls = lines(content);
    lemma_text_below(ls, "## "@ + heading, k);
    if k < ls.len() {
        let rest = ls.skip(k + 1);
        assert forall|i: int| 0 <= i < rest.len() implies trim(#[trigger] rest[i]).len() == 0 by {
            assert(rest[i] == ls[i + k + 1]);
        }
        lemma_first_text(rest, rest.len() as int);
    }
}

/// The title of a record is what the first line says behind a hash and a space, where that is not
/// blank.
pub proof fn law_title_is_the_first_heading(content: Seq<char>, rest: Seq<char>)
    ensures
        lines(content).len() > 0 && lines(content)[0] == seq!['#', ' '] + rest && trim(rest).len()
            > 0 ==> heading_title(content) == Some(trim(rest)),
        lines(content).len() > 0 && lines(content)[0] == seq!['#', ' '] + rest && trim(rest).len()
            == 0 ==> heading_title(content) is None,
        lines(content).len() > 0 && (lines(content)[0].len() < 2 || lines(content)[0][0] != '#'
            || lines(content)[0][1] != ' ') ==> heading_title(content) is None,
        lines(content).len() == 0 ==> heading_title(content) is None,
{
    reveal_strlit("# ");
    if lines(content).len() > 0 {
        let line = lines(content)[0];
        if line == seq!['#', ' '] + rest {
            assert(line.subrange(0, 2) =~= "# "@);
            assert(line.skip(2) =~= rest);
        }
        if starts_with(line, "# "@) {
            assert(line.subrange(0, 2)[0] == '#');
            assert(line.subrange(0, 2)[1] == ' ');
        }
    }
}

/// A decision is known by the name of its file, without the extension. It is titled by the first
/// heading, or else by its id, has the status that the Status section names, and is found in the
/// directory of the decisions.
pub proof fn law_decision_comes_from_its_record(name: Seq<char>, content: Seq<char>)
    requires
        is_decision_file(name),
    ensures
        ({
            let row = decision_row(name, content);
            &&& row.id + seq!['.', 'm', 'd'] == name
            &&& heading_title(content) is Some ==> row.title == heading_title(content)->0
            &&& heading_title(content) is None ==> row.title == row.id
            &&& row.status == decision_status(section_value(content, "Status"@))
            &&& row.doc_path == "docs/decisions/"@ + name
        }),
{
    reveal_strlit(".md");
    assert(ends_with(name, ".md"@));
    let n = name.len() as int;
    assert(name =~= name.take(n - 3) + name.subrange(n - 3, n));
    assert(name.subrange(n - 3, n) =~= seq!['.', 'm', 'd']);
}

/// A file is a decision record exactly where its name is four digits, a hyphen and anything, with
/// the extension for Markdown.
pub proof fn law_decision_files_are_numbered(name: Seq<char>)
    ensures
        is_decision_name(name) <==> {
            &&& name.len() >= 5
            &&& '0' <= name[0] <= '9'
            &&& '0' <= name[1] <= '9'
            &&& '0' <= name[2] <= '9'
            &&& '0' <= name[3] <= '9'
            &&& name[4] == '-'
        },
        is_decision_file(name) <==> is_decision_name(name) && name.skip(name.len() - 3) == seq![
            '.',
            'm',
            'd',
        ],
{
    reveal_strlit(".md");
    assert(".md"@ =~= seq!['.', 'm', 'd']);
    if is_decision_name(name) {
        assert(crate::number::is_digit(name[0]));
        assert(crate::number::is_digit(name[1]));
        assert(crate::number::is_digit(name[2]));
        assert(crate::number::is_digit(name[3]));
        assert(name.skip(name.len() - 3) =~= name.subrange(name.len() - 3, name.len() as int));
    }
}

/// A text comes before those that it starts, and of two that differ the one with the smaller
/// character at the first difference.
pub proof fn law_texts_are_ordered_by_the_first_difference(a: Seq<char>, b: Seq<char>, k: int)
    requires
        0 <= k <= a.len(),
        k <= b.len(),
        a.take(k) == b.take(k),
    ensures
        k == a.len() ==> text_le(a, b),
        k == b.len() && k < a.len() ==> !text_le(a, b),
        k < a.len() && k < b.len() && a[k] < b[k] ==> text_le(a, b),
        k < a.len() && k < b.len() && b[k] < a[k] ==> !text_le(a, b),
    decreases k,
{
    if k > 0 {
        assert(a.take(k)[0] == a[0]);
        assert(b.take(k)[0] == b[0]);
        assert(a.skip(1).take(k - 1) =~= a.take(k).skip(1));
        assert(b.skip(1).take(k - 1) =~= b.take(k).skip(1));
        law_texts_are_ordered_by_the_first_difference(a.skip(1), b.skip(1), k - 1);
    }
}

/// Of two files in order the first comes no later.
pub proof fn law_sorted_files_are_in_order(names: Seq<Seq<char>>, i: int, j: int)
    requires
        is_sorted(names),
        0 <= i < j < names.len(),
    ensures
        text_le(names[i], names[j]),
{
}

/// The contents of an imported decision are its fields, each under its own name.
pub proof fn law_decision_contents(decision: DecisionImport)
    ensures
        decision.deep_view().id == decision.id@,
        decision.deep_view().title == decision.title@,
        decision.deep_view().status == decision.status@,
        decision.deep_view().doc_path == decision.doc_path@,
{
}

} // verus!
