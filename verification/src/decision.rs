//! Decision records: Markdown files named by a number of four digits.
use vstd::prelude::*;
use vstd::string::StringExecFns;

use crate::matrix::non_empty;
use crate::number::is_digit;
use crate::text::{
    chars_of, ends_with, ends_with_text, lines, lines_of, same_text, starts_with,
    starts_with_text, strip_prefix_text, text_between, trim, trim_text,
};
use crate::token::{normalize_token, token};

verus! {

/// Whether `name` starts with four digits and a hyphen.
pub open spec fn is_decision_name(name: Seq<char>) -> bool {
    &&& name.len() >= 5
    &&& forall|i: int| 0 <= i < 4 ==> is_digit(#[trigger] name[i])
    &&& name[4] == '-'
}

/// Whether `name` is the file name of a decision record.
pub open spec fn is_decision_file(name: Seq<char>) -> bool {
    is_decision_name(name) && ends_with(name, ".md"@)
}

pub open spec fn is_decision_status(t: Seq<char>) -> bool {
    t == "proposed"@ || t == "accepted"@ || t == "superseded"@ || t == "rejected"@
}

/// The decision status that `value` names. A decision may say what superseded it; one that
/// says nothing known is accepted.
pub open spec fn decision_status(value: Seq<char>) -> Seq<char> {
    let t = token(value);
    if is_decision_status(t) {
        t
    } else if starts_with(t, "superseded_"@) {
        "superseded"@
    } else {
        "accepted"@
    }
}

/// The first line of `ls` that is not blank, trimmed.
pub open spec fn first_text(ls: Seq<Seq<char>>) -> Seq<char>
    decreases ls.len(),
{
    if ls.len() == 0 {
        Seq::empty()
    } else if trim(ls[0]).len() > 0 {
        trim(ls[0])
    } else {
        first_text(ls.skip(1))
    }
}

/// The first line that is not blank below the first line that is `heading_line`.
pub open spec fn text_below(ls: Seq<Seq<char>>, heading_line: Seq<char>) -> Seq<char>
    decreases ls.len(),
{
    if ls.len() == 0 {
        Seq::empty()
    } else if trim(ls[0]) == heading_line {
        first_text(ls.skip(1))
    } else {
        text_below(ls.skip(1), heading_line)
    }
}

/// The first value in the section of `content` with the second-level heading `heading`.
pub open spec fn section_value(content: Seq<char>, heading: Seq<char>) -> Seq<char> {
    text_below(lines(content), "## "@ + heading)
}

/// The title in the first line of `content`, if it is a first-level heading that is not
/// blank.
pub open spec fn heading_title(content: Seq<char>) -> Option<Seq<char>> {
    let ls = lines(content);
    if ls.len() > 0 && starts_with(ls[0], "# "@) {
        non_empty(trim(ls[0].skip(2)))
    } else {
        None
    }
}

/// The order of texts by their characters, the first difference deciding.
pub open spec fn text_le(a: Seq<char>, b: Seq<char>) -> bool
    decreases a.len(),
{
    if a.len() == 0 {
        true
    } else if b.len() == 0 {
        false
    } else if a[0] == b[0] {
        text_le(a.skip(1), b.skip(1))
    } else {
        a[0] < b[0]
    }
}

/// Whether each text of `s` comes no later than those behind it.
pub open spec fn is_sorted(s: Seq<Seq<char>>) -> bool {
    forall|i: int, j: int| 0 <= i <= j < s.len() ==> text_le(#[trigger] s[i], #[trigger] s[j])
}

/// Whether `file_name` starts with four digits and a hyphen.
pub fn is_decision_file_name(file_name: &str) -> (r: bool)
    ensures
        r == is_decision_name(file_name@),
{
    let chars = chars_of(file_name);
    if chars.len() < 5 {
        return false;
    }
    let mut i: usize = 0;
    while i < 4
        invariant
            i <= 4,
            chars.len() >= 5,
            chars@ == file_name@,
            forall|j: int| 0 <= j < i ==> is_digit(#[trigger] chars@[j]),
        decreases 4 - i,
    {
        if !('0' <= chars[i] && chars[i] <= '9') {
            return false;
        }
        i = i + 1;
    }
    chars[4] == '-'
}

/// The decision status that `value` names.
pub fn normalize_decision_status(value: &str) -> (r: String)
    ensures
        r@ == decision_status(value@),
{
    let token = normalize_token(value);
    let t = token.as_str();
    if same_text(t, "proposed") || same_text(t, "accepted") || same_text(t, "superseded")
        || same_text(t, "rejected") {
        token
    } else if starts_with_text(t, "superseded_") {
        "superseded".to_owned()
    } else {
        "accepted".to_owned()
    }
}

/// The first value in the section of `content` with the second-level heading `heading`.
pub fn markdown_section_first_value(content: &str, heading: &str) -> (r: String)
    ensures
        r@ == section_value(content@, heading@),
{
    proof {
        reveal_strlit("## ");
    }
    let mut target = "## ".to_owned();
    target.append(heading);
    let all = lines_of(content);
    let ghost texts = lines(content@);
    let mut found: bool = false;
    let mut i: usize = 0;
    assert(texts.skip(0) =~= texts);
    while i < all.len()
        invariant
            i <= all.len(),
            texts == all.deep_view(),
            target@ == "## "@ + heading@,
            target@.len() > 0,
            section_value(content@, heading@) == if found {
                first_text(texts.skip(i as int))
            } else {
                text_below(texts.skip(i as int), target@)
            },
        decreases all.len() - i,
    {
        let trimmed = trim_text(all[i].as_str());
        assert(texts.skip(i as int)[0] == all[i as int]@);
        assert(texts.skip(i as int).skip(1) =~= texts.skip(i + 1));
        if found && !trimmed.as_str().is_empty() {
            return trimmed;
        }
        if same_text(trimmed.as_str(), target.as_str()) {
            found = true;
        }
        i = i + 1;
    }
    String::new()
}

/// A decision as its record gives it.
#[derive(Debug)]
pub struct DecisionImport {
    pub id: String,
    pub title: String,
    pub status: String,
    pub doc_path: String,
}

/// The contents of a `DecisionImport`.
pub struct DecisionRow {
    pub id: Seq<char>,
    pub title: Seq<char>,
    pub status: Seq<char>,
    pub doc_path: Seq<char>,
}

impl DeepView for DecisionImport {
    type V = DecisionRow;

    open spec fn deep_view(&self) -> DecisionRow {
        DecisionRow {
            id: self.id@,
            title: self.title@,
            status: self.status@,
            doc_path: self.doc_path@,
        }
    }
}

/// The decision in the record `content` with the file name `name`. Its id is the name
/// without the extension, and its title is the id where the record has none.
pub open spec fn decision_row(name: Seq<char>, content: Seq<char>) -> DecisionRow {
    let id = name.take(name.len() - 3);
    DecisionRow {
        id,
        title: match heading_title(content) {
            Some(title) => title,
            None => id,
        },
        status: decision_status(section_value(content, "Status"@)),
        doc_path: "docs/decisions/"@ + name,
    }
}

/// The title in the first line of `content`.
fn title_of(content: &str) -> (r: Option<String>)
    ensures
        r.deep_view() == heading_title(content@),
{
    let all = lines_of(content);
    assert(lines(content@).len() == all.len());
    if all.len() == 0 {
        return None;
    }
    assert(lines(content@)[0] == all[0]@);
    proof {
        reveal_strlit("# ");
    }
    match strip_prefix_text(all[0].as_str(), "# ") {
        Some(rest) => {
            let title = trim_text(rest.as_str());
            if title.as_str().is_empty() {
                None
            } else {
                Some(title)
            }
        },
        None => None,
    }
}

/// The decision in the record `content` with the file name `name`.
pub fn import_decision(name: &str, content: &str) -> (r: DecisionImport)
    requires
        is_decision_file(name@),
    ensures
        r.deep_view() == decision_row(name@, content@),
{
    let chars = chars_of(name);
    let id = text_between(&chars, 0, chars.len() - 3);
    assert(id@ =~= name@.take(name@.len() - 3));
    let title = match title_of(content) {
        Some(title) => title,
        None => id.clone(),
    };
    let status = normalize_decision_status(
        markdown_section_first_value(content, "Status").as_str(),
    );
    let mut doc_path = "docs/decisions/".to_owned();
    doc_path.append(name);
    DecisionImport { id, title, status, doc_path }
}

/// Of two texts one comes no later than the other.
pub proof fn lemma_text_le_total(a: Seq<char>, b: Seq<char>)
    ensures
        text_le(a, b) || text_le(b, a),
    decreases a.len(),
{
    if a.len() > 0 && b.len() > 0 {
        lemma_text_le_total(a.skip(1), b.skip(1));
    }
}

pub proof fn lemma_text_le_transitive(a: Seq<char>, b: Seq<char>, c: Seq<char>)
    requires
        text_le(a, b),
        text_le(b, c),
    ensures
        text_le(a, c),
    decreases a.len(),
{
    if a.len() > 0 && b.len() > 0 && c.len() > 0 && a[0] == b[0] && b[0] == c[0] {
        lemma_text_le_transitive(a.skip(1), b.skip(1), c.skip(1));
    }
}

/// Whether `a` comes no later than `b`.
fn comes_before(a: &str, b: &str) -> (r: bool)
    ensures
        r == text_le(a@, b@),
{
    let ac = chars_of(a);
    let bc = chars_of(b);
    let mut i: usize = 0;
    assert(ac@.skip(0) =~= ac@);
    assert(bc@.skip(0) =~= bc@);
    while i < ac.len() && i < bc.len() && ac[i] == bc[i]
        invariant
            i <= ac.len(),
            i <= bc.len(),
            ac@ == a@,
            bc@ == b@,
            text_le(a@, b@) == text_le(ac@.skip(i as int), bc@.skip(i as int)),
        decreases ac.len() - i,
    {
        assert(ac@.skip(i as int).skip(1) =~= ac@.skip(i + 1));
        assert(bc@.skip(i as int).skip(1) =~= bc@.skip(i + 1));
        i = i + 1;
    }
    i == ac.len() || (i < bc.len() && ac[i] < bc[i])
}

/// Puts `text` where it keeps `sorted` sorted.
fn insert_sorted(sorted: &mut Vec<String>, text: String)
    requires
        is_sorted(old(sorted).deep_view()),
    ensures
        is_sorted(final(sorted).deep_view()),
        final(sorted).deep_view().to_multiset() == old(sorted).deep_view().to_multiset().insert(
            text@,
        ),
{
    let ghost before = sorted.deep_view();
    let mut i: usize = 0;
    while i < sorted.len() && comes_before(sorted[i].as_str(), text.as_str())
        invariant
            i <= sorted.len(),
            before == sorted.deep_view(),
            forall|j: int| 0 <= j < i ==> text_le(#[trigger] before[j], text@),
        decreases sorted.len() - i,
    {
        assert(before[i as int] == sorted[i as int]@);
        i = i + 1;
    }
    let ghost t = text@;
    proof {
        if i < before.len() {
            assert(before[i as int] == sorted[i as int]@);
            lemma_text_le_total(before[i as int], t);
        }
        lemma_text_le_total(t, t);
    }
    sorted.insert(i, text);
    let ghost after = sorted.deep_view();
    proof {
        assert(after =~= before.insert(i as int, t));
        before.insert_ensures(i as int, t);
        vstd::seq_lib::to_multiset_insert(before, i as int, t);
        assert forall|j: int, k: int| 0 <= j <= k < after.len() implies text_le(
            #[trigger] after[j],
            #[trigger] after[k],
        ) by {
            if j < i && k > i {
                assert(text_le(before[j], before[k - 1]));
            } else if j == i && k > i {
                assert(text_le(before[i as int], before[k - 1]));
                lemma_text_le_transitive(t, before[i as int], before[k - 1]);
            } else if j > i {
                assert(text_le(before[j - 1], before[k - 1]));
            } else if k < i {
                assert(text_le(before[j], before[k]));
            }
        }
    }
}

/// Those of `names` that are file names of decision records, in order.
pub fn decision_files(names: &[String]) -> (r: Vec<String>)
    ensures
        is_sorted(r.deep_view()),
        r.deep_view().to_multiset() == names.deep_view().filter(
            |name: Seq<char>| is_decision_file(name),
        ).to_multiset(),
{
    let ghost all = names.deep_view();
    let ghost keep = |name: Seq<char>| is_decision_file(name);
    let mut r: Vec<String> = Vec::new();
    let mut i: usize = 0;
    assert(r.deep_view() =~= all.take(0).filter(keep)) by {
        assert(all.take(0) =~= Seq::empty());
        reveal(Seq::filter);
    }
    while i < names.len()
        invariant
            i <= names.len(),
            all == names.deep_view(),
            keep == (|name: Seq<char>| is_decision_file(name)),
            is_sorted(r.deep_view()),
            r.deep_view().to_multiset() == all.take(i as int).filter(keep).to_multiset(),
        decreases names.len() - i,
    {
        let name = names[i].as_str();
        proof {
            assert(all.take(i + 1) =~= all.take(i as int).push(name@));
            all.take(i as int).lemma_filter_push(name@, keep);
            vstd::seq_lib::to_multiset_build(all.take(i as int).filter(keep), name@);
        }
        if is_decision_file_name(name) && ends_with_text(name, ".md") {
            insert_sorted(&mut r, name.to_owned());
        }
        i = i + 1;
    }
    assert(all.take(i as int) =~= all);
    r
}

} // verus!
