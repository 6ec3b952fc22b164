//! The backlog document: items written as third-level headings, each with its value below.
use vstd::prelude::*;

use crate::matrix::{empty_to_none, non_empty};
use crate::text::{lines, lines_of, same_text, starts_with, strip_prefix_text, trim, trim_text};
use crate::token::{normalize_token, token, RiskLane};

verus! {

/// An item as the backlog document gives it.
#[derive(Debug)]
pub struct BacklogMarkdownItem {
    pub title: String,
    pub discovered_while: String,
    pub current_pain: String,
    pub suggested_improvement: String,
    pub risk: String,
    pub status: String,
}

/// The contents of a `BacklogMarkdownItem`.
pub struct BacklogEntry {
    pub title: Seq<char>,
    pub discovered_while: Seq<char>,
    pub current_pain: Seq<char>,
    pub suggested_improvement: Seq<char>,
    pub risk: Seq<char>,
    pub status: Seq<char>,
}

impl DeepView for BacklogMarkdownItem {
    type V = BacklogEntry;

    open spec fn deep_view(&self) -> BacklogEntry {
        BacklogEntry {
            title: self.title@,
            discovered_while: self.discovered_while@,
            current_pain: self.current_pain@,
            suggested_improvement: self.suggested_improvement@,
            risk: self.risk@,
            status: self.status@,
        }
    }
}

impl Default for BacklogMarkdownItem {
    fn default() -> (r: Self)
        ensures
            r.deep_view() == blank_entry(),
    {
        BacklogMarkdownItem {
            title: String::new(),
            discovered_while: String::new(),
            current_pain: String::new(),
            suggested_improvement: String::new(),
            risk: String::new(),
            status: String::new(),
        }
    }
}

pub open spec fn blank_entry() -> BacklogEntry {
    BacklogEntry {
        title: Seq::empty(),
        discovered_while: Seq::empty(),
        current_pain: Seq::empty(),
        suggested_improvement: Seq::empty(),
        risk: Seq::empty(),
        status: Seq::empty(),
    }
}

/// A field that keeps the first line written into it.
pub open spec fn filled(field: Seq<char>, line: Seq<char>) -> Seq<char> {
    if field.len() == 0 {
        line
    } else {
        field
    }
}

/// `entry` with `line` in the field that `heading` names, unless that field is taken. A
/// heading that names no field changes nothing.
pub open spec fn with_line(entry: BacklogEntry, heading: Seq<char>, line: Seq<char>) -> BacklogEntry {
    if heading == "title"@ {
        BacklogEntry { title: filled(entry.title, line), ..entry }
    } else if heading == "discovered_while"@ {
        BacklogEntry { discovered_while: filled(entry.discovered_while, line), ..entry }
    } else if heading == "current_pain"@ {
        BacklogEntry { current_pain: filled(entry.current_pain, line), ..entry }
    } else if heading == "suggested_improvement"@ {
        BacklogEntry { suggested_improvement: filled(entry.suggested_improvement, line), ..entry }
    } else if heading == "risk"@ {
        BacklogEntry { risk: filled(entry.risk, line), ..entry }
    } else if heading == "status"@ {
        BacklogEntry { status: filled(entry.status, line), ..entry }
    } else {
        entry
    }
}

/// How far the items of a backlog document have been read.
pub struct BacklogScan {
    /// Whether the heading of the items has been met.
    pub in_items: bool,
    /// The token of the heading below which the next line stands.
    pub heading: Seq<char>,
    /// The item that is being read.
    pub current: BacklogEntry,
    /// The items that have been read to their end.
    pub done: Seq<BacklogEntry>,
}

pub open spec fn scan_start() -> BacklogScan {
    BacklogScan {
        in_items: false,
        heading: Seq::empty(),
        current: blank_entry(),
        done: Seq::empty(),
    }
}

/// Reads one trimmed line. A title heading starts a new item once the current one has a
/// title.
pub open spec fn scan_line(scan: BacklogScan, line: Seq<char>) -> BacklogScan {
    if line == "## Items"@ {
        BacklogScan { in_items: true, heading: Seq::empty(), ..scan }
    } else if !scan.in_items {
        scan
    } else if starts_with(line, "### "@) {
        let heading = token(line.skip(4));
        if heading == "title"@ && scan.current.title.len() > 0 {
            BacklogScan {
                heading,
                current: blank_entry(),
                done: scan.done.push(scan.current),
                ..scan
            }
        } else {
            BacklogScan { heading, ..scan }
        }
    } else if line.len() == 0 {
        scan
    } else {
        BacklogScan { current: with_line(scan.current, scan.heading, line), ..scan }
    }
}

/// Reads the lines `ls` in order.
pub open spec fn scan_lines(ls: Seq<Seq<char>>) -> BacklogScan
    decreases ls.len(),
{
    if ls.len() == 0 {
        scan_start()
    } else {
        scan_line(scan_lines(ls.drop_last()), trim(ls.last()))
    }
}

/// The items of a backlog document. The last one ends with the document.
pub open spec fn backlog_entries(content: Seq<char>) -> Seq<BacklogEntry> {
    let scan = scan_lines(lines(content));
    if scan.current.title.len() > 0 {
        scan.done.push(scan.current)
    } else {
        scan.done
    }
}

pub open spec fn is_backlog_status(t: Seq<char>) -> bool {
    t == "proposed"@ || t == "accepted"@ || t == "implemented"@ || t == "rejected"@
}

/// The backlog status that `value` names; an item is proposed unless it says otherwise.
pub open spec fn backlog_status(value: Seq<char>) -> Seq<char> {
    if is_backlog_status(token(value)) {
        token(value)
    } else {
        "proposed"@
    }
}

/// The backlog status that `value` names.
pub fn normalize_backlog_status(value: &str) -> (r: String)
    ensures
        r@ == backlog_status(value@),
{
    let token = normalize_token(value);
    let t = token.as_str();
    if same_text(t, "proposed") || same_text(t, "accepted") || same_text(t, "implemented")
        || same_text(t, "rejected") {
        token
    } else {
        "proposed".to_owned()
    }
}

/// Writes `line` into `field`, unless the field is taken.
fn fill(field: &mut String, line: &str)
    ensures
        final(field)@ == filled(old(field)@, line@),
{
    if field.as_str().is_empty() {
        *field = line.to_owned();
    }
}

impl BacklogMarkdownItem {
    /// Writes `line` into the field that `heading` names, unless that field is taken.
    fn write(&mut self, heading: &str, line: &str)
        ensures
            final(self).deep_view() == with_line(old(self).deep_view(), heading@, line@),
    {
        if same_text(heading, "title") {
            fill(&mut self.title, line);
        } else if same_text(heading, "discovered_while") {
            fill(&mut self.discovered_while, line);
        } else if same_text(heading, "current_pain") {
            fill(&mut self.current_pain, line);
        } else if same_text(heading, "suggested_improvement") {
            fill(&mut self.suggested_improvement, line);
        } else if same_text(heading, "risk") {
            fill(&mut self.risk, line);
        } else if same_text(heading, "status") {
            fill(&mut self.status, line);
        }
    }
}

/// The items of a backlog document.
pub fn backlog_items(content: &str) -> (r: Vec<BacklogMarkdownItem>)
    ensures
        r.deep_view() == backlog_entries(content@),
{
    let all = lines_of(content);
    let ghost texts = lines(content@);
    let mut in_items: bool = false;
    let mut heading: String = String::new();
    let mut current = BacklogMarkdownItem::default();
    let mut items: Vec<BacklogMarkdownItem> = Vec::new();
    let mut i: usize = 0;
    assert(items.deep_view() =~= Seq::empty());
    proof {
        reveal_strlit("### ");
    }
    while i < all.len()
        invariant
            i <= all.len(),
            texts == all.deep_view(),
            scan_lines(texts.take(i as int)) == (BacklogScan {
                in_items,
                heading: heading@,
                current: current.deep_view(),
                done: items.deep_view(),
            }),
            "### "@.len() == 4,
        decreases all.len() - i,
    {
        let trimmed = trim_text(all[i].as_str());
        let line = trimmed.as_str();
        assert(texts.take(i + 1).drop_last() =~= texts.take(i as int));
        assert(texts.take(i + 1).last() == all[i as int]@);
        if same_text(line, "## Items") {
            in_items = true;
            heading = String::new();
        } else if in_items {
            match strip_prefix_text(line, "### ") {
                Some(rest) => {
                    heading = normalize_token(rest.as_str());
                    if same_text(heading.as_str(), "title") && !current.title.as_str().is_empty() {
                        let ghost before = items.deep_view();
                        let ghost read = current.deep_view();
                        items.push(current);
                        assert(items.deep_view() =~= before.push(read));
                        current = BacklogMarkdownItem::default();
                    }
                },
                None => {
                    if !line.is_empty() {
                        current.write(heading.as_str(), line);
                    }
                },
            }
        }
        i = i + 1;
    }
    assert(texts.take(i as int) =~= texts);
    if !current.title.as_str().is_empty() {
        let ghost before = items.deep_view();
        let ghost read = current.deep_view();
        items.push(current);
        assert(items.deep_view() =~= before.push(read));
    }
    items
}

/// A backlog item to be stored.
#[derive(Debug)]
pub struct BacklogImport {
    pub title: String,
    pub discovered_while: Option<String>,
    pub current_pain: Option<String>,
    pub suggested_improvement: Option<String>,
    pub risk: Option<RiskLane>,
    pub status: String,
}

/// The contents of a `BacklogImport`.
pub struct BacklogRow {
    pub title: Seq<char>,
    pub discovered_while: Option<Seq<char>>,
    pub current_pain: Option<Seq<char>>,
    pub suggested_improvement: Option<Seq<char>>,
    pub risk: Option<RiskLane>,
    pub status: Seq<char>,
}

impl DeepView for BacklogImport {
    type V = BacklogRow;

    open spec fn deep_view(&self) -> BacklogRow {
        BacklogRow {
            title: self.title@,
            discovered_while: self.discovered_while.deep_view(),
            current_pain: self.current_pain.deep_view(),
            suggested_improvement: self.suggested_improvement.deep_view(),
            risk: self.risk,
            status: self.status@,
        }
    }
}

/// What is stored of `entry`. An entry without a title, and the one that the template of the
/// document holds, is not stored; a risk that names no lane is left out.
pub open spec fn backlog_row(entry: BacklogEntry) -> Option<BacklogRow> {
    if entry.title.len() == 0 || entry.title == "Short name."@ {
        None
    } else {
        Some(
            BacklogRow {
                title: entry.title,
                discovered_while: non_empty(entry.discovered_while),
                current_pain: non_empty(entry.current_pain),
                suggested_improvement: non_empty(entry.suggested_improvement),
                risk: RiskLane::named(entry.risk),
                status: backlog_status(entry.status),
            },
        )
    }
}

/// What is stored of the backlog document `content`.
pub open spec fn backlog_rows(content: Seq<char>) -> Seq<BacklogRow> {
    backlog_entries(content).filter_map(|entry: BacklogEntry| backlog_row(entry))
}

/// What is stored of `item`.
fn import_item(item: BacklogMarkdownItem) -> (r: Option<BacklogImport>)
    ensures
        r.deep_view() == backlog_row(item.deep_view()),
{
    if item.title.as_str().is_empty() || same_text(item.title.as_str(), "Short name.") {
        return None;
    }
    let risk = RiskLane::from_name(item.risk.as_str());
    let status = normalize_backlog_status(item.status.as_str());
    Some(
        BacklogImport {
            title: item.title,
            discovered_while: empty_to_none(item.discovered_while),
            current_pain: empty_to_none(item.current_pain),
            suggested_improvement: empty_to_none(item.suggested_improvement),
            risk,
            status,
        },
    )
}

/// What is stored of the backlog document `content`.
pub fn import_backlog(content: &str) -> (r: Vec<BacklogImport>)
    ensures
        r.deep_view() == backlog_rows(content@),
{
    let items = backlog_items(content);
    let ghost all = items.deep_view();
    let ghost row = |entry: BacklogEntry| backlog_row(entry);
    let mut r: Vec<BacklogImport> = Vec::new();
    assert(r.deep_view() =~= all.take(0).filter_map(row));
    for item in it: items
        invariant
            row == (|entry: BacklogEntry| backlog_row(entry)),
            all == items.deep_view(),
            it.seq() == items@,
            r.deep_view() == all.take(it.index() as int).filter_map(row),
    {
        let ghost before = r.deep_view();
        let ghost i = it.index() as int;
        let ghost entry = item.deep_view();
        assert(entry == all[i]);
        assert(all.take(i + 1).drop_last() =~= all.take(i));
        assert(all.take(i + 1).last() == entry);
        if let Some(found) = import_item(item) {
            r.push(found);
            assert(r.deep_view() =~= before.push(found.deep_view()));
        }
    }
    assert(all.take(all.len() as int) =~= all);
    r
}

} // verus!
