//! How the backlog document is read, line by line.
use vstd::prelude::*;

use crate::backlog::{
    backlog_entries, backlog_row, backlog_rows, backlog_status, scan_line, scan_lines, BacklogEntry,
    BacklogImport, BacklogMarkdownItem, BacklogScan,
};
use crate::text::{lines, starts_with, trim};
use crate::token::{token, RiskLane};

verus! {

/// A backlog status is read as the one that it names, and anything else as "proposed".
pub proof fn law_backlog_status_is_read_by_name(value: Seq<char>)
    ensures
        token(value) == "proposed"@ ==> backlog_status(value) == "proposed"@,
        token(value) == "accepted"@ ==> backlog_status(value) == "accepted"@,
        token(value) == "implemented"@ ==> backlog_status(value) == "implemented"@,
        token(value) == "rejected"@ ==> backlog_status(value) == "rejected"@,
        token(value) != "accepted"@ && token(value) != "implemented"@ && token(value)
            != "rejected"@ ==> backlog_status(value) == "proposed"@,
{
}

/// Whether an item has nothing in it yet.
pub open spec fn is_unwritten(entry: BacklogEntry) -> bool {
    &&& entry.title.len() == 0
    &&& entry.discovered_while.len() == 0
    &&& entry.current_pain.len() == 0
    &&& entry.suggested_improvement.len() == 0
    &&& entry.risk.len() == 0
    &&& entry.status.len() == 0
}

/// A document is read line by line, from a state in which no item has begun.
pub proof fn law_lines_are_read_in_order(ls: Seq<Seq<char>>, line: Seq<char>)
    ensures
        ({
            let start = scan_lines(Seq::empty());
            &&& !start.in_items
            &&& start.done.len() == 0
            &&& is_unwritten(start.current)
        }),
        scan_lines(ls.push(line)) == scan_line(scan_lines(ls), trim(line)),
{
    assert(ls.push(line).drop_last() =~= ls);
}

/// The items begin at the line "## Items". Nothing before it is read.
pub proof fn law_items_begin_at_their_heading(scan: BacklogScan, line: Seq<char>)
    ensures
        line == "## Items"@ ==> {
            &&& scan_line(scan, line).in_items
            &&& scan_line(scan, line).heading.len() == 0
            &&& scan_line(scan, line).current == scan.current
            &&& scan_line(scan, line).done == scan.done
        },
        line != "## Items"@ ==> scan_line(scan, line).in_items == scan.in_items,
        line != "## Items"@ && !scan.in_items ==> scan_line(scan, line) == scan,
{
}

/// A heading of the third level says what the lines below it are. A title begins a new item where
/// the last one has a title already, and any other heading leaves the item as it is.
pub proof fn law_headings_name_what_follows(scan: BacklogScan, rest: Seq<char>)
    requires
        scan.in_items,
    ensures
        ({
            let next = scan_line(scan, seq!['#', '#', '#', ' '] + rest);
            &&& next.heading == token(rest)
            &&& token(rest) == "title"@ && scan.current.title.len() > 0 ==> {
                &&& next.done == scan.done.push(scan.current)
                &&& is_unwritten(next.current)
            }
            &&& token(rest) != "title"@ || scan.current.title.len() == 0 ==> {
                &&& next.done == scan.done
                &&& next.current == scan.current
            }
        }),
{
    reveal_strlit("### ");
    reveal_strlit("## Items");
    let line = seq!['#', '#', '#', ' '] + rest;
    assert(line[2] != "## Items"@[2]);
    assert(line.subrange(0, 4) =~= "### "@);
    assert(line.skip(4) =~= rest);
}

/// Whether `line` is a value: neither blank nor a heading that is read.
pub open spec fn is_value_line(line: Seq<char>) -> bool {
    line.len() > 0 && line != "## Items"@ && !starts_with(line, "### "@)
}

/// Whether `new` is what `old` was, or else `line` where there was nothing.
pub open spec fn takes(new: Seq<char>, old: Seq<char>, line: Seq<char>) -> bool {
    &&& old.len() > 0 ==> new == old
    &&& old.len() == 0 ==> new == line
}

/// A value goes where the heading above it says, if nothing is there yet, and nowhere else.
pub proof fn law_values_go_below_their_headings(scan: BacklogScan, line: Seq<char>)
    requires
        scan.in_items,
        is_value_line(line),
    ensures
        ({
            let now = scan.current;
            let next = scan_line(scan, line).current;
            &&& if scan.heading == "title"@ {
                takes(next.title, now.title, line)
            } else {
                next.title == now.title
            }
            &&& if scan.heading == "discovered_while"@ {
                takes(next.discovered_while, now.discovered_while, line)
            } else {
                next.discovered_while == now.discovered_while
            }
            &&& if scan.heading == "current_pain"@ {
                takes(next.current_pain, now.current_pain, line)
            } else {
                next.current_pain == now.current_pain
            }
            &&& if scan.heading == "suggested_improvement"@ {
                takes(next.suggested_improvement, now.suggested_improvement, line)
            } else {
                next.suggested_improvement == now.suggested_improvement
            }
            &&& if scan.heading == "risk"@ {
                takes(next.risk, now.risk, line)
            } else {
                next.risk == now.risk
            }
            &&& if scan.heading == "status"@ {
                takes(next.status, now.status, line)
            } else {
                next.status == now.status
            }
        }),
        scan_line(scan, line).heading == scan.heading,
        scan_line(scan, line).done == scan.done,
{
    reveal_strlit("title");
    reveal_strlit("discovered_while");
    reveal_strlit("current_pain");
    reveal_strlit("suggested_improvement");
    reveal_strlit("risk");
    reveal_strlit("status");
    assert("title"@.len() == 5);
    assert("discovered_while"@.len() == 16);
    assert("current_pain"@.len() == 12);
    assert("suggested_improvement"@.len() == 21);
    assert("risk"@.len() == 4);
    assert("status"@.len() == 6);
}

/// A blank line is passed over.
pub proof fn law_blank_lines_say_nothing(scan: BacklogScan)
    ensures
        scan_line(scan, Seq::empty()) == scan,
{
    reveal_strlit("## Items");
    reveal_strlit("### ");
}

/// The items of a document are those that were read to their end, and the last one, where it has a
/// title.
pub proof fn law_last_item_ends_with_the_document(content: Seq<char>)
    ensures
        ({
            let scan = scan_lines(lines(content));
            &&& scan.current.title.len() > 0 ==> backlog_entries(content) == scan.done.push(
                scan.current,
            )
            &&& scan.current.title.len() == 0 ==> backlog_entries(content) == scan.done
        }),
{
}

/// Whether `stored` is `text`, or nothing where that is empty.
pub open spec fn stores(stored: Option<Seq<char>>, text: Seq<char>) -> bool {
    &&& text.len() > 0 ==> stored == Some(text)
    &&& text.len() == 0 ==> stored is None
}

/// An item is stored, field by field, where it has a title other than that of the template.
pub proof fn law_items_are_stored_field_by_field(entry: BacklogEntry)
    ensures
        backlog_row(entry) is Some <==> entry.title.len() > 0 && entry.title != "Short name."@,
        backlog_row(entry) is Some ==> {
            let row = backlog_row(entry)->0;
            &&& row.title == entry.title
            &&& stores(row.discovered_while, entry.discovered_while)
            &&& stores(row.current_pain, entry.current_pain)
            &&& stores(row.suggested_improvement, entry.suggested_improvement)
            &&& row.risk == Some(RiskLane::Tiny) <==> token(entry.risk) == "tiny"@
            &&& row.risk == Some(RiskLane::Normal) <==> token(entry.risk) == "normal"@
            &&& row.risk == Some(RiskLane::HighRisk) <==> token(entry.risk) == "high_risk"@
            &&& row.status == backlog_status(entry.status)
        },
{
    reveal_strlit("tiny");
    reveal_strlit("normal");
    reveal_strlit("high_risk");
    assert("tiny"@[0] != "normal"@[0]);
    assert("tiny"@[0] != "high_risk"@[0]);
    assert("normal"@[0] != "high_risk"@[0]);
}

/// What is stored of a document is what is stored of its items, in their order.
pub proof fn law_items_are_stored_in_order(
    content: Seq<char>,
    more: Seq<char>,
    entry: BacklogEntry,
)
    ensures
        backlog_entries(content).len() == 0 ==> backlog_rows(content).len() == 0,
        backlog_entries(more) == backlog_entries(content).push(entry) ==> backlog_rows(more)
            == if backlog_row(entry) is Some {
            backlog_rows(content).push(backlog_row(entry)->0)
        } else {
            backlog_rows(content)
        },
{
    let all = backlog_entries(more);
    if all == backlog_entries(content).push(entry) {
        let stored = |entry: BacklogEntry| backlog_row(entry);
        all.lemma_filter_map_take_succ(stored, all.len() - 1);
        assert(all.take(all.len() as int) =~= all);
        assert(all.take(all.len() - 1) =~= backlog_entries(content));
    }
}

/// The contents of an item are its fields, each under its own name.
pub proof fn law_item_contents(item: BacklogMarkdownItem, stored: BacklogImport)
    ensures
        item.deep_view().title == item.title@,
        item.deep_view().discovered_while == item.discovered_while@,
        item.deep_view().current_pain == item.current_pain@,
        item.deep_view().suggested_improvement == item.suggested_improvement@,
        item.deep_view().risk == item.risk@,
        item.deep_view().status == item.status@,
        stored.deep_view().title == stored.title@,
        stored.deep_view().discovered_while == stored.discovered_while.deep_view(),
        stored.deep_view().current_pain == stored.current_pain.deep_view(),
        stored.deep_view().suggested_improvement == stored.suggested_improvement.deep_view(),
        stored.deep_view().risk == stored.risk,
        stored.deep_view().status == stored.status@,
{
}

} // verus!
