//! What the statements do to the tables of tools, backlog items and traces, and what follows.
use vstd::prelude::*;

use crate::backlog::is_backlog_status;
use crate::backlog_table::BacklogFilter;
use crate::decision::text_le;
use crate::error::{HarnessInfraError, Result};
use crate::statement::{SqlData, SqlStatement, SqlText};
use crate::tool::{is_registration, is_removal, ToolRegisterInput};
use crate::trace::trace_outcome;

verus! {

/// The registered tools: by name, the statement that registered each.
pub type Registry = Map<Seq<char>, SqlText>;

/// The command that `FIND_TOOL_COMMAND` finds for the tool `name`.
pub open spec fn command_in(registry: Registry, name: Seq<char>) -> Option<SqlData> {
    if registry.dom().contains(name) {
        Some(registry[name].params[1])
    } else {
        None
    }
}

/// The registered tools once `REGISTER_TOOL` was run for `input`.
pub open spec fn with_tool(registry: Registry, input: ToolRegisterInput) -> Registry {
    registry.insert(input.name@, input.registration())
}

/// The registered tools once `REMOVE_TOOL` was run for `name`.
pub open spec fn without_tool(registry: Registry, name: Seq<char>) -> Registry {
    registry.remove(name)
}

/// How many rows `REMOVE_TOOL` changes for `name`: a name is the key of its row.
pub open spec fn rows_removed(registry: Registry, name: Seq<char>) -> nat {
    if registry.dom().contains(name) {
        1
    } else {
        0
    }
}

/// A tool whose name is free is registered; to register it again is refused with the command that
/// it has. Its removal succeeds and leaves the registry as it was before, and a further removal
/// is refused and changes nothing.
pub proof fn law_removal_undoes_registration(registry: Registry, input: ToolRegisterInput)
    requires
        !registry.dom().contains(input.name@),
    ensures
        command_in(registry, input.name@) is None,
        forall|r: Result<SqlStatement>| #[trigger]
            is_registration(input, None, r) ==> r is Ok && r->Ok_0.deep_view()
                == with_tool(registry, input)[input.name@],
        command_in(with_tool(registry, input), input.name@) == Some(SqlData::Text(input.command@)),
        forall|command: String, r: Result<SqlStatement>| #[trigger]
            is_registration(input, Some(command), r) ==> r == Err::<
                SqlStatement,
                HarnessInfraError,
            >(HarnessInfraError::ToolAlreadyExists(input.name, command)),
        forall|r: Result<()>| #[trigger]
            is_removal(
                input.name@,
                rows_removed(with_tool(registry, input), input.name@),
                r,
            ) ==> r == Ok::<(), HarnessInfraError>(()),
        without_tool(with_tool(registry, input), input.name@) == registry,
        forall|r: Result<()>| #[trigger]
            is_removal(input.name@, rows_removed(registry, input.name@), r) ==> (r matches Err(
                HarnessInfraError::ToolNotFound(missing),
            ) && missing@ == input.name@),
        without_tool(registry, input.name@) == registry,
{
    let name = input.name@;
    assert(without_tool(with_tool(registry, input), name) =~= registry);
    assert(without_tool(registry, name) =~= registry);
}

/// A row of the table of backlog items, as far as the filters go.
pub struct BacklogLine {
    pub id: int,
    pub status: Seq<char>,
}

impl BacklogFilter {
    /// Whether the query for this filter lists an item with this status.
    pub open spec fn admits(self, status: Seq<char>) -> bool {
        match self {
            BacklogFilter::All => true,
            BacklogFilter::Open => status == "proposed"@ || status == "accepted"@,
            BacklogFilter::Closed => status == "implemented"@ || status == "rejected"@,
        }
    }
}

/// What holds of the rows that the query for `filter` lists.
pub open spec fn is_listed(filter: BacklogFilter) -> spec_fn(BacklogLine) -> bool {
    |line: BacklogLine| filter.admits(line.status)
}

/// Whether `a` comes before `b`, or in its place, by status and then by number.
pub open spec fn comes_first(a: BacklogLine, b: BacklogLine) -> bool {
    text_le(a.status, b.status) && (a.status == b.status ==> a.id <= b.id)
}

/// Whether `list` is what the query for `filter` gives of the table: the rows that the filter
/// admits, each once, by status and then by number.
pub open spec fn is_listing(
    table: Seq<BacklogLine>,
    filter: BacklogFilter,
    list: Seq<BacklogLine>,
) -> bool {
    &&& list.to_multiset() == table.filter(is_listed(filter)).to_multiset()
    &&& forall|i: int, j: int|
        0 <= i < j < list.len() ==> comes_first(#[trigger] list[i], #[trigger] list[j])
}

proof fn lemma_filters_partition(table: Seq<BacklogLine>)
    requires
        forall|i: int| 0 <= i < table.len() ==> is_backlog_status((#[trigger] table[i]).status),
    ensures
        table.filter(is_listed(BacklogFilter::All)) == table,
        table.filter(is_listed(BacklogFilter::Open)).to_multiset().add(
            table.filter(is_listed(BacklogFilter::Closed)).to_multiset(),
        ) == table.to_multiset(),
    decreases table.len(),
{
    let all = is_listed(BacklogFilter::All);
    let open = is_listed(BacklogFilter::Open);
    let closed = is_listed(BacklogFilter::Closed);
    reveal(Seq::filter);
    if table.len() > 0 {
        let rest = table.drop_last();
        let last = table.last();
        assert forall|i: int| 0 <= i < rest.len() implies is_backlog_status(
            (#[trigger] rest[i]).status,
        ) by {
            assert(rest[i] == table[i]);
        }
        lemma_filters_partition(rest);
        assert(table =~= rest.push(last));
        rest.lemma_filter_push(last, open);
        rest.lemma_filter_push(last, closed);
        vstd::seq_lib::to_multiset_build(rest, last);
        vstd::seq_lib::to_multiset_build(rest.filter(open), last);
        vstd::seq_lib::to_multiset_build(rest.filter(closed), last);
        assert(is_backlog_status(table[table.len() - 1].status));
        reveal_strlit("proposed");
        reveal_strlit("accepted");
        reveal_strlit("implemented");
        reveal_strlit("rejected");
        assert("proposed"@[0] != "implemented"@[0] && "proposed"@[0] != "rejected"@[0]);
        assert("accepted"@[0] != "implemented"@[0] && "accepted"@[0] != "rejected"@[0]);
        assert(open(last) != closed(last));
        assert(table.filter(open).to_multiset().add(table.filter(closed).to_multiset())
            =~= rest.filter(open).to_multiset().add(rest.filter(closed).to_multiset()).insert(last));
    } else {
        assert(table.filter(open) =~= table && table.filter(closed) =~= table);
        table.to_multiset_ensures();
        assert(table.to_multiset().add(table.to_multiset()) =~= table.to_multiset());
    }
}

proof fn lemma_listed_is_admitted(
    table: Seq<BacklogLine>,
    filter: BacklogFilter,
    list: Seq<BacklogLine>,
    i: int,
)
    requires
        is_listing(table, filter, list),
        0 <= i < list.len(),
    ensures
        filter.admits(list[i].status),
{
    let kept = table.filter(is_listed(filter));
    list.to_multiset_ensures();
    kept.to_multiset_ensures();
    assert(list.contains(list[i]));
    assert(list.to_multiset().count(list[i]) > 0);
    assert(kept.to_multiset().count(list[i]) > 0);
    assert(kept.contains(list[i]));
    let k = choose|k: int| 0 <= k < kept.len() && kept[k] == list[i];
    table.lemma_filter_pred(is_listed(filter), k);
}

/// The open items are those that are proposed or accepted, the closed ones those that are
/// implemented or rejected; together they are all items, each once. Every list goes by status and
/// then by number.
pub proof fn law_open_and_closed_make_up_the_backlog(
    table: Seq<BacklogLine>,
    all: Seq<BacklogLine>,
    open: Seq<BacklogLine>,
    closed: Seq<BacklogLine>,
)
    requires
        forall|i: int| 0 <= i < table.len() ==> is_backlog_status((#[trigger] table[i]).status),
        is_listing(table, BacklogFilter::All, all),
        is_listing(table, BacklogFilter::Open, open),
        is_listing(table, BacklogFilter::Closed, closed),
    ensures
        all.to_multiset() == table.to_multiset(),
        open.to_multiset().add(closed.to_multiset()) == all.to_multiset(),
        forall|i: int|
            0 <= i < open.len() ==> (#[trigger] open[i]).status == "proposed"@ || open[i].status
                == "accepted"@,
        forall|i: int|
            0 <= i < closed.len() ==> (#[trigger] closed[i]).status == "implemented"@
                || closed[i].status == "rejected"@,
{
    lemma_filters_partition(table);
    assert forall|i: int| 0 <= i < open.len() implies (#[trigger] open[i]).status == "proposed"@
        || open[i].status == "accepted"@ by {
        lemma_listed_is_admitted(table, BacklogFilter::Open, open, i);
    }
    assert forall|i: int| 0 <= i < closed.len() implies (#[trigger] closed[i]).status
        == "implemented"@ || closed[i].status == "rejected"@ by {
        lemma_listed_is_admitted(table, BacklogFilter::Closed, closed, i);
    }
}

/// A row of the table of traces: the intake that it belongs to, and its other columns.
pub struct TraceLine<T> {
    pub intake_id: Option<i64>,
    pub columns: T,
}

/// What is found of a trace: its number, its columns, and the lane of its intake.
pub struct FoundTrace<T> {
    pub id: i64,
    pub columns: T,
    pub risk_lane: Option<Seq<char>>,
}

/// What is found of the trace with the number `id`. A trace without an intake has no lane.
pub open spec fn joined<T>(
    traces: Map<i64, TraceLine<T>>,
    lanes: Map<i64, Seq<char>>,
    id: i64,
) -> FoundTrace<T> {
    FoundTrace {
        id,
        columns: traces[id].columns,
        risk_lane: match traces[id].intake_id {
            Some(intake) => if lanes.dom().contains(intake) {
                Some(lanes[intake])
            } else {
                None
            },
            None => None,
        },
    }
}

/// Whether `id` is the greatest number of a trace.
pub open spec fn is_last<T>(traces: Map<i64, TraceLine<T>>, id: i64) -> bool {
    &&& traces.dom().contains(id)
    &&& forall|other: i64| #[trigger] traces.dom().contains(other) ==> other <= id
}

/// Whether `found` is what the statement for `id` finds: the trace of that number, or the one with
/// the greatest.
pub open spec fn is_search<T>(
    traces: Map<i64, TraceLine<T>>,
    lanes: Map<i64, Seq<char>>,
    id: Option<i64>,
    found: Option<FoundTrace<T>>,
) -> bool {
    match id {
        Some(id) => found == if traces.dom().contains(id) {
            Some(joined(traces, lanes, id))
        } else {
            None
        },
        None => match found {
            Some(row) => is_last(traces, row.id) && row == joined(traces, lanes, row.id),
            None => forall|other: i64| !(#[trigger] traces.dom().contains(other)),
        },
    }
}

proof fn lemma_last_exists<T>(traces: Map<i64, TraceLine<T>>, some: i64, bound: i64)
    requires
        traces.dom().contains(some),
        forall|other: i64| #[trigger] traces.dom().contains(other) ==> other <= bound,
    ensures
        exists|id: i64| is_last(traces, id),
    decreases bound - some,
{
    if traces.dom().contains(bound) {
        assert(is_last(traces, bound));
    } else {
        lemma_last_exists(traces, some, (bound - 1) as i64);
    }
}

/// There is a last trace unless there is none at all.
pub proof fn law_some_trace_is_last<T>(traces: Map<i64, TraceLine<T>>, some: i64)
    requires
        traces.dom().contains(some),
    ensures
        exists|id: i64| is_last(traces, id),
{
    lemma_last_exists(traces, some, i64::MAX);
}

/// A search for the last trace and one for the trace with the greatest number come to the same. The
/// first says that there are no traces exactly where there are none; one for a number says that
/// the trace is not there exactly where it is not. A trace without an intake has no lane.
pub proof fn law_last_trace_has_the_greatest_number<T>(
    traces: Map<i64, TraceLine<T>>,
    lanes: Map<i64, Seq<char>>,
    id: i64,
    last: Option<FoundTrace<T>>,
    specific: Option<FoundTrace<T>>,
)
    requires
        is_search(traces, lanes, None, last),
        is_search(traces, lanes, Some(id), specific),
    ensures
        is_last(traces, id) ==> {
            &&& last is Some
            &&& last->0.id == id
            &&& trace_outcome(None, last) == trace_outcome(Some(id), specific)
        },
        trace_outcome(None, last) == Err::<FoundTrace<T>, HarnessInfraError>(
            HarnessInfraError::NoTraces,
        ) <==> traces.dom() == Set::<i64>::empty(),
        trace_outcome(Some(id), specific) == Err::<FoundTrace<T>, HarnessInfraError>(
            HarnessInfraError::TraceNotFound(id),
        ) <==> !traces.dom().contains(id),
        specific is Some && traces[id].intake_id is None ==> specific->0.risk_lane is None,
{
    if last is None {
        assert(traces.dom() =~= Set::<i64>::empty());
    } else {
        assert(traces.dom().contains(last->0.id));
        assert(!Set::<i64>::empty().contains(last->0.id));
    }
}

} // verus!
