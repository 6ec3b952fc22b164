//! What is proposed of which records, and in which words.
use vstd::prelude::*;
use vstd::utf8::{decode_utf8, encode_utf8, is_char_boundary};

use crate::audit::AuditResult;
use crate::laws::{lemma_encode_concat, lemma_rising};
use crate::number::decimal;
use crate::proposal::{
    cleanup, counted, friction_proposal, has_short_title, intervention_proposal, leads_group,
    proposals, repeated, tally, title_of, ImprovementProposal, Proposal,
};
use crate::text::{join, words};
use crate::token::token;

verus! {

/// Whether no proposal of `list` has `title`.
pub open spec fn lacks_title(list: Seq<Proposal>, title: Seq<char>) -> bool {
    forall|i: int| 0 <= i < list.len() ==> (#[trigger] list[i]).title != title
}

/// Whether `proposal` is to clean up `found` findings of `category`, in so many words.
pub open spec fn cleans_up(proposal: Proposal, category: Seq<char>, found: nat) -> bool {
    &&& proposal.title == "Clean up "@ + category
    &&& proposal.component == "Entropy auditing"@
    &&& proposal.evidence == "Audit found "@ + decimal(found) + " "@ + category + "."@
    &&& proposal.predicted_impact == "Lower entropy score and stronger completion evidence."@
    &&& proposal.risk == "tiny"@
    &&& proposal.suggested_action
        == "Resolve the listed audit findings or record why they are intentionally retained."@
    &&& proposal.validation_plan
        == "Run harness-cli audit and confirm the category count decreases."@
    &&& proposal.confidence == "low"@
    &&& proposal.committed_backlog_id is None
}

/// Whether `list` holds a proposal to clean up `category` exactly where there are findings of it,
/// holds one only, and gives their number as its evidence.
pub open spec fn reports_drift(list: Seq<Proposal>, category: Seq<char>, found: nat) -> bool {
    &&& found == 0 <==> lacks_title(list, "Clean up "@ + category)
    &&& forall|i: int|
        0 <= i < list.len() && (#[trigger] list[i]).title == "Clean up "@ + category ==> cleans_up(
            list[i],
            category,
            found,
        )
    &&& forall|i: int, j: int|
        0 <= i < j < list.len() && (#[trigger] list[i]).title == "Clean up "@ + category ==> (
        #[trigger] list[j]).title != "Clean up "@ + category
}

proof fn lemma_drift_between(
    first: Seq<Proposal>,
    category: Seq<char>,
    found: nat,
    last: Seq<Proposal>,
)
    requires
        lacks_title(first, "Clean up "@ + category),
        lacks_title(last, "Clean up "@ + category),
    ensures
        reports_drift(first + cleanup(category, found) + last, category, found),
{
    let title = "Clean up "@ + category;
    let list = first + cleanup(category, found) + last;
    assert forall|i: int| 0 <= i < list.len() && i != first.len() implies (#[trigger] list[i]).title
        != title || found == 0 by {
        if i < first.len() {
            assert(list[i] == first[i]);
        } else if found > 0 {
            assert(list[i] == last[i - first.len() - 1]);
        }
    }
    if found == 0 {
        assert forall|i: int| 0 <= i < list.len() implies (#[trigger] list[i]).title != title by {
            if i < first.len() {
                assert(list[i] == first[i]);
            } else {
                assert(list[i] == last[i - first.len()]);
            }
        }
    } else {
        let at = first.len() as int;
        assert(list[at].title == title);
        assert(cleans_up(list[at], category, found));
    }
}

proof fn lemma_lacks_both(a: Seq<Proposal>, b: Seq<Proposal>, title: Seq<char>)
    requires
        lacks_title(a, title),
        lacks_title(b, title),
    ensures
        lacks_title(a + b, title),
{
    assert forall|i: int| 0 <= i < (a + b).len() implies (#[trigger] (a + b)[i]).title != title by {
        if i < a.len() {
            assert((a + b)[i] == a[i]);
        } else {
            assert((a + b)[i] == b[i - a.len()]);
        }
    }
}

proof fn lemma_other_category(category: Seq<char>, found: nat, other: Seq<char>)
    requires
        category.len() != other.len(),
    ensures
        lacks_title(cleanup(category, found), "Clean up "@ + other),
{
    assert(("Clean up "@ + category).len() != ("Clean up "@ + other).len());
}

proof fn lemma_recurring_are_no_cleanups(
    friction: Seq<(Seq<char>, nat)>,
    interventions: Seq<(Seq<char>, nat)>,
    category: Seq<char>,
)
    ensures
        lacks_title(
            friction.map_values(|group: (Seq<char>, nat)| friction_proposal(group))
                + interventions.map_values(|group: (Seq<char>, nat)| intervention_proposal(group)),
            "Clean up "@ + category,
        ),
{
    reveal_strlit("Clean up ");
    reveal_strlit("Reduce repeated friction: ");
    reveal_strlit("Address repeated intervention: ");
    let a = friction.map_values(|group: (Seq<char>, nat)| friction_proposal(group));
    let b = interventions.map_values(|group: (Seq<char>, nat)| intervention_proposal(group));
    let title = "Clean up "@ + category;
    assert(title[0] == 'C');
    assert forall|i: int| 0 <= i < (a + b).len() implies (#[trigger] (a + b)[i]).title != title by {
        if i < a.len() {
            assert((a + b)[i] == friction_proposal(friction[i]));
            assert((a + b)[i].title[0] == 'R');
        } else {
            assert((a + b)[i] == intervention_proposal(interventions[i - a.len()]));
            assert((a + b)[i].title[0] == 'A');
        }
    }
}

/// Each kind of drift is proposed to be cleaned up exactly where the audit's list of that very
/// kind is not empty, once, and with the length of that list as the evidence.
pub proof fn law_drift_is_proposed_by_its_own_list(
    friction: Seq<(Seq<char>, nat)>,
    interventions: Seq<(Seq<char>, nat)>,
    audit: AuditResult,
)
    ensures
        ({
            let list = proposals(friction, interventions, audit);
            &&& reports_drift(
                list,
                "orphaned planned or in-progress stories"@,
                audit.orphaned_stories@.len(),
            )
            &&& reports_drift(
                list,
                "unverified story commands"@,
                audit.unverified_stories@.len(),
            )
            &&& reports_drift(
                list,
                "unverified decision commands"@,
                audit.unverified_decisions@.len(),
            )
            &&& reports_drift(
                list,
                "implemented backlog items without outcomes"@,
                audit.backlog_without_outcomes@.len(),
            )
            &&& reports_drift(list, "stale unfinished stories"@, audit.stale_stories@.len())
            &&& reports_drift(list, "broken registered tools"@, audit.broken_tools@.len())
        }),
{
    reveal_strlit("orphaned planned or in-progress stories");
    reveal_strlit("unverified story commands");
    reveal_strlit("unverified decision commands");
    reveal_strlit("implemented backlog items without outcomes");
    reveal_strlit("stale unfinished stories");
    reveal_strlit("broken registered tools");
    let list = proposals(friction, interventions, audit);
    let names = seq![
        "orphaned planned or in-progress stories"@,
        "unverified story commands"@,
        "unverified decision commands"@,
        "implemented backlog items without outcomes"@,
        "stale unfinished stories"@,
        "broken registered tools"@,
    ];
    let counts = seq![
        audit.orphaned_stories@.len(),
        audit.unverified_stories@.len(),
        audit.unverified_decisions@.len(),
        audit.backlog_without_outcomes@.len(),
        audit.stale_stories@.len(),
        audit.broken_tools@.len(),
    ];
    let recurring = friction.map_values(|group: (Seq<char>, nat)| friction_proposal(group))
        + interventions.map_values(|group: (Seq<char>, nat)| intervention_proposal(group));
    assert forall|k: int| 0 <= k < 6 implies reports_drift(
        list,
        #[trigger] names[k],
        counts[k],
    ) by {
        lemma_recurring_are_no_cleanups(friction, interventions, names[k]);
        lemma_parts(names, counts, k, 0, k);
        lemma_parts(names, counts, k, k + 1, 6);
        let first = recurring + part(names, counts, 0, k);
        let last = part(names, counts, k + 1, 6);
        lemma_lacks_both(recurring, part(names, counts, 0, k), "Clean up "@ + names[k]);
        lemma_drift_between(first, names[k], counts[k], last);
        lemma_part_split(names, counts, k);
        lemma_whole(names, counts);
        assert(list =~= first + cleanup(names[k], counts[k]) + last);
    }
    assert(reports_drift(list, names[0], counts[0]));
    assert(reports_drift(list, names[1], counts[1]));
    assert(reports_drift(list, names[2], counts[2]));
    assert(reports_drift(list, names[3], counts[3]));
    assert(reports_drift(list, names[4], counts[4]));
    assert(reports_drift(list, names[5], counts[5]));
}

/// What is proposed for the categories from `from` to `to`.
spec fn part(names: Seq<Seq<char>>, counts: Seq<nat>, from: int, to: int) -> Seq<Proposal>
    decreases to - from,
{
    if from < to {
        part(names, counts, from, to - 1) + cleanup(names[to - 1], counts[to - 1])
    } else {
        Seq::empty()
    }
}

proof fn lemma_parts(names: Seq<Seq<char>>, counts: Seq<nat>, k: int, from: int, to: int)
    requires
        0 <= from,
        to <= names.len(),
        0 <= k < names.len(),
        k < from || to <= k,
        forall|i: int, j: int|
            0 <= i < j < names.len() ==> (#[trigger] names[i]).len() != (#[trigger] names[j]).len(),
    ensures
        lacks_title(part(names, counts, from, to), "Clean up "@ + names[k]),
    decreases to - from,
{
    if from < to {
        lemma_parts(names, counts, k, from, to - 1);
        assert(names[to - 1].len() != names[k].len());
        lemma_other_category(names[to - 1], counts[to - 1], names[k]);
        lemma_lacks_both(
            part(names, counts, from, to - 1),
            cleanup(names[to - 1], counts[to - 1]),
            "Clean up "@ + names[k],
        );
    }
}

proof fn lemma_part_from(names: Seq<Seq<char>>, counts: Seq<nat>, k: int, to: int)
    requires
        0 <= k < to,
    ensures
        part(names, counts, 0, to) == part(names, counts, 0, k) + cleanup(names[k], counts[k])
            + part(names, counts, k + 1, to),
    decreases to,
{
    if k < to - 1 {
        lemma_part_from(names, counts, k, to - 1);
    }
    assert(part(names, counts, 0, to) =~= part(names, counts, 0, k) + cleanup(names[k], counts[k])
        + part(names, counts, k + 1, to));
}

proof fn lemma_part_split(names: Seq<Seq<char>>, counts: Seq<nat>, k: int)
    requires
        0 <= k < 6,
    ensures
        part(names, counts, 0, 6) == part(names, counts, 0, k) + cleanup(names[k], counts[k])
            + part(names, counts, k + 1, 6),
{
    lemma_part_from(names, counts, k, 6);
}

proof fn lemma_whole(names: Seq<Seq<char>>, counts: Seq<nat>)
    ensures
        part(names, counts, 0, 6) == cleanup(names[0], counts[0]) + cleanup(names[1], counts[1])
            + cleanup(names[2], counts[2]) + cleanup(names[3], counts[3]) + cleanup(
            names[4],
            counts[4],
        ) + cleanup(names[5], counts[5]),
{
    reveal_with_fuel(part, 8);
    assert(part(names, counts, 0, 1) =~= cleanup(names[0], counts[0]));
    assert(part(names, counts, 0, 2) == part(names, counts, 0, 1) + cleanup(names[1], counts[1]));
}

/// One where there is any, none where there is not.
pub open spec fn any(count: nat) -> int {
    if count > 0 {
        1
    } else {
        0
    }
}

/// What recurs comes first, friction before interventions, each in the order given. The kinds of
/// drift follow, in the order in which the audit lists them.
pub proof fn law_proposals_stand_in_order(
    friction: Seq<(Seq<char>, nat)>,
    interventions: Seq<(Seq<char>, nat)>,
    audit: AuditResult,
)
    ensures
        ({
            let list = proposals(friction, interventions, audit);
            let a = friction.len() + interventions.len();
            let b = a + any(audit.orphaned_stories@.len());
            let c = b + any(audit.unverified_stories@.len());
            let d = c + any(audit.unverified_decisions@.len());
            let e = d + any(audit.backlog_without_outcomes@.len());
            let f = e + any(audit.stale_stories@.len());
            let g = f + any(audit.broken_tools@.len());
            &&& list.len() == g
            &&& a < b ==> list[a as int].title
                == "Clean up "@ + "orphaned planned or in-progress stories"@
            &&& b < c ==> list[b].title == "Clean up "@ + "unverified story commands"@
            &&& c < d ==> list[c].title == "Clean up "@ + "unverified decision commands"@
            &&& d < e ==> list[d].title
                == "Clean up "@ + "implemented backlog items without outcomes"@
            &&& e < f ==> list[e].title == "Clean up "@ + "stale unfinished stories"@
            &&& f < g ==> list[f].title == "Clean up "@ + "broken registered tools"@
        }),
{
}

/// A recurring friction is proposed by its text and the number of the traces that recorded it.
pub proof fn law_friction_is_proposed_by_its_text_and_count(
    friction: Seq<(Seq<char>, nat)>,
    interventions: Seq<(Seq<char>, nat)>,
    audit: AuditResult,
    i: int,
)
    requires
        0 <= i < friction.len(),
    ensures
        ({
            let proposal = proposals(friction, interventions, audit)[i];
            &&& proposal.title == "Reduce repeated friction: "@ + title_of(friction[i].0)
            &&& proposal.component == "Failure attribution"@
            &&& proposal.evidence == decimal(friction[i].1)
                + " traces recorded similar friction: "@ + friction[i].0
            &&& proposal.predicted_impact
                == "Fewer repeated harness friction entries for similar tasks."@
            &&& proposal.risk == "normal"@
            &&& proposal.suggested_action
                == "Update the relevant Harness docs, templates, or CLI guidance for this friction pattern."@
            &&& proposal.validation_plan
                == "Review the next five related traces and compare friction frequency."@
            &&& friction[i].1 >= 3 ==> proposal.confidence == "high"@
            &&& friction[i].1 < 3 ==> proposal.confidence == "medium"@
        }),
{
}

/// A recurring intervention is proposed by its text and the number of the interventions that share
/// it.
pub proof fn law_interventions_are_proposed_by_text_and_count(
    friction: Seq<(Seq<char>, nat)>,
    interventions: Seq<(Seq<char>, nat)>,
    audit: AuditResult,
    i: int,
)
    requires
        0 <= i < interventions.len(),
    ensures
        ({
            let proposal = proposals(friction, interventions, audit)[friction.len() + i];
            &&& proposal.title == "Address repeated intervention: "@ + title_of(interventions[i].0)
            &&& proposal.component == "Intervention recording"@
            &&& proposal.evidence == decimal(interventions[i].1)
                + " interventions share the pattern: "@ + interventions[i].0
            &&& proposal.predicted_impact
                == "Fewer repeated human or review interventions for the same issue."@
            &&& proposal.risk == "normal"@
            &&& proposal.suggested_action
                == "Clarify the relevant operating rule or validation gate that would have caught this earlier."@
            &&& proposal.validation_plan
                == "Future interventions of this type should decrease after the rule change."@
            &&& interventions[i].1 >= 3 ==> proposal.confidence == "high"@
            &&& interventions[i].1 < 3 ==> proposal.confidence == "medium"@
        }),
{
}

/// The contents of a proposal are its fields, each under its own name.
pub proof fn law_proposal_contents(proposal: ImprovementProposal)
    ensures
        proposal.deep_view().title == proposal.title@,
        proposal.deep_view().component == proposal.component@,
        proposal.deep_view().evidence == proposal.evidence@,
        proposal.deep_view().predicted_impact == proposal.predicted_impact@,
        proposal.deep_view().risk == proposal.risk@,
        proposal.deep_view().suggested_action == proposal.suggested_action@,
        proposal.deep_view().validation_plan == proposal.validation_plan@,
        proposal.deep_view().confidence == proposal.confidence@,
        proposal.deep_view().committed_backlog_id == proposal.committed_backlog_id,
{
}

/// The texts and counts of what recurs are those of the groups, in their order.
pub proof fn law_counted_groups(groups: Seq<(String, usize)>, i: int)
    requires
        0 <= i < groups.len(),
    ensures
        counted(groups).len() == groups.len(),
        counted(groups)[i].0 == groups[i].0@,
        counted(groups)[i].1 == groups[i].1,
{
}

/// One more value adds to the number of those that have its token, and to no other.
pub proof fn law_tally_counts_tokens(values: Seq<Seq<char>>, value: Seq<char>, i: int)
    requires
        0 <= i < values.len(),
    ensures
        tally(seq![value], 0) == 1,
        token(value) == token(values[i]) ==> {
            &&& tally(values.push(value), i) == tally(values, i) + 1
            &&& tally(values.push(value), values.len() as int) == tally(values, i) + 1
        },
        token(value) != token(values[i]) ==> tally(values.push(value), i) == tally(values, i),
{
    let same = |other: Seq<char>| token(other) == token(values[i]);
    let all = values.push(value);
    values.lemma_filter_push(value, same);
    assert(all[i] == values[i]);
    assert(same =~= (|other: Seq<char>| token(other) == token(all[i])));
    if token(value) == token(values[i]) {
        assert(same =~= (|other: Seq<char>| token(other) == token(all[values.len() as int])));
    }
    let own = |other: Seq<char>| token(other) == token(value);
    let one = seq![value];
    assert(one =~= Seq::<Seq<char>>::empty().push(value));
    Seq::<Seq<char>>::empty().lemma_filter_push(value, own);
    assert(Seq::<Seq<char>>::empty().filter(own).len() == 0) by {
        reveal(Seq::filter);
    }
    assert(own =~= (|other: Seq<char>| token(other) == token(one[0])));
}

proof fn lemma_two_are_counted(values: Seq<Seq<char>>, i: int, j: int)
    requires
        0 <= i < j < values.len(),
        token(values[i]) == token(values[j]),
    ensures
        tally(values, i) >= 2,
        tally(values, j) >= 2,
    decreases values.len(),
{
    let rest = values.drop_last();
    assert(values =~= rest.push(values.last()));
    assert(rest[i] == values[i]);
    if j < rest.len() {
        assert(rest[j] == values[j]);
        lemma_two_are_counted(rest, i, j);
        law_tally_counts_tokens(rest, values.last(), i);
        law_tally_counts_tokens(rest, values.last(), j);
    } else {
        lemma_one_is_counted(rest, i);
        law_tally_counts_tokens(rest, values.last(), i);
    }
}

proof fn lemma_one_is_counted(values: Seq<Seq<char>>, i: int)
    requires
        0 <= i < values.len(),
    ensures
        tally(values, i) >= 1,
{
    let same = |other: Seq<char>| token(other) == token(values[i]);
    values.lemma_filter_contains(same, i);
    assert(values.filter(same).contains(values[i]));
}

/// Whether `at` are the places in `values`, from first to last, that `groups` are named by.
pub open spec fn leads_at(
    values: Seq<Seq<char>>,
    groups: Seq<(Seq<char>, nat)>,
    at: Seq<int>,
) -> bool {
    &&& at.len() == groups.len()
    &&& forall|k: int| 0 <= k < at.len() ==> 0 <= #[trigger] at[k] < values.len()
    &&& forall|k: int, l: int| 0 <= k < l < at.len() ==> #[trigger] at[k] < #[trigger] at[l]
    &&& forall|k: int|
        0 <= k < at.len() ==> {
            &&& groups[k].0 == values[#[trigger] at[k]]
            &&& groups[k].1 == tally(values, at[k])
        }
    &&& forall|k: int, j: int|
        0 <= k < at.len() && 0 <= j < at[k] ==> token(#[trigger] values[j]) != token(
            values[#[trigger] at[k]],
        )
}

/// What recurs is named by its first spelling, in the order of first spellings, and counted.
pub proof fn law_repeated_values_stand_in_order(values: Seq<Seq<char>>)
    ensures
        exists|at: Seq<int>| leads_at(values, repeated(values), at),
{
    let all = Seq::new(values.len(), |i: int| i);
    let leads = |i: int| leads_group(values, i);
    lemma_rising(all, leads);
    let kept = all.filter(leads);
    assert forall|k: int| 0 <= k < kept.len() implies 0 <= #[trigger] kept[k] < values.len()
        && leads_group(values, kept[k]) by {
        assert(leads(kept[k]));
        assert(all.contains(kept[k]));
    }
    assert(leads_at(values, repeated(values), kept));
}

/// A value whose token another one has, recurs.
pub proof fn law_repeated_values_are_complete(values: Seq<Seq<char>>, i: int, j: int)
    requires
        0 <= i < j < values.len(),
        token(values[i]) == token(values[j]),
    ensures
        exists|k: int|
            0 <= k < repeated(values).len() && token((#[trigger] repeated(values)[k]).0) == token(
                values[i],
            ),
    decreases i,
{
    if forall|h: int| 0 <= h < i ==> token(#[trigger] values[h]) != token(values[i]) {
        lemma_two_are_counted(values, i, j);
        let all = Seq::new(values.len(), |i: int| i);
        let leads = |i: int| leads_group(values, i);
        assert(all[i] == i);
        assert(leads(i));
        all.lemma_filter_contains(leads, i);
        let kept = all.filter(leads);
        assert(kept.contains(i));
        let k = choose|k: int| 0 <= k < kept.len() && kept[k] == i;
        assert(repeated(values)[k].0 == values[i]);
    } else {
        let h = choose|h: int| 0 <= h < i && token(#[trigger] values[h]) == token(values[i]);
        law_repeated_values_are_complete(values, h, i);
    }
}

/// There is a title for every text whose first eight words take no more than 72 bytes, and for those
/// in which a character ends at the 69th byte.
pub proof fn law_which_texts_have_titles(value: Seq<char>)
    ensures
        has_short_title(value) <==> {
            let all = words(value);
            let text = if all.len() <= 8 {
                join(all, seq![' '])
            } else {
                join(all.take(8), seq![' '])
            };
            encode_utf8(text).len() <= 72 || is_char_boundary(encode_utf8(text), 69)
        },
{
    reveal_strlit(" ");
    assert(" "@ =~= seq![' ']);
}

/// A title is the text's first eight words, or all of them where they are fewer, with single
/// spaces between them. Where that takes more than 72 bytes, it is the first 69 of them and three
/// dots.
pub proof fn law_title_is_the_leading_words(value: Seq<char>)
    requires
        has_short_title(value),
    ensures
        ({
            let all = words(value);
            let text = if all.len() <= 8 {
                join(all, seq![' '])
            } else {
                join(all.take(8), seq![' '])
            };
            &&& encode_utf8(text).len() <= 72 ==> title_of(value) == text
            &&& encode_utf8(text).len() > 72 ==> encode_utf8(title_of(value)) == encode_utf8(
                text,
            ).take(69) + encode_utf8(seq!['.', '.', '.'])
        }),
{
    reveal_strlit(" ");
    reveal_strlit("...");
    assert(" "@ =~= seq![' ']);
    assert("..."@ =~= seq!['.', '.', '.']);
    let text = crate::proposal::leading_words(value);
    let bytes = encode_utf8(text);
    if bytes.len() > 72 {
        let head = bytes.subrange(0, 69);
        vstd::utf8::encode_utf8_valid_utf8(text);
        vstd::utf8::valid_utf8_split(bytes, 69);
        vstd::utf8::decode_utf8_encode_utf8(head);
        lemma_encode_concat(decode_utf8(head), "..."@);
        assert(bytes.take(69) =~= head);
    }
}

} // verus!
