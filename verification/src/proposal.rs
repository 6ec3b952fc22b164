//! Improvement proposals: what recurs in the records, and what the audit found.
use vstd::prelude::*;
use vstd::string::StringExecFns;
use vstd::utf8::{decode_utf8, encode_utf8, is_char_boundary};

use crate::audit::AuditResult;
use crate::number::{decimal, unsigned_text};
use crate::statement::{text_param, SqlData, SqlStatement, SqlText};
use crate::text::{join, join_texts, same_text, words, words_of};
use crate::token::{normalize_token, token};

verus! {

/// A change that the records suggest.
#[derive(Debug, Clone, PartialEq, Eq)]
pub struct ImprovementProposal {
    pub title: String,
    pub component: String,
    pub evidence: String,
    pub predicted_impact: String,
    pub risk: String,
    pub suggested_action: String,
    pub validation_plan: String,
    pub confidence: String,
    pub committed_backlog_id: Option<i64>,
}

/// The contents of an `ImprovementProposal`.
pub struct Proposal {
    pub title: Seq<char>,
    pub component: Seq<char>,
    pub evidence: Seq<char>,
    pub predicted_impact: Seq<char>,
    pub risk: Seq<char>,
    pub suggested_action: Seq<char>,
    pub validation_plan: Seq<char>,
    pub confidence: Seq<char>,
    pub committed_backlog_id: Option<i64>,
}

impl DeepView for ImprovementProposal {
    type V = Proposal;

    open spec fn deep_view(&self) -> Proposal {
        Proposal {
            title: self.title@,
            component: self.component@,
            evidence: self.evidence@,
            predicted_impact: self.predicted_impact@,
            risk: self.risk@,
            suggested_action: self.suggested_action@,
            validation_plan: self.validation_plan@,
            confidence: self.confidence@,
            committed_backlog_id: self.committed_backlog_id,
        }
    }
}

/// How many of `values` have the token of the one at `i`.
pub open spec fn tally(values: Seq<Seq<char>>, i: int) -> nat {
    values.filter(|value: Seq<char>| token(value) == token(values[i])).len()
}

/// Whether no value before `i` has the token of the one at `i`.
pub open spec fn is_first(values: Seq<Seq<char>>, i: int) -> bool {
    forall|j: int| 0 <= j < i ==> token(#[trigger] values[j]) != token(values[i])
}

/// Whether the value at `i` speaks for a group of two or more.
pub open spec fn leads_group(values: Seq<Seq<char>>, i: int) -> bool {
    is_first(values, i) && tally(values, i) >= 2
}

/// The values that recur, each in its first spelling with the number of its spellings, in
/// the order in which they first occur.
pub open spec fn repeated(values: Seq<Seq<char>>) -> Seq<(Seq<char>, nat)> {
    Seq::new(values.len(), |i: int| i).filter(|i: int| leads_group(values, i)).map_values(
        |i: int| (values[i], tally(values, i)),
    )
}

/// Texts with their counts.
pub open spec fn counted(groups: Seq<(String, usize)>) -> Seq<(Seq<char>, nat)> {
    groups.map_values(|group: (String, usize)| (group.0@, group.1 as nat))
}

fn tokens_of(values: &[String]) -> (r: Vec<String>)
    ensures
        r.len() == values.len(),
        forall|i: int| 0 <= i < r.len() ==> (#[trigger] r[i])@ == token(values[i]@),
{
    let mut r: Vec<String> = Vec::new();
    let mut i: usize = 0;
    while i < values.len()
        invariant
            i <= values.len(),
            r.len() == i,
            forall|j: int| 0 <= j < i ==> (#[trigger] r[j])@ == token(values[j]@),
        decreases values.len() - i,
    {
        r.push(normalize_token(values[i].as_str()));
        i = i + 1;
    }
    r
}

/// The values that recur, with their counts.
pub fn repeated_values(values: &[String]) -> (r: Vec<(String, usize)>)
    ensures
        counted(r@) == repeated(values.deep_view()),
{
    let ghost all = values.deep_view();
    let ghost leads = |i: int| leads_group(all, i);
    let ghost group = |i: int| (all[i], tally(all, i));
    let ghost indices = Seq::new(all.len(), |i: int| i);
    let tokens = tokens_of(values);
    let mut r: Vec<(String, usize)> = Vec::new();
    let mut i: usize = 0;
    assert(counted(r@) =~= indices.take(0).filter(leads).map_values(group)) by {
        assert(indices.take(0) =~= Seq::empty());
        reveal(Seq::filter);
    }
    while i < values.len()
        invariant
            i <= values.len(),
            all == values.deep_view(),
            leads == (|i: int| leads_group(all, i)),
            group == (|i: int| (all[i], tally(all, i))),
            indices == Seq::new(all.len(), |i: int| i),
            tokens.len() == values.len(),
            forall|j: int| 0 <= j < tokens.len() ==> (#[trigger] tokens[j])@ == token(values[j]@),
            counted(r@) == indices.take(i as int).filter(leads).map_values(group),
        decreases values.len() - i,
    {
        let ghost same = |value: Seq<char>| token(value) == token(all[i as int]);
        let mut first: bool = true;
        let mut count: usize = 0;
        let mut j: usize = 0;
        assert(all.take(0).filter(same).len() == 0) by {
            assert(all.take(0) =~= Seq::empty());
            reveal(Seq::filter);
        }
        while j < values.len()
            invariant
                i < values.len(),
                j <= values.len(),
                all == values.deep_view(),
                same == (|value: Seq<char>| token(value) == token(all[i as int])),
                tokens.len() == values.len(),
                forall|k: int|
                    0 <= k < tokens.len() ==> (#[trigger] tokens[k])@ == token(values[k]@),
                count == all.take(j as int).filter(same).len(),
                count <= j,
                first == (forall|k: int|
                    0 <= k < j && k < i ==> token(#[trigger] all[k]) != token(all[i as int])),
            decreases values.len() - j,
        {
            proof {
                assert(all.take(j + 1) =~= all.take(j as int).push(all[j as int]));
                all.take(j as int).lemma_filter_push(all[j as int], same);
                assert(all[j as int] == values[j as int]@);
                assert(all[i as int] == values[i as int]@);
            }
            if same_text(tokens[i].as_str(), tokens[j].as_str()) {
                count = count + 1;
                if j < i {
                    first = false;
                }
            }
            j = j + 1;
        }
        assert(all.take(j as int) =~= all);
        let ghost before = counted(r@);
        proof {
            assert(indices.take(i + 1) =~= indices.take(i as int).push(i as int));
            indices.take(i as int).lemma_filter_push(i as int, leads);
        }
        if first && count >= 2 {
            r.push((values[i].clone(), count));
            assert(counted(r@) =~= before.push((all[i as int], tally(all, i as int))));
            assert(counted(r@) =~= indices.take(i + 1).filter(leads).map_values(group));
        }
        i = i + 1;
    }
    assert(indices.take(i as int) =~= indices);
    r
}

/// How sure a proposal is that `count` records support.
pub open spec fn confidence(count: nat) -> Seq<char> {
    if count >= 3 {
        "high"@
    } else {
        "medium"@
    }
}

/// How sure a proposal is that `count` records support.
pub fn confidence_for_count(count: usize) -> (r: String)
    ensures
        r@ == confidence(count as nat),
{
    if count >= 3 {
        "high".to_owned()
    } else {
        "medium".to_owned()
    }
}

/// The first eight words of `value`, with single spaces between them.
pub open spec fn leading_words(value: Seq<char>) -> Seq<char> {
    let all = words(value);
    join(
        if all.len() > 8 {
            all.take(8)
        } else {
            all
        },
        " "@,
    )
}

/// Whether a title can be cut out of `value`: where its leading words take more than 72
/// bytes, a character ends at the 69th.
pub open spec fn has_short_title(value: Seq<char>) -> bool {
    let bytes = encode_utf8(leading_words(value));
    bytes.len() > 72 ==> is_char_boundary(bytes, 69)
}

/// A title for `value`: its leading words, cut at 69 bytes where they take more than 72.
pub open spec fn title_of(value: Seq<char>) -> Seq<char> {
    let text = leading_words(value);
    let bytes = encode_utf8(text);
    if bytes.len() > 72 {
        decode_utf8(bytes.subrange(0, 69)) + "..."@
    } else {
        text
    }
}

fn leading_words_of(value: &str) -> (r: String)
    ensures
        r@ == leading_words(value@),
{
    let mut all = words_of(value);
    let ghost texts = words(value@);
    assert(texts.len() == all.len());
    if all.len() > 8 {
        all.truncate(8);
        assert(all.deep_view() =~= texts.take(8));
    }
    join_texts(all.as_slice(), " ")
}

/// Whether a title can be cut out of `value`.
pub fn can_shorten(value: &str) -> (r: bool)
    ensures
        r == has_short_title(value@),
{
    let text = leading_words_of(value);
    text.as_str().as_bytes().len() <= 72 || text.as_str().is_char_boundary(69)
}

/// A title for `value`.
pub fn short_title(value: &str) -> (r: String)
    requires
        has_short_title(value@),
    ensures
        r@ == title_of(value@),
{
    let text = leading_words_of(value);
    if text.as_str().as_bytes().len() > 72 {
        let (head, _rest) = text.as_str().split_at(69);
        proof {
            vstd::utf8::encode_utf8_decode_utf8(head@);
        }
        let mut r = head.to_owned();
        r.append("...");
        r
    } else {
        text
    }
}

/// What a recurring friction text proposes.
pub open spec fn friction_proposal(group: (Seq<char>, nat)) -> Proposal {
    Proposal {
        title: "Reduce repeated friction: "@ + title_of(group.0),
        component: "Failure attribution"@,
        evidence: decimal(group.1) + " traces recorded similar friction: "@ + group.0,
        predicted_impact: "Fewer repeated harness friction entries for similar tasks."@,
        risk: "normal"@,
        suggested_action:
            "Update the relevant Harness docs, templates, or CLI guidance for this friction pattern."@,
        validation_plan: "Review the next five related traces and compare friction frequency."@,
        confidence: confidence(group.1),
        committed_backlog_id: None,
    }
}

/// What a recurring intervention proposes.
pub open spec fn intervention_proposal(group: (Seq<char>, nat)) -> Proposal {
    Proposal {
        title: "Address repeated intervention: "@ + title_of(group.0),
        component: "Intervention recording"@,
        evidence: decimal(group.1) + " interventions share the pattern: "@ + group.0,
        predicted_impact: "Fewer repeated human or review interventions for the same issue."@,
        risk: "normal"@,
        suggested_action:
            "Clarify the relevant operating rule or validation gate that would have caught this earlier."@,
        validation_plan: "Future interventions of this type should decrease after the rule change."@,
        confidence: confidence(group.1),
        committed_backlog_id: None,
    }
}

/// What `count` findings of one kind of drift propose.
pub open spec fn cleanup_proposal(category: Seq<char>, count: nat) -> Proposal {
    Proposal {
        title: "Clean up "@ + category,
        component: "Entropy auditing"@,
        evidence: "Audit found "@ + decimal(count) + " "@ + category + "."@,
        predicted_impact: "Lower entropy score and stronger completion evidence."@,
        risk: "tiny"@,
        suggested_action:
            "Resolve the listed audit findings or record why they are intentionally retained."@,
        validation_plan: "Run harness-cli audit and confirm the category count decreases."@,
        confidence: "low"@,
        committed_backlog_id: None,
    }
}

/// The proposal for one kind of drift, where there is any of it.
pub open spec fn cleanup(category: Seq<char>, count: nat) -> Seq<Proposal> {
    if count > 0 {
        seq![cleanup_proposal(category, count)]
    } else {
        Seq::empty()
    }
}

/// The proposals for what the audit found, a kind of drift at a time.
pub open spec fn cleanups(audit: AuditResult) -> Seq<Proposal> {
    cleanup("orphaned planned or in-progress stories"@, audit.orphaned_stories@.len()) + cleanup(
        "unverified story commands"@,
        audit.unverified_stories@.len(),
    ) + cleanup("unverified decision commands"@, audit.unverified_decisions@.len()) + cleanup(
        "implemented backlog items without outcomes"@,
        audit.backlog_without_outcomes@.len(),
    ) + cleanup("stale unfinished stories"@, audit.stale_stories@.len()) + cleanup(
        "broken registered tools"@,
        audit.broken_tools@.len(),
    )
}

/// All proposals: for recurring friction, for recurring interventions, and for what the audit
/// found.
pub open spec fn proposals(
    friction: Seq<(Seq<char>, nat)>,
    interventions: Seq<(Seq<char>, nat)>,
    audit: AuditResult,
) -> Seq<Proposal> {
    friction.map_values(|group: (Seq<char>, nat)| friction_proposal(group))
        + interventions.map_values(|group: (Seq<char>, nat)| intervention_proposal(group))
        + cleanups(audit)
}

/// Whether a title can be cut out of the text of each group.
pub open spec fn all_have_titles(groups: Seq<(Seq<char>, nat)>) -> bool {
    forall|i: int| 0 <= i < groups.len() ==> has_short_title(#[trigger] groups[i].0)
}

fn propose_for_friction(text: &str, count: usize) -> (r: ImprovementProposal)
    requires
        has_short_title(text@),
    ensures
        r.deep_view() == friction_proposal((text@, count as nat)),
{
    let mut title = "Reduce repeated friction: ".to_owned();
    title.append(short_title(text).as_str());
    let mut evidence = unsigned_text(count as u64);
    evidence.append(" traces recorded similar friction: ");
    evidence.append(text);
    ImprovementProposal {
        title,
        component: "Failure attribution".to_owned(),
        evidence,
        predicted_impact: "Fewer repeated harness friction entries for similar tasks.".to_owned(),
        risk: "normal".to_owned(),
        suggested_action:
            "Update the relevant Harness docs, templates, or CLI guidance for this friction pattern.".to_owned(),
        validation_plan: "Review the next five related traces and compare friction frequency.".to_owned(),
        confidence: confidence_for_count(count),
        committed_backlog_id: None,
    }
}

fn propose_for_intervention(text: &str, count: usize) -> (r: ImprovementProposal)
    requires
        has_short_title(text@),
    ensures
        r.deep_view() == intervention_proposal((text@, count as nat)),
{
    let mut title = "Address repeated intervention: ".to_owned();
    title.append(short_title(text).as_str());
    let mut evidence = unsigned_text(count as u64);
    evidence.append(" interventions share the pattern: ");
    evidence.append(text);
    ImprovementProposal {
        title,
        component: "Intervention recording".to_owned(),
        evidence,
        predicted_impact: "Fewer repeated human or review interventions for the same issue.".to_owned(),
        risk: "normal".to_owned(),
        suggested_action:
            "Clarify the relevant operating rule or validation gate that would have caught this earlier.".to_owned(),
        validation_plan: "Future interventions of this type should decrease after the rule change.".to_owned(),
        confidence: confidence_for_count(count),
        committed_backlog_id: None,
    }
}

/// Adds the proposal for one kind of drift, where there is any of it.
fn propose_cleanup(list: &mut Vec<ImprovementProposal>, category: &str, count: usize)
    ensures
        final(list).deep_view() == old(list).deep_view() + cleanup(category@, count as nat),
{
    let ghost before = list.deep_view();
    if count > 0 {
        let mut title = "Clean up ".to_owned();
        title.append(category);
        let mut evidence = "Audit found ".to_owned();
        evidence.append(unsigned_text(count as u64).as_str());
        evidence.append(" ");
        evidence.append(category);
        evidence.append(".");
        let proposal = ImprovementProposal {
            title,
            component: "Entropy auditing".to_owned(),
            evidence,
            predicted_impact: "Lower entropy score and stronger completion evidence.".to_owned(),
            risk: "tiny".to_owned(),
            suggested_action:
                "Resolve the listed audit findings or record why they are intentionally retained.".to_owned(),
            validation_plan: "Run harness-cli audit and confirm the category count decreases.".to_owned(),
            confidence: "low".to_owned(),
            committed_backlog_id: None,
        };
        list.push(proposal);
        assert(list.deep_view() =~= before.push(proposal.deep_view()));
    }
    assert(list.deep_view() =~= before + cleanup(category@, count as nat));
}

/// The proposals for recurring friction and interventions, and for what the audit found.
pub fn propose(
    friction: &[(String, usize)],
    interventions: &[(String, usize)],
    audit: &AuditResult,
) -> (r: Vec<ImprovementProposal>)
    requires
        all_have_titles(counted(friction@)),
        all_have_titles(counted(interventions@)),
    ensures
        r.deep_view() == proposals(counted(friction@), counted(interventions@), *audit),
{
    let ghost frictions = counted(friction@);
    let ghost patterns = counted(interventions@);
    let ghost from_friction = |group: (Seq<char>, nat)| friction_proposal(group);
    let ghost from_pattern = |group: (Seq<char>, nat)| intervention_proposal(group);
    let mut r: Vec<ImprovementProposal> = Vec::new();
    let mut i: usize = 0;
    while i < friction.len()
        invariant
            i <= friction.len(),
            frictions == counted(friction@),
            all_have_titles(frictions),
            from_friction == (|group: (Seq<char>, nat)| friction_proposal(group)),
            r.deep_view() == frictions.take(i as int).map_values(from_friction),
        decreases friction.len() - i,
    {
        let ghost before = r.deep_view();
        assert(has_short_title(frictions[i as int].0));
        r.push(propose_for_friction(friction[i].0.as_str(), friction[i].1));
        assert(r.deep_view() =~= before.push(friction_proposal(frictions[i as int])));
        assert(r.deep_view() =~= frictions.take(i + 1).map_values(from_friction));
        i = i + 1;
    }
    assert(frictions.take(i as int) =~= frictions);
    let ghost first = r.deep_view();
    let mut j: usize = 0;
    assert(r.deep_view() =~= first + patterns.take(0).map_values(from_pattern));
    while j < interventions.len()
        invariant
            j <= interventions.len(),
            patterns == counted(interventions@),
            all_have_titles(patterns),
            from_pattern == (|group: (Seq<char>, nat)| intervention_proposal(group)),
            r.deep_view() == first + patterns.take(j as int).map_values(from_pattern),
        decreases interventions.len() - j,
    {
        let ghost before = r.deep_view();
        assert(has_short_title(patterns[j as int].0));
        r.push(propose_for_intervention(interventions[j].0.as_str(), interventions[j].1));
        assert(r.deep_view() =~= before.push(intervention_proposal(patterns[j as int])));
        assert(r.deep_view() =~= first + patterns.take(j + 1).map_values(from_pattern));
        j = j + 1;
    }
    assert(patterns.take(j as int) =~= patterns);
    let ghost recurring = r.deep_view();
    propose_cleanup(
        &mut r,
        "orphaned planned or in-progress stories",
        audit.orphaned_stories.len(),
    );
    propose_cleanup(&mut r, "unverified story commands", audit.unverified_stories.len());
    propose_cleanup(&mut r, "unverified decision commands", audit.unverified_decisions.len());
    propose_cleanup(
        &mut r,
        "implemented backlog items without outcomes",
        audit.backlog_without_outcomes.len(),
    );
    propose_cleanup(&mut r, "stale unfinished stories", audit.stale_stories.len());
    propose_cleanup(&mut r, "broken registered tools", audit.broken_tools.len());
    assert(r.deep_view() =~= recurring + cleanups(*audit));
    r
}

/// The friction that traces recorded, where there was any.
pub const LIST_FRICTION: &'static str =
    "SELECT harness_friction FROM trace WHERE harness_friction IS NOT NULL AND \
     TRIM(harness_friction) <> '' AND LOWER(TRIM(harness_friction)) <> 'none';";

/// The interventions, each by its type and its description.
pub const LIST_INTERVENTIONS: &'static str =
    "SELECT type || ': ' || description FROM intervention WHERE TRIM(description) <> '';";

pub const COMMIT_PROPOSAL: &'static str =
    "INSERT INTO backlog (title, discovered_while, current_pain, suggested_improvement, \
     risk, predicted_impact, notes) VALUES (?1, 'harness-cli propose', ?2, ?3, ?4, ?5, \
     ?6);";

impl ImprovementProposal {
    /// The statement that stores the proposal as a backlog item.
    pub open spec fn stored(self) -> SqlText {
        SqlText {
            sql: COMMIT_PROPOSAL@,
            params: seq![
                SqlData::Text(self.title@),
                SqlData::Text(self.evidence@),
                SqlData::Text(self.suggested_action@),
                SqlData::Text(token(self.risk@)),
                SqlData::Text(self.predicted_impact@),
                SqlData::Text(
                    "component: "@ + self.component@ + "; confidence: "@ + self.confidence@
                        + "; validation: "@ + self.validation_plan@,
                ),
            ],
        }
    }

    /// The statement that stores the proposal as a backlog item.
    pub fn statement(&self) -> (r: SqlStatement)
        ensures
            r.deep_view() == self.stored(),
    {
        let mut notes = "component: ".to_owned();
        notes.append(self.component.as_str());
        notes.append("; confidence: ");
        notes.append(self.confidence.as_str());
        notes.append("; validation: ");
        notes.append(self.validation_plan.as_str());
        let params = vec![
            text_param(self.title.as_str()),
            text_param(self.evidence.as_str()),
            text_param(self.suggested_action.as_str()),
            text_param(normalize_token(self.risk.as_str()).as_str()),
            text_param(self.predicted_impact.as_str()),
            text_param(notes.as_str()),
        ];
        assert(params.deep_view() =~= self.stored().params);
        SqlStatement { sql: COMMIT_PROPOSAL, params }
    }

    /// Notes the backlog item that the proposal was stored as.
    pub fn commit(&mut self, backlog_id: i64)
        ensures
            final(self).deep_view() == (Proposal {
                committed_backlog_id: Some(backlog_id),
                ..old(self).deep_view()
            }),
    {
        self.committed_backlog_id = Some(backlog_id);
    }
}

/// There is nothing to propose exactly where nothing recurs and the audit found nothing.
pub proof fn law_clean_harness_has_no_proposals(
    friction: Seq<(Seq<char>, nat)>,
    interventions: Seq<(Seq<char>, nat)>,
    audit: AuditResult,
)
    ensures
        proposals(friction, interventions, audit).len() == 0 <==> {
            &&& friction.len() == 0
            &&& interventions.len() == 0
            &&& audit.orphaned_stories@.len() == 0
            &&& audit.unverified_stories@.len() == 0
            &&& audit.unverified_decisions@.len() == 0
            &&& audit.backlog_without_outcomes@.len() == 0
            &&& audit.stale_stories@.len() == 0
            &&& audit.broken_tools@.len() == 0
        },
{
}

/// A proposal that was not committed has no number.
pub proof fn law_new_proposals_have_no_number(
    friction: Seq<(Seq<char>, nat)>,
    interventions: Seq<(Seq<char>, nat)>,
    audit: AuditResult,
    i: int,
)
    requires
        0 <= i < proposals(friction, interventions, audit).len(),
    ensures
        proposals(friction, interventions, audit)[i].committed_backlog_id is None,
{
}

} // verus!
