//! The audit: what has drifted in the harness.
use vstd::prelude::*;

use crate::text::same_text;
use crate::tool::{
    command_places, found_by, is_command_kind, is_exec_probed, is_found, places_of_command, Location,
    Place,
};

verus! {

/// Something that the audit found, by its key and its title.
#[derive(Debug, Clone, PartialEq, Eq)]
pub struct AuditFinding {
    pub id: String,
    pub title: String,
}

impl DeepView for AuditFinding {
    type V = (Seq<char>, Seq<char>);

    open spec fn deep_view(&self) -> (Seq<char>, Seq<char>) {
        (self.id@, self.title@)
    }
}

/// What the audit found, by the kind of drift.
#[derive(Debug)]
pub struct AuditResult {
    pub orphaned_stories: Vec<AuditFinding>,
    pub unverified_stories: Vec<AuditFinding>,
    pub unverified_decisions: Vec<AuditFinding>,
    pub backlog_without_outcomes: Vec<AuditFinding>,
    pub stale_stories: Vec<AuditFinding>,
    pub broken_tools: Vec<AuditFinding>,
}

/// Stories that are under way, or to come, and that no trace speaks of.
pub const ORPHANED_STORIES: &'static str =
    "SELECT story.id, story.title FROM story LEFT JOIN trace ON trace.story_id = story.id \
     WHERE story.status IN ('planned','in_progress') AND trace.id IS NULL ORDER BY \
     story.id;";

/// Stories with a command to verify them that was never run.
pub const UNVERIFIED_STORIES: &'static str =
    "SELECT id, title FROM story WHERE verify_command IS NOT NULL AND \
     TRIM(verify_command) <> '' AND last_verified_result IS NULL ORDER BY id;";

/// Decisions with a command to verify them that was never run.
pub const UNVERIFIED_DECISIONS: &'static str =
    "SELECT id, title FROM decision WHERE verify_command IS NOT NULL AND \
     TRIM(verify_command) <> '' AND last_verified_result IS NULL ORDER BY id;";

/// Items of the backlog that were done with an impact in mind, and without an outcome.
pub const BACKLOG_WITHOUT_OUTCOMES: &'static str =
    "SELECT CAST(id AS TEXT), title FROM backlog WHERE predicted_impact IS NOT NULL AND \
     actual_outcome IS NULL AND status='implemented' ORDER BY id;";

/// Stories that are not done and that no trace of the last thirty days speaks of.
pub const STALE_STORIES: &'static str =
    "SELECT story.id, story.title FROM story JOIN trace ON trace.story_id = story.id \
     WHERE story.status <> 'implemented' GROUP BY story.id, story.title HAVING \
     julianday('now') - julianday(MAX(trace.created_at)) > 30 ORDER BY story.id;";

/// The registered tools, for the audit.
pub const LIST_TOOLS_TO_AUDIT: &'static str =
    "SELECT name, command, kind, status FROM tool ORDER BY name;";

/// A registered tool, as far as the audit goes.
#[derive(Debug)]
pub struct AuditedTool {
    pub name: String,
    pub command: String,
    pub kind: String,
    pub status: String,
}

/// Whether a tool is broken: a command, where it was not found just now; any other tool, where
/// its last check found it missing. A tool that was never checked is not broken.
pub open spec fn is_broken(tool: AuditedTool, found: bool) -> bool {
    if is_command_kind(tool.kind@) {
        !found
    } else {
        tool.status@ == "missing"@
    }
}

/// The findings on `tools`, each with whether its command was found.
pub open spec fn broken(tools: Seq<(AuditedTool, bool)>) -> Seq<(Seq<char>, Seq<char>)> {
    tools.filter(|entry: (AuditedTool, bool)| is_broken(entry.0, entry.1)).map_values(
        |entry: (AuditedTool, bool)| (entry.0.name@, entry.0.command@),
    )
}

impl AuditedTool {
    /// Where the audit looks for the tool: only a command is looked for.
    pub open spec fn looked_in(self) -> Seq<Location> {
        if is_command_kind(self.kind@) {
            command_places(self.command@)
        } else {
            Seq::empty()
        }
    }

    /// Whether `found` is what a look for the tool comes to.
    pub open spec fn is_looked_for<F: Fn(&Place) -> bool>(self, look: F, found: bool) -> bool {
        exists|places: Seq<Place>|
            {
                &&& places.map_values(|place: Place| place.deep_view()) == self.looked_in()
                &&& #[trigger] found_by(places, look, found)
            }
    }

    /// Where the audit looks for the tool.
    pub fn places(&self) -> (r: Vec<Place>)
        ensures
            r.deep_view() == self.looked_in(),
    {
        if is_exec_probed(self.kind.as_str()) {
            places_of_command(self.command.as_str())
        } else {
            let r: Vec<Place> = Vec::new();
            assert(r.deep_view() =~= Seq::<Location>::empty());
            r
        }
    }
}

/// The broken ones of `tools`, each with whether its command was found.
pub fn broken_tools(tools: Vec<(AuditedTool, bool)>) -> (r: Vec<AuditFinding>)
    ensures
        r.deep_view() == broken(tools@),
{
    let ghost all = tools@;
    let ghost bad = |entry: (AuditedTool, bool)| is_broken(entry.0, entry.1);
    let ghost finding = |entry: (AuditedTool, bool)| (entry.0.name@, entry.0.command@);
    let mut r: Vec<AuditFinding> = Vec::new();
    for entry in it: tools
        invariant
            it.seq() == all,
            bad == (|entry: (AuditedTool, bool)| is_broken(entry.0, entry.1)),
            finding == (|entry: (AuditedTool, bool)| (entry.0.name@, entry.0.command@)),
            r.deep_view() == all.take(it.index() as int).filter(bad).map_values(finding),
    {
        let ghost i = it.index() as int;
        let ghost before = r.deep_view();
        proof {
            assert(all.take(i + 1) =~= all.take(i).push(all[i]));
            all.take(i).lemma_filter_push(all[i], bad);
        }
        let (tool, found) = entry;
        let is_bad = if is_exec_probed(tool.kind.as_str()) {
            !found
        } else {
            same_text(tool.status.as_str(), "missing")
        };
        if is_bad {
            r.push(AuditFinding { id: tool.name, title: tool.command });
            assert(r.deep_view() =~= before.push(finding(all[i])));
        }
        assert(r.deep_view() =~= all.take(i + 1).filter(bad).map_values(finding));
    }
    assert(all.take(all.len() as int) =~= all);
    r
}

/// Whether `entries` are the tools, each with what a look for it comes to.
pub open spec fn are_looked_for<F: Fn(&Place) -> bool>(
    tools: Seq<AuditedTool>,
    look: F,
    entries: Seq<(AuditedTool, bool)>,
) -> bool {
    &&& entries.len() == tools.len()
    &&& forall|i: int|
        0 <= i < tools.len() ==> (#[trigger] entries[i]).0 == tools[i] && tools[i].is_looked_for(
            look,
            entries[i].1,
        )
}

/// The broken ones of `tools`; `look` looks into a place.
pub fn audit_tools<F: Fn(&Place) -> bool>(tools: Vec<AuditedTool>, look: F) -> (r: Vec<
    AuditFinding,
>)
    requires
        forall|place: &Place| call_requires(look, (place,)),
    ensures
        exists|entries: Seq<(AuditedTool, bool)>| #[trigger]
            are_looked_for(tools@, look, entries) && r.deep_view() == broken(entries),
{
    let ghost all = tools@;
    let mut entries: Vec<(AuditedTool, bool)> = Vec::new();
    for tool in it: tools
        invariant
            it.seq() == all,
            forall|place: &Place| call_requires(look, (place,)),
            entries@.len() == it.index(),
            forall|i: int|
                0 <= i < it.index() ==> (#[trigger] entries@[i]).0 == all[i]
                    && all[i].is_looked_for(look, entries@[i].1),
    {
        let ghost i = it.index() as int;
        let places = tool.places();
        let found = is_found(places.as_slice(), &look);
        assert(found_by(places@, look, found));
        assert(places@.map_values(|place: Place| place.deep_view()) =~= places.deep_view());
        assert(all[i].is_looked_for(look, found));
        entries.push((tool, found));
    }
    assert(are_looked_for(all, look, entries@));
    broken_tools(entries)
}

/// A tool that is not a command is no drift before a check has found it missing, whatever
/// was found just now.
pub proof fn law_unchecked_tool_is_not_broken(tool: AuditedTool, found: bool)
    requires
        !is_command_kind(tool.kind@),
        tool.status@ == "unknown"@,
    ensures
        !is_broken(tool, found),
{
    reveal_strlit("unknown");
    reveal_strlit("missing");
    assert("unknown"@[0] != "missing"@[0]);
}

} // verus!
