//! What a migration and a set-up do at each step, and what a step leads to.
use vstd::prelude::*;

use crate::commit::numbered;
use crate::init_run::{InitAction, InitEvent, InitState, InitStep};
use crate::migrate::{
    dry_run_total, is_ordered, migrations, pending, InitPlan, MigratePlan, MigrateResult,
};
use crate::migrate_run::{MigrateAction, MigrateEvent, MigrateRun, MigrateState, MigrateStep};
use crate::proposal::Proposal;

verus! {

/// A repair begins by putting the copy back, and any other migration by reading the version.
pub proof fn law_migration_begins()
    ensures
        MigrateState::start(MigratePlan::Repair).action() is Restore,
        MigrateState::start(MigratePlan::DryRun).action() is ReadVersion,
        MigrateState::start(MigratePlan::Apply).action() is ReadVersion,
{
}

/// Once the copy was put back, the version is read.
pub proof fn law_version_is_read_after_a_repair(state: MigrateState, next: MigrateState)
    requires
        state.action() is Restore,
        state.leads_to(MigrateEvent::Done, next),
    ensures
        next.action() is ReadVersion,
        next.plan == state.plan,
{
}

/// Once the version was read, a repair is through, a dry run lists the scripts, and a migration
/// that runs them copies the database.
pub proof fn law_what_follows_the_version(state: MigrateState, version: i64, next: MigrateState)
    requires
        state.action() is ReadVersion,
        state.leads_to(MigrateEvent::Version(version), next),
    ensures
        next.current == version,
        next.plan == state.plan,
        state.plan is Repair ==> next.action() is Finish,
        state.plan is DryRun ==> next.action() is ListScripts,
        state.plan is Apply ==> next.action() is Backup,
{
}

/// Once the database was copied, the scripts are listed.
pub proof fn law_scripts_are_listed_after_the_copy(state: MigrateState, next: MigrateState)
    requires
        state.action() is Backup,
        state.leads_to(MigrateEvent::Done, next),
    ensures
        next.action() is ListScripts,
        next.backed_up,
        next.plan == state.plan,
        next.current == state.current,
{
}

proof fn lemma_pending_of_version(
    scripts: Seq<(int, Seq<char>)>,
    current: int,
    version: int,
)
    ensures
        version > current ==> crate::migrate::of_version(pending(scripts, current), version)
            == crate::migrate::of_version(scripts, version),
        version <= current ==> crate::migrate::of_version(
            pending(scripts, current),
            version,
        ).len() == 0,
    decreases scripts.len(),
{
    let later = |script: (int, Seq<char>)| script.0 > current;
    let is = crate::migrate::brings_to(version);
    if scripts.len() > 0 {
        let rest = scripts.drop_last();
        let last = scripts.last();
        lemma_pending_of_version(rest, current, version);
        assert(scripts =~= rest.push(last));
        rest.lemma_filter_push(last, later);
        rest.lemma_filter_push(last, is);
        pending(rest, current).lemma_filter_push(last, is);
    } else {
        reveal(Seq::filter);
        assert(scripts.filter(later) =~= Seq::empty());
        assert(pending(scripts, current).filter(is) =~= Seq::empty());
        assert(scripts.filter(is) =~= Seq::empty());
    }
}

/// Whether `listed` are the scripts among `names` of the versions beyond `current`: by version, and
/// those of one version in the order of the names.
pub open spec fn are_later_scripts(
    listed: Seq<(int, Seq<char>)>,
    names: Seq<Seq<char>>,
    current: int,
) -> bool {
    &&& forall|i: int, j: int|
        0 <= i < j < listed.len() ==> (#[trigger] listed[i]).0 <= (#[trigger] listed[j]).0
    &&& forall|i: int| 0 <= i < listed.len() ==> (#[trigger] listed[i]).0 > current
    &&& forall|version: int|
        version > current ==> #[trigger] crate::migrate::of_version(listed, version)
            == crate::migrate::of_version(migrations(names), version)
}

proof fn lemma_later_scripts(
    scripts: Seq<(int, Seq<char>)>,
    names: Seq<Seq<char>>,
    current: int,
)
    requires
        is_ordered(scripts, migrations(names)),
    ensures
        are_later_scripts(pending(scripts, current), names, current),
{
    crate::migrate::law_pending_scripts_move_forward(scripts, current);
    assert forall|version: int| version > current implies #[trigger] crate::migrate::of_version(
        pending(scripts, current),
        version,
    ) == crate::migrate::of_version(migrations(names), version) by {
        lemma_pending_of_version(scripts, current, version);
        assert(crate::migrate::of_version(scripts, version) == crate::migrate::of_version(
            migrations(names),
            version,
        ));
    }
}

/// Once the scripts were listed, the first one of a version beyond that of the database is run, or
/// told of in a dry run. Where there is none, a dry run says so, and any other is through.
pub proof fn law_what_follows_the_listing(
    state: MigrateState,
    names: Vec<String>,
    next: MigrateState,
)
    requires
        state.action() is ListScripts,
        state.leads_to(MigrateEvent::Names(names), next),
    ensures
        are_later_scripts(next.pending, names.deep_view(), state.current),
        next.plan == state.plan,
        next.current == state.current,
        next.backed_up == state.backed_up,
        next.done == 0,
        next.pending.len() > 0 && state.plan is Apply ==> next.action() == MigrateStep::Run(
            next.pending[0].0,
            next.pending[0].1,
        ),
        next.pending.len() > 0 && !(state.plan is Apply) ==> next.action() == MigrateStep::Tell(
            next.pending[0].0,
            next.pending[0].1,
        ),
        next.pending.len() == 0 && state.plan is Apply ==> next.action() is Finish,
        next.pending.len() == 0 && !(state.plan is Apply) ==> next.action()
            == MigrateStep::Summarize("Already up to date."@),
{
    let scripts = choose|scripts: Seq<(int, Seq<char>)>| #[trigger]
        is_ordered(scripts, migrations(names.deep_view())) && next == {
            let listed = MigrateState { pending: pending(scripts, state.current), done: 0, ..state };
            MigrateState { phase: listed.phase_at(0), ..listed }
        };
    lemma_later_scripts(scripts, names.deep_view(), state.current);
}

/// Once a script was run, or told of, the next one follows. After the last one a migration is
/// through, and a dry run says how much would be run.
pub proof fn law_what_follows_a_script(state: MigrateState, next: MigrateState)
    requires
        state.well_formed(),
        state.action() is Run || state.action() is Tell,
        state.leads_to(MigrateEvent::Done, next),
    ensures
        next.done == state.done + 1,
        next.pending == state.pending,
        next.plan == state.plan,
        next.current == state.current,
        next.backed_up == state.backed_up,
        next.done < state.pending.len() ==> {
            let (version, name) = state.pending[next.done as int];
            &&& state.action() is Run ==> next.action() == MigrateStep::Run(version, name)
            &&& state.action() is Tell ==> next.action() == MigrateStep::Tell(version, name)
        },
        next.done == state.pending.len() ==> {
            &&& state.action() is Run ==> next.action() is Finish
            &&& state.action() is Tell ==> next.action() == MigrateStep::Summarize(
                dry_run_total(state.pending, state.current),
            )
        },
{
}

/// Once a dry run has said how much would be run, it is through.
pub proof fn law_dry_run_ends_with_its_summary(state: MigrateState, next: MigrateState)
    requires
        state.action() is Summarize,
        state.leads_to(MigrateEvent::Done, next),
    ensures
        next.action() is Finish,
        next.current == state.current,
        next.plan == state.plan,
{
}

/// What does not answer the action changes nothing.
pub proof fn law_other_events_change_nothing(
    state: MigrateState,
    version: i64,
    names: Vec<String>,
    next: MigrateState,
)
    ensures
        (state.action() is ReadVersion || state.action() is ListScripts || state.action() is Finish)
            && state.leads_to(MigrateEvent::Done, next) ==> next == state,
        !(state.action() is ReadVersion) && state.leads_to(MigrateEvent::Version(version), next)
            ==> next == state,
        !(state.action() is ListScripts) && state.leads_to(MigrateEvent::Names(names), next)
            ==> next == state,
{
}

/// A migration reports the version that it read, the versions of the scripts that it ran and
/// whether it made a copy: all of those that were pending where it ran any, and none otherwise.
pub proof fn law_migration_reports_what_it_did(run: &MigrateRun, r: MigrateResult)
    requires
        call_ensures(MigrateRun::result, (run,), r),
    ensures
        r.current_version == run@.current,
        r.backup_created == run@.backed_up,
        !(run@.plan is Apply) ==> r.applied@.len() == 0,
        run@.plan is Apply ==> {
            &&& r.applied@.len() == run@.pending.len()
            &&& forall|i: int|
                0 <= i < r.applied@.len() ==> #[trigger] r.applied@[i] == run@.pending[i].0
        },
{
    let applied = r.applied@.map_values(|version: i64| version as int);
    assert(applied.len() == r.applied@.len());
    assert(applied == run@.applied());
    assert forall|i: int| 0 <= i < r.applied@.len() && run@.plan is Apply implies #[trigger]
        r.applied@[i] == run@.pending[i].0 by {
        assert(applied[i] == r.applied@[i]);
    }
}

/// A step names the script that it is about.
pub proof fn law_migration_step_contents(version: i64, text: String)
    ensures
        MigrateAction::Restore.deep_view() is Restore,
        MigrateAction::ReadVersion.deep_view() is ReadVersion,
        MigrateAction::Backup.deep_view() is Backup,
        MigrateAction::ListScripts.deep_view() is ListScripts,
        (MigrateAction::Run { version, name: text }).deep_view() == MigrateStep::Run(
            version as int,
            text@,
        ),
        (MigrateAction::Tell { version, name: text }).deep_view() == MigrateStep::Tell(
            version as int,
            text@,
        ),
        MigrateAction::Summarize(text).deep_view() == MigrateStep::Summarize(text@),
        MigrateAction::Finish.deep_view() is Finish,
{
}

/// A migration does what its state calls for.
pub proof fn law_migration_does_what_is_next(run: &MigrateRun, r: MigrateAction)
    requires
        call_ensures(MigrateRun::action, (run,), r),
    ensures
        r.deep_view() == run@.action(),
{
}

/// A set-up begins with the version of a database that is there, and with the first script where
/// there is none.
pub proof fn law_set_up_begins()
    ensures
        InitState::start(true).action() is ReadVersion,
        InitState::start(false).action() is RunFirst,
        InitState::start(false).plan is Create,
{
}

/// A database of the version zero gets the first script, and any other one is left as it is.
pub proof fn law_what_follows_the_version_of_a_set_up(
    state: InitState,
    version: i64,
    next: InitState,
)
    requires
        state.action() is ReadVersion,
        state.leads_to(InitEvent::Version(version), next),
    ensures
        version == 0 ==> next.action() is RunFirst && next.plan is Upgrade,
        version != 0 ==> next.action() is Finish && next.plan == InitPlan::Keep(version),
{
}

/// Once the first script was run, the others are listed.
pub proof fn law_scripts_are_listed_after_the_first(state: InitState, next: InitState)
    requires
        state.action() is RunFirst,
        state.leads_to(InitEvent::Done, next),
    ensures
        next.action() is ListScripts,
        next.plan == state.plan,
{
}

/// Once they were listed, the first script of a version beyond one is run, if there is one.
pub proof fn law_what_follows_the_listing_of_a_set_up(
    state: InitState,
    names: Vec<String>,
    next: InitState,
)
    requires
        state.action() is ListScripts,
        state.leads_to(InitEvent::Names(names), next),
    ensures
        are_later_scripts(next.pending, names.deep_view(), 1),
        next.plan == state.plan,
        next.done == 0,
        next.pending.len() > 0 ==> next.action() == InitStep::Run(
            next.pending[0].0,
            next.pending[0].1,
        ),
        next.pending.len() == 0 ==> next.action() is Finish,
{
    let scripts = choose|scripts: Seq<(int, Seq<char>)>| #[trigger]
        is_ordered(scripts, migrations(names.deep_view())) && next == state.with_scripts(
            pending(scripts, crate::migrate::FIRST_VERSION as int),
            0,
        );
    lemma_later_scripts(scripts, names.deep_view(), 1);
}

/// Once a script was run, the next one is, and after the last one the set-up is through.
pub proof fn law_what_follows_a_script_of_a_set_up(state: InitState, next: InitState)
    requires
        state.well_formed(),
        state.action() is Run,
        state.leads_to(InitEvent::Done, next),
    ensures
        next.done == state.done + 1,
        next.pending == state.pending,
        next.plan == state.plan,
        next.done < state.pending.len() ==> next.action() == InitStep::Run(
            state.pending[next.done as int].0,
            state.pending[next.done as int].1,
        ),
        next.done == state.pending.len() ==> next.action() is Finish,
{
}

/// What does not answer the action changes nothing.
pub proof fn law_other_events_change_no_set_up(
    state: InitState,
    version: i64,
    names: Vec<String>,
    next: InitState,
)
    ensures
        (state.action() is ReadVersion || state.action() is ListScripts || state.action() is Finish)
            && state.leads_to(InitEvent::Done, next) ==> next == state,
        !(state.action() is ReadVersion) && state.leads_to(InitEvent::Version(version), next)
            ==> next == state,
        !(state.action() is ListScripts) && state.leads_to(InitEvent::Names(names), next) ==> next
            == state,
{
}

/// A step names the script that it is about.
pub proof fn law_set_up_step_contents(version: i64, name: String)
    ensures
        InitAction::ReadVersion.deep_view() is ReadVersion,
        InitAction::RunFirst.deep_view() is RunFirst,
        InitAction::ListScripts.deep_view() is ListScripts,
        (InitAction::Run { version, name }).deep_view() == InitStep::Run(version as int, name@),
        InitAction::Finish.deep_view() is Finish,
{
}

/// A committed proposal is the proposal, with the number that it was stored under.
pub proof fn law_committed_proposal_has_its_number(proposal: Proposal, id: i64)
    ensures
        ({
            let stored = numbered(proposal, id);
            &&& stored.committed_backlog_id == Some(id)
            &&& stored.title == proposal.title
            &&& stored.component == proposal.component
            &&& stored.evidence == proposal.evidence
            &&& stored.predicted_impact == proposal.predicted_impact
            &&& stored.risk == proposal.risk
            &&& stored.suggested_action == proposal.suggested_action
            &&& stored.validation_plan == proposal.validation_plan
            &&& stored.confidence == proposal.confidence
        }),
{
}

} // verus!
