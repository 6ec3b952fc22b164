//! A migration, step by step.
use vstd::prelude::*;

use crate::migrate::{
    dry_run_summary, dry_run_total, in_order, is_ordered, law_pending_scripts_move_forward,
    migrate_plan, migrated, migration_files, migrations, not_migrated, pending, pending_migrations,
    versions, MigratePlan, MigrateResult, Migration,
};

verus! {

/// How far a migration has come.
#[derive(Debug, Clone, Copy, PartialEq, Eq, Structural)]
pub enum MigratePhase {
    Restoring,
    ReadingVersion,
    BackingUp,
    ListingScripts,
    Scripts,
    Finished,
}

/// What is to be done next.
#[derive(Debug, PartialEq, Eq)]
pub enum MigrateAction {
    /// Put the copy in the place of the database.
    Restore,
    /// Open the database and read the version of its schema.
    ReadVersion,
    /// Copy the database.
    Backup,
    /// List the names of the scripts.
    ListScripts,
    /// Run a script, as a whole or not at all.
    Run { version: i64, name: String },
    /// Tell of a script that would be run.
    Tell { version: i64, name: String },
    /// Tell how much would be run.
    Summarize(String),
    /// Nothing more.
    Finish,
}

/// What is to be done next, by its contents.
pub enum MigrateStep {
    Restore,
    ReadVersion,
    Backup,
    ListScripts,
    Run(int, Seq<char>),
    Tell(int, Seq<char>),
    Summarize(Seq<char>),
    Finish,
}

impl DeepView for MigrateAction {
    type V = MigrateStep;

    open spec fn deep_view(&self) -> MigrateStep {
        match self {
            MigrateAction::Restore => MigrateStep::Restore,
            MigrateAction::ReadVersion => MigrateStep::ReadVersion,
            MigrateAction::Backup => MigrateStep::Backup,
            MigrateAction::ListScripts => MigrateStep::ListScripts,
            MigrateAction::Run { version, name } => MigrateStep::Run(*version as int, name@),
            MigrateAction::Tell { version, name } => MigrateStep::Tell(*version as int, name@),
            MigrateAction::Summarize(text) => MigrateStep::Summarize(text@),
            MigrateAction::Finish => MigrateStep::Finish,
        }
    }
}

/// What came of an action.
#[derive(Debug)]
pub enum MigrateEvent {
    /// It was done.
    Done,
    /// The version that was read.
    Version(i64),
    /// The names that were listed.
    Names(Vec<String>),
}

/// A migration under way.
#[derive(Debug)]
pub struct MigrateRun {
    plan: MigratePlan,
    phase: MigratePhase,
    current: i64,
    backed_up: bool,
    pending: Vec<Migration>,
    done: usize,
}

/// What a migration under way holds.
#[verifier::ext_equal]
pub struct MigrateState {
    pub plan: MigratePlan,
    pub phase: MigratePhase,
    /// The version of the schema, once it was read.
    pub current: int,
    /// Whether the database was copied.
    pub backed_up: bool,
    /// The scripts that the database lacks, once they were listed.
    pub pending: Seq<(int, Seq<char>)>,
    /// How many of them were run, or told of.
    pub done: nat,
}

impl View for MigrateRun {
    type V = MigrateState;

    closed spec fn view(&self) -> MigrateState {
        MigrateState {
            plan: self.plan,
            phase: self.phase,
            current: self.current as int,
            backed_up: self.backed_up,
            pending: self.pending.deep_view(),
            done: self.done as nat,
        }
    }
}

impl MigrateState {
    /// The start of a migration.
    pub open spec fn start(plan: MigratePlan) -> MigrateState {
        MigrateState {
            plan,
            phase: if plan is Repair {
                MigratePhase::Restoring
            } else {
                MigratePhase::ReadingVersion
            },
            current: 0,
            backed_up: false,
            pending: Seq::empty(),
            done: 0,
        }
    }

    /// What always holds of a migration: the database is copied before any script is run, and
    /// only then; the scripts come in order, each later than the version of the database.
    pub open spec fn well_formed(self) -> bool {
        &&& self.done <= self.pending.len()
        &&& self.phase is Restoring ==> self.plan is Repair
        &&& self.phase is BackingUp ==> self.plan is Apply
        &&& self.plan is Repair ==> self.pending.len() == 0 && !(self.phase is ListingScripts)
            && !(self.phase is Scripts)
        &&& self.backed_up <==> self.plan is Apply && (self.phase is ListingScripts
            || self.phase is Scripts || self.phase is Finished)
        &&& self.plan is Apply && self.phase is Scripts ==> self.done < self.pending.len()
        &&& self.phase is Finished ==> self.done == self.pending.len()
        &&& in_order(self.pending)
        &&& forall|i: int|
            0 <= i < self.pending.len() ==> (#[trigger] self.pending[i]).0 > self.current
    }

    /// What is to be done next.
    pub open spec fn action(self) -> MigrateStep {
        match self.phase {
            MigratePhase::Restoring => MigrateStep::Restore,
            MigratePhase::ReadingVersion => MigrateStep::ReadVersion,
            MigratePhase::BackingUp => MigrateStep::Backup,
            MigratePhase::ListingScripts => MigrateStep::ListScripts,
            MigratePhase::Scripts => if self.done < self.pending.len() {
                let script = self.pending[self.done as int];
                if self.plan is Apply {
                    MigrateStep::Run(script.0, script.1)
                } else {
                    MigrateStep::Tell(script.0, script.1)
                }
            } else {
                MigrateStep::Summarize(dry_run_total(self.pending, self.current))
            },
            MigratePhase::Finished => MigrateStep::Finish,
        }
    }

    /// The versions of the scripts that a finished migration has run.
    pub open spec fn applied(self) -> Seq<int> {
        if self.plan is Apply {
            versions(self.pending)
        } else {
            Seq::empty()
        }
    }

    /// Where the migration is once an action was done.
    pub open spec fn after_done(self) -> MigrateState {
        match self.phase {
            MigratePhase::Restoring => MigrateState { phase: MigratePhase::ReadingVersion, ..self },
            MigratePhase::BackingUp => MigrateState {
                phase: MigratePhase::ListingScripts,
                backed_up: true,
                ..self
            },
            MigratePhase::Scripts => if self.done < self.pending.len() {
                let done = self.done + 1;
                MigrateState { done, phase: self.phase_at(done), ..self }
            } else {
                MigrateState { phase: MigratePhase::Finished, ..self }
            },
            _ => self,
        }
    }

    /// The phase once `done` of the pending scripts are done. A dry run ends with a summary.
    pub open spec fn phase_at(self, done: nat) -> MigratePhase {
        if done == self.pending.len() && self.plan is Apply {
            MigratePhase::Finished
        } else {
            MigratePhase::Scripts
        }
    }

    /// Where the migration is once the version was read.
    pub open spec fn after_version(self, version: int) -> MigrateState {
        if self.phase is ReadingVersion {
            MigrateState {
                phase: match self.plan {
                    MigratePlan::Repair => MigratePhase::Finished,
                    MigratePlan::DryRun => MigratePhase::ListingScripts,
                    MigratePlan::Apply => MigratePhase::BackingUp,
                },
                current: version,
                pending: Seq::empty(),
                done: 0,
                ..self
            }
        } else {
            self
        }
    }

    /// Whether the migration may be in the state `next` once these names were listed.
    pub open spec fn after_names(self, names: Seq<Seq<char>>, next: MigrateState) -> bool {
        if self.phase is ListingScripts {
            exists|scripts: Seq<(int, Seq<char>)>| #[trigger]
                is_ordered(scripts, migrations(names)) && next == {
                    let listed = MigrateState {
                        pending: pending(scripts, self.current),
                        done: 0,
                        ..self
                    };
                    MigrateState { phase: listed.phase_at(0), ..listed }
                }
        } else {
            next == self
        }
    }

    /// Whether an event leads from this state to `next`. One that does not answer the action
    /// leads nowhere.
    pub open spec fn leads_to(self, event: MigrateEvent, next: MigrateState) -> bool {
        match event {
            MigrateEvent::Done => next == self.after_done(),
            MigrateEvent::Version(version) => next == self.after_version(version as int),
            MigrateEvent::Names(names) => self.after_names(names.deep_view(), next),
        }
    }
}

impl MigrateRun {
    /// The start of a migration.
    pub fn new(repair: bool, dry_run: bool) -> (r: Self)
        ensures
            r@ == MigrateState::start(
                if repair {
                    MigratePlan::Repair
                } else if dry_run {
                    MigratePlan::DryRun
                } else {
                    MigratePlan::Apply
                },
            ),
            r@.well_formed(),
    {
        let plan = migrate_plan(repair, dry_run);
        let phase = match plan {
            MigratePlan::Repair => MigratePhase::Restoring,
            _ => MigratePhase::ReadingVersion,
        };
        let r = MigrateRun {
            plan,
            phase,
            current: 0,
            backed_up: false,
            pending: Vec::new(),
            done: 0,
        };
        assert(r@.pending =~= Seq::empty());
        r
    }

    /// What is to be done next.
    pub fn action(&self) -> (r: MigrateAction)
        requires
            self@.well_formed(),
        ensures
            r.deep_view() == self@.action(),
    {
        match self.phase {
            MigratePhase::Restoring => MigrateAction::Restore,
            MigratePhase::ReadingVersion => MigrateAction::ReadVersion,
            MigratePhase::BackingUp => MigrateAction::Backup,
            MigratePhase::ListingScripts => MigrateAction::ListScripts,
            MigratePhase::Scripts => if self.done < self.pending.len() {
                let script = &self.pending[self.done];
                assert(self@.pending[self.done as int] == script.deep_view());
                let version: i64 = script.version;
                let name = script.name.clone();
                match self.plan {
                    MigratePlan::Apply => MigrateAction::Run { version, name },
                    _ => MigrateAction::Tell { version, name },
                }
            } else {
                MigrateAction::Summarize(dry_run_summary(self.pending.as_slice(), self.current))
            },
            MigratePhase::Finished => MigrateAction::Finish,
        }
    }

    /// Takes note of what came of the action.
    pub fn advance(&mut self, event: MigrateEvent)
        requires
            old(self)@.well_formed(),
        ensures
            old(self)@.leads_to(event, final(self)@),
            final(self)@.well_formed(),
    {
        let ghost before = self@;
        match event {
            MigrateEvent::Done => match self.phase {
                MigratePhase::Restoring => {
                    self.phase = MigratePhase::ReadingVersion;
                },
                MigratePhase::BackingUp => {
                    self.phase = MigratePhase::ListingScripts;
                    self.backed_up = true;
                },
                MigratePhase::Scripts => {
                    if self.done < self.pending.len() {
                        self.done = self.done + 1;
                        self.finish_if_done();
                    } else {
                        self.phase = MigratePhase::Finished;
                    }
                },
                _ => {},
            },
            MigrateEvent::Version(version) => {
                if let MigratePhase::ReadingVersion = self.phase {
                    self.phase = match self.plan {
                        MigratePlan::Repair => MigratePhase::Finished,
                        MigratePlan::DryRun => MigratePhase::ListingScripts,
                        MigratePlan::Apply => MigratePhase::BackingUp,
                    };
                    self.current = version;
                    self.pending = Vec::new();
                    self.done = 0;
                    assert(self@ =~= before.after_version(version as int));
                }
            },
            MigrateEvent::Names(names) => {
                if let MigratePhase::ListingScripts = self.phase {
                    let scripts = migration_files(names.as_slice());
                    let ghost listed = scripts.deep_view();
                    proof {
                        law_pending_scripts_move_forward(listed, self.current as int);
                    }
                    self.pending = pending_migrations(scripts, self.current);
                    self.done = 0;
                    self.phase = MigratePhase::Scripts;
                    self.finish_if_done();
                    assert(is_ordered(listed, migrations(names.deep_view())));
                }
            },
        }
    }

    fn finish_if_done(&mut self)
        requires
            old(self)@.phase is Scripts,
        ensures
            final(self)@ == (MigrateState {
                phase: old(self)@.phase_at(old(self)@.done),
                ..old(self)@
            }),
    {
        if self.done == self.pending.len() {
            if let MigratePlan::Apply = self.plan {
                self.phase = MigratePhase::Finished;
            }
        }
    }

    /// What the migration did.
    pub fn result(&self) -> (r: MigrateResult)
        requires
            self@.well_formed(),
            self@.phase is Finished,
        ensures
            r.current_version == self@.current,
            r.applied@.map_values(|version: i64| version as int) == self@.applied(),
            r.backup_created == self@.backed_up,
    {
        match self.plan {
            MigratePlan::Apply => migrated(self.current, self.pending.as_slice()),
            _ => {
                let r = not_migrated(self.current);
                assert(r.applied@.map_values(|version: i64| version as int) =~= Seq::empty());
                r
            },
        }
    }
}

/// No script is run before the database was copied, and none that is not later than the version
/// of the database.
pub proof fn law_no_script_is_run_without_a_backup(state: MigrateState)
    requires
        state.well_formed(),
        state.action() is Run,
    ensures
        state.plan is Apply,
        state.backed_up,
        state.action()->Run_0 > state.current,
{
    assert(state.pending[state.done as int].0 > state.current);
}

/// The database counts as copied only once the copy was asked for and done.
pub proof fn law_a_backup_is_asked_for(
    state: MigrateState,
    event: MigrateEvent,
    next: MigrateState,
)
    requires
        state.well_formed(),
        state.leads_to(event, next),
        !state.backed_up,
        next.backed_up,
    ensures
        state.action() is Backup,
        event is Done,
{
}

/// A dry run and a repair neither run a script nor copy the database, whatever happens.
pub proof fn law_only_applying_changes_the_database(
    state: MigrateState,
    event: MigrateEvent,
    next: MigrateState,
)
    requires
        state.well_formed(),
        state.leads_to(event, next),
        !(state.plan is Apply),
    ensures
        next.plan == state.plan,
        !(next.action() is Run),
        !(next.action() is Backup),
        !next.backed_up,
{
}

/// Every event leads to a state in which what always holds of a migration does.
proof fn lemma_stays_well_formed(state: MigrateState, event: MigrateEvent, next: MigrateState)
    requires
        state.well_formed(),
        state.leads_to(event, next),
    ensures
        next.well_formed(),
        next.plan == state.plan,
{
    if let MigrateEvent::Names(names) = event {
        if state.phase is ListingScripts {
            let scripts = choose|scripts: Seq<(int, Seq<char>)>| #[trigger]
                is_ordered(scripts, migrations(names.deep_view())) && next == {
                    let listed = MigrateState {
                        pending: pending(scripts, state.current),
                        done: 0,
                        ..state
                    };
                    MigrateState { phase: listed.phase_at(0), ..listed }
                };
            law_pending_scripts_move_forward(scripts, state.current);
        }
    }
}

/// The contents of the database, and those of its copy, if there is one.
pub struct Files<D> {
    pub database: D,
    pub backup: Option<D>,
}

/// Whether an action, of which this event came, may leave the files `after` where they were
/// `before`. A script may leave any database, and no action but a backup touches the copy;
/// `version_in` is the version of the schema in a database.
pub open spec fn may_change<D>(
    action: MigrateStep,
    event: MigrateEvent,
    version_in: spec_fn(D) -> i64,
    before: Files<D>,
    after: Files<D>,
) -> bool {
    match action {
        MigrateStep::Restore => {
            &&& before.backup is Some
            &&& after == (Files { database: before.backup->0, ..before })
        },
        MigrateStep::Backup => after == (Files { backup: Some(before.database), ..before }),
        MigrateStep::Run(_, _) => after.backup == before.backup,
        MigrateStep::ReadVersion => {
            &&& after == before
            &&& event matches MigrateEvent::Version(version) ==> version == version_in(
                before.database,
            )
        },
        _ => after == before,
    }
}

/// Whether the state at `k`, and the files there, follow from those before.
pub open spec fn is_migration_step<D>(
    version_in: spec_fn(D) -> i64,
    states: Seq<MigrateState>,
    files: Seq<Files<D>>,
    events: Seq<MigrateEvent>,
    k: int,
) -> bool {
    &&& states[k - 1].leads_to(events[k - 1], states[k])
    &&& may_change(states[k - 1].action(), events[k - 1], version_in, files[k - 1], files[k])
}

/// Whether `states`, with the files in `files` at each of them, are those of a migration in which
/// `events` came of the actions.
pub open spec fn is_migration<D>(
    plan: MigratePlan,
    version_in: spec_fn(D) -> i64,
    states: Seq<MigrateState>,
    files: Seq<Files<D>>,
    events: Seq<MigrateEvent>,
) -> bool {
    &&& states.len() > 0
    &&& files.len() == states.len()
    &&& events.len() == states.len()
    &&& states[0] == MigrateState::start(plan)
    &&& forall|k: int|
        0 < k < states.len() ==> #[trigger] is_migration_step(version_in, states, files, events, k)
}

/// Until the copy is made the database is as it was, and from then on the copy holds it.
proof fn lemma_copy_holds_the_start<D>(
    version_in: spec_fn(D) -> i64,
    states: Seq<MigrateState>,
    files: Seq<Files<D>>,
    events: Seq<MigrateEvent>,
    k: int,
)
    requires
        is_migration(MigratePlan::Apply, version_in, states, files, events),
        0 <= k < states.len(),
    ensures
        states[k].well_formed(),
        states[k].plan is Apply,
        if states[k].backed_up {
            files[k].backup == Some(files[0].database)
        } else {
            files[k].database == files[0].database
        },
    decreases k,
{
    if k > 0 {
        lemma_copy_holds_the_start(version_in, states, files, events, k - 1);
        assert(is_migration_step(version_in, states, files, events, k));
        lemma_stays_well_formed(states[k - 1], events[k - 1], states[k]);
    }
}

/// A repair keeps the copy, and has put it in the place of the database before it goes on.
proof fn lemma_repair_restores_the_copy<D>(
    version_in: spec_fn(D) -> i64,
    states: Seq<MigrateState>,
    files: Seq<Files<D>>,
    events: Seq<MigrateEvent>,
    k: int,
)
    requires
        is_migration(MigratePlan::Repair, version_in, states, files, events),
        files[0].backup is Some,
        0 <= k < states.len(),
    ensures
        states[k].well_formed(),
        states[k].plan is Repair,
        files[k].backup == files[0].backup,
        !(states[k].phase is Restoring) ==> files[k].database == files[0].backup->0,
        states[k].phase is Finished ==> states[k].current == version_in(files[0].backup->0),
    decreases k,
{
    if k > 0 {
        lemma_repair_restores_the_copy(version_in, states, files, events, k - 1);
        assert(is_migration_step(version_in, states, files, events, k));
        lemma_stays_well_formed(states[k - 1], events[k - 1], states[k]);
    }
}

/// A repair gives back the database that was there before the last migration. The migration has
/// finished, or stopped at a script; whatever became of the database since, the repair puts its
/// old contents back, keeps the copy, runs no script, makes no copy, and tells the version of the
/// old contents.
pub proof fn law_repair_gives_back_what_was_there<D>(
    version_in: spec_fn(D) -> i64,
    states: Seq<MigrateState>,
    files: Seq<Files<D>>,
    events: Seq<MigrateEvent>,
    repair_states: Seq<MigrateState>,
    repair_files: Seq<Files<D>>,
    repair_events: Seq<MigrateEvent>,
)
    requires
        is_migration(MigratePlan::Apply, version_in, states, files, events),
        states.last().phase is Finished || states.last().action() is Run,
        is_migration(
            MigratePlan::Repair,
            version_in,
            repair_states,
            repair_files,
            repair_events,
        ),
        repair_files[0].backup == files.last().backup,
        repair_states.last().phase is Finished,
    ensures
        repair_files.last().database == files[0].database,
        repair_files.last().backup == Some(files[0].database),
        repair_states.last().current == version_in(files[0].database),
        repair_states.last().applied() == Seq::<int>::empty(),
        !repair_states.last().backed_up,
{
    lemma_copy_holds_the_start(version_in, states, files, events, states.len() - 1);
    lemma_repair_restores_the_copy(
        version_in,
        repair_states,
        repair_files,
        repair_events,
        repair_states.len() - 1,
    );
}

} // verus!
