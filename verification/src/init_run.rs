//! Setting up the database, step by step.
use vstd::prelude::*;

use crate::migrate::{
    in_order, init_plan, is_ordered, law_pending_scripts_move_forward, migration_files, migrations,
    pending, pending_migrations, InitPlan, Migration, FIRST_VERSION,
};

verus! {

/// How far the set-up has come.
#[derive(Debug, Clone, Copy, PartialEq, Eq, Structural)]
pub enum InitPhase {
    ReadingVersion,
    FirstScript,
    ListingScripts,
    Scripts,
    Finished,
}

/// What is to be done next.
#[derive(Debug, PartialEq, Eq)]
pub enum InitAction {
    /// Read the version of the schema.
    ReadVersion,
    /// Run the script that creates the schema.
    RunFirst,
    /// List the names of the scripts.
    ListScripts,
    /// Run a script, as a whole or not at all.
    Run { version: i64, name: String },
    /// Nothing more.
    Finish,
}

/// What is to be done next, by its contents.
pub enum InitStep {
    ReadVersion,
    RunFirst,
    ListScripts,
    Run(int, Seq<char>),
    Finish,
}

impl DeepView for InitAction {
    type V = InitStep;

    open spec fn deep_view(&self) -> InitStep {
        match self {
            InitAction::ReadVersion => InitStep::ReadVersion,
            InitAction::RunFirst => InitStep::RunFirst,
            InitAction::ListScripts => InitStep::ListScripts,
            InitAction::Run { version, name } => InitStep::Run(*version as int, name@),
            InitAction::Finish => InitStep::Finish,
        }
    }
}

/// What came of an action.
#[derive(Debug)]
pub enum InitEvent {
    /// It was done.
    Done,
    /// The version that was read.
    Version(i64),
    /// The names that were listed.
    Names(Vec<String>),
}

/// A set-up under way.
#[derive(Debug)]
pub struct InitRun {
    plan: InitPlan,
    phase: InitPhase,
    pending: Vec<Migration>,
    done: usize,
}

/// What a set-up under way holds.
#[verifier::ext_equal]
pub struct InitState {
    /// How the database is set up, as far as that is known.
    pub plan: InitPlan,
    pub phase: InitPhase,
    /// The scripts to run after the first one, once they were listed.
    pub pending: Seq<(int, Seq<char>)>,
    /// How many of them were run.
    pub done: nat,
}

impl View for InitRun {
    type V = InitState;

    closed spec fn view(&self) -> InitState {
        InitState {
            plan: self.plan,
            phase: self.phase,
            pending: self.pending.deep_view(),
            done: self.done as nat,
        }
    }
}

/// How a database with a schema of this version is set up; one of the version zero has none.
pub open spec fn plan_for(version: i64) -> InitPlan {
    if version == 0 {
        InitPlan::Upgrade
    } else {
        InitPlan::Keep(version)
    }
}

impl InitState {
    /// The start of a set-up. A database that is not there has no version to read.
    pub open spec fn start(found: bool) -> InitState {
        InitState {
            plan: InitPlan::Create,
            phase: if found {
                InitPhase::ReadingVersion
            } else {
                InitPhase::FirstScript
            },
            pending: Seq::empty(),
            done: 0,
        }
    }

    /// What always holds of a set-up: a database that has a schema keeps it, and the scripts come
    /// in order, each later than the first one.
    pub open spec fn well_formed(self) -> bool {
        &&& self.done <= self.pending.len()
        &&& self.plan is Keep ==> self.phase is Finished && self.pending.len() == 0
        &&& !(self.phase is Scripts || self.phase is Finished) ==> self.pending.len() == 0
        &&& self.phase is Scripts ==> self.done < self.pending.len()
        &&& self.phase is Finished ==> self.done == self.pending.len()
        &&& in_order(self.pending)
        &&& forall|i: int|
            0 <= i < self.pending.len() ==> (#[trigger] self.pending[i]).0 > FIRST_VERSION
    }

    /// What is to be done next.
    pub open spec fn action(self) -> InitStep {
        match self.phase {
            InitPhase::ReadingVersion => InitStep::ReadVersion,
            InitPhase::FirstScript => InitStep::RunFirst,
            InitPhase::ListingScripts => InitStep::ListScripts,
            InitPhase::Scripts => {
                let script = self.pending[self.done as int];
                InitStep::Run(script.0, script.1)
            },
            InitPhase::Finished => InitStep::Finish,
        }
    }

    /// The set-up with `done` of these scripts run.
    pub open spec fn with_scripts(self, scripts: Seq<(int, Seq<char>)>, done: nat) -> InitState {
        InitState {
            phase: if done == scripts.len() {
                InitPhase::Finished
            } else {
                InitPhase::Scripts
            },
            pending: scripts,
            done,
            ..self
        }
    }

    /// Where the set-up is once an action was done.
    pub open spec fn after_done(self) -> InitState {
        match self.phase {
            InitPhase::FirstScript => InitState { phase: InitPhase::ListingScripts, ..self },
            InitPhase::Scripts => self.with_scripts(self.pending, self.done + 1),
            _ => self,
        }
    }

    /// Where the set-up is once the version was read.
    pub open spec fn after_version(self, version: i64) -> InitState {
        if self.phase is ReadingVersion {
            InitState {
                plan: plan_for(version),
                phase: if version == 0 {
                    InitPhase::FirstScript
                } else {
                    InitPhase::Finished
                },
                ..self
            }
        } else {
            self
        }
    }

    /// Whether the set-up may be in the state `next` once these names were listed.
    pub open spec fn after_names(self, names: Seq<Seq<char>>, next: InitState) -> bool {
        if self.phase is ListingScripts {
            exists|scripts: Seq<(int, Seq<char>)>| #[trigger]
                is_ordered(scripts, migrations(names)) && next == self.with_scripts(
                    pending(scripts, FIRST_VERSION as int),
                    0,
                )
        } else {
            next == self
        }
    }

    /// Whether an event leads from this state to `next`. One that does not answer the action
    /// leads nowhere.
    pub open spec fn leads_to(self, event: InitEvent, next: InitState) -> bool {
        match event {
            InitEvent::Done => next == self.after_done(),
            InitEvent::Version(version) => next == self.after_version(version),
            InitEvent::Names(names) => self.after_names(names.deep_view(), next),
        }
    }
}

impl InitRun {
    /// The start of a set-up, where the database was found, or not.
    pub fn new(found: bool) -> (r: Self)
        ensures
            r@ == InitState::start(found),
            r@.well_formed(),
    {
        let phase = if found {
            InitPhase::ReadingVersion
        } else {
            InitPhase::FirstScript
        };
        let r = InitRun { plan: init_plan(None), phase, pending: Vec::new(), done: 0 };
        assert(r@.pending =~= Seq::empty());
        r
    }

    /// What is to be done next.
    pub fn action(&self) -> (r: InitAction)
        requires
            self@.well_formed(),
        ensures
            r.deep_view() == self@.action(),
    {
        match self.phase {
            InitPhase::ReadingVersion => InitAction::ReadVersion,
            InitPhase::FirstScript => InitAction::RunFirst,
            InitPhase::ListingScripts => InitAction::ListScripts,
            InitPhase::Scripts => {
                let script = &self.pending[self.done];
                assert(self@.pending[self.done as int] == script.deep_view());
                InitAction::Run { version: script.version, name: script.name.clone() }
            },
            InitPhase::Finished => InitAction::Finish,
        }
    }

    /// Takes note of what came of the action.
    pub fn advance(&mut self, event: InitEvent)
        requires
            old(self)@.well_formed(),
        ensures
            old(self)@.leads_to(event, final(self)@),
            final(self)@.well_formed(),
    {
        match event {
            InitEvent::Done => match self.phase {
                InitPhase::FirstScript => {
                    self.phase = InitPhase::ListingScripts;
                },
                InitPhase::Scripts => {
                    assert(self.done < self.pending.len());
                    self.done = self.done + 1;
                    if self.done == self.pending.len() {
                        self.phase = InitPhase::Finished;
                    }
                },
                _ => {},
            },
            InitEvent::Version(version) => {
                if let InitPhase::ReadingVersion = self.phase {
                    self.plan = init_plan(Some(version));
                    self.phase = if version == 0 {
                        InitPhase::FirstScript
                    } else {
                        InitPhase::Finished
                    };
                }
            },
            InitEvent::Names(names) => {
                if let InitPhase::ListingScripts = self.phase {
                    let scripts = migration_files(names.as_slice());
                    let ghost listed = scripts.deep_view();
                    proof {
                        law_pending_scripts_move_forward(listed, FIRST_VERSION as int);
                    }
                    self.pending = pending_migrations(scripts, FIRST_VERSION);
                    self.done = 0;
                    self.phase = if self.pending.len() == 0 {
                        InitPhase::Finished
                    } else {
                        InitPhase::Scripts
                    };
                    assert(is_ordered(listed, migrations(names.deep_view())));
                }
            },
        }
    }

    /// How the database was set up.
    pub fn plan(&self) -> (r: InitPlan)
        ensures
            r == self@.plan,
    {
        self.plan
    }
}

/// Whether a run of the first script is behind `state`, or is not called for.
pub open spec fn is_past_first(state: InitState) -> bool {
    state.phase is ListingScripts || state.phase is Scripts || state.phase is Finished
}

/// A set-up gets past the first script only by running it, unless the database has a schema. So
/// the first script is run before any other.
pub proof fn law_the_first_script_comes_first(
    state: InitState,
    event: InitEvent,
    next: InitState,
)
    requires
        state.well_formed(),
        state.leads_to(event, next),
        !is_past_first(state),
        is_past_first(next),
    ensures
        state.action() is RunFirst && event is Done || next.plan is Keep,
        !(next.action() is Run),
{
}

/// A database that has a schema is left alone: nothing is run on it, and its version is told.
pub proof fn law_a_schema_is_kept(state: InitState, version: i64, next: InitState)
    requires
        state.well_formed(),
        state.action() is ReadVersion,
        version != 0,
        state.leads_to(InitEvent::Version(version), next),
    ensures
        next.action() is Finish,
        next.plan == InitPlan::Keep(version),
{
}

/// After the first script only those of later versions are run.
pub proof fn law_only_later_scripts_follow(state: InitState)
    requires
        state.well_formed(),
        state.action() is Run,
    ensures
        state.action()->Run_0 > FIRST_VERSION,
        !(state.plan is Keep),
{
    assert(state.pending[state.done as int].0 > FIRST_VERSION);
}

} // verus!
