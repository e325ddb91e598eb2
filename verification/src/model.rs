//! The bridge as a state machine: its states, and the step it takes on each
//! event. Everything here is mathematics; [`crate::bridge::Bridge`] is the
//! executable bridge that follows it.

use crate::entry::{EntryPoint, ResolveError, ResolvedEntryPoint};
use crate::failure::Failure;
use crate::module::{LoadError, ModuleHandle};
use crate::protocol::{Action, ContextId, Elapsed, Event};
use vstd::prelude::*;

verus! {

/// The number of update calls after which the run is over.
pub const TICK_LIMIT: u32 = 10;

/// The phases of the invocation scheduler.
#[derive(Clone, Copy, Debug, PartialEq, Eq, Structural)]
pub enum Phase {
    /// No module is active: none was activated yet, or activation failed.
    Inactive,
    /// The module is activated and its initializer is running.
    Initializing,
    /// The initializer has returned; the module is updated once per tick.
    Running,
    /// The bounded run is over. Nothing is called any more.
    Finished,
}

/// How far activation has come. Only [`Progress::Activated`] leaves the
/// scheduler's [`Phase::Inactive`].
#[derive(Clone, Copy, Debug, PartialEq, Eq, Structural)]
pub enum Progress {
    /// The startup hook has not run yet.
    Dormant,
    /// The locator was asked whether the module exists.
    Locating,
    /// The loader was asked to load the module.
    Loading,
    /// The resolver was asked for this entry point.
    Resolving(EntryPoint),
    /// Module loaded, both entry points resolved.
    Activated,
    /// A step of activation failed. There is no second attempt.
    Failed,
}

/// The state of the bridge.
pub struct BridgeState {
    /// The one execution context the bridge serves.
    pub home: ContextId,
    /// The scheduler's phase.
    pub phase: Phase,
    /// How far activation has come.
    pub progress: Progress,
    /// The loaded module, once there is one. It is never given up.
    pub module: Option<ModuleHandle>,
    /// The resolved initializer.
    pub init: Option<ResolvedEntryPoint>,
    /// The resolved update entry point.
    pub update: Option<ResolvedEntryPoint>,
    /// Whether the initializer has run to completion.
    pub initialized: bool,
    /// The number of update calls that have returned.
    pub ticks: nat,
    /// Whether a call into the module is in progress: the mutual-exclusion
    /// token is taken.
    pub calling: bool,
}

impl BridgeState {
    /// The state of a bridge that serves `home` and has not started yet.
    pub open spec fn initial(home: ContextId) -> BridgeState {
        BridgeState {
            home,
            phase: Phase::Inactive,
            progress: Progress::Dormant,
            module: None,
            init: None,
            update: None,
            initialized: false,
            ticks: 0,
            calling: false,
        }
    }

    /// What the module and the entry points have to be at each point of
    /// activation: what was obtained so far is held, bound to the one module,
    /// and nothing else.
    pub open spec fn holdings_wf(self) -> bool {
        match self.progress {
            Progress::Dormant | Progress::Locating | Progress::Loading => {
                &&& self.module is None
                &&& self.init is None
                &&& self.update is None
            },
            Progress::Resolving(EntryPoint::Init) => {
                &&& self.module is Some
                &&& self.init is None
                &&& self.update is None
            },
            Progress::Resolving(EntryPoint::Update) => {
                &&& self.module matches Some(module)
                &&& self.init == Some(ResolvedEntryPoint { module, entry: EntryPoint::Init })
                &&& self.update is None
            },
            Progress::Activated => {
                &&& self.module matches Some(module)
                &&& self.init == Some(ResolvedEntryPoint { module, entry: EntryPoint::Init })
                &&& self.update == Some(ResolvedEntryPoint { module, entry: EntryPoint::Update })
            },
            Progress::Failed => self.update is None,
        }
    }

    /// What the counters and flags have to be in each phase.
    pub open spec fn schedule_wf(self) -> bool {
        match self.phase {
            Phase::Inactive => {
                &&& !(self.progress is Activated)
                &&& !self.initialized
                &&& !self.calling
                &&& self.ticks == 0
            },
            Phase::Initializing => {
                &&& self.progress is Activated
                &&& !self.initialized
                &&& self.calling
                &&& self.ticks == 0
            },
            Phase::Running => {
                &&& self.progress is Activated
                &&& self.initialized
                &&& self.ticks < TICK_LIMIT
            },
            Phase::Finished => {
                &&& self.progress is Activated
                &&& self.initialized
                &&& !self.calling
                &&& self.ticks == TICK_LIMIT
            },
        }
    }

    /// The invariant of the bridge. Among other things it says that a call is
    /// in progress only while initializing or running, that the update entry
    /// point is held only once the module is activated, and that the
    /// initializer has completed in every state in which an update can be
    /// called.
    pub open spec fn wf(self) -> bool {
        self.holdings_wf() && self.schedule_wf()
    }

    /// Whether the bridge has come to rest: activation has failed, or the run
    /// is finished. Either way nothing will be called any more.
    pub open spec fn settled(self) -> bool {
        self.progress is Failed || self.phase is Finished
    }

    /// The state in which activation has failed. What was loaded stays
    /// loaded; nothing of it will be called.
    pub open spec fn failed(self) -> BridgeState {
        BridgeState { progress: Progress::Failed, ..self }
    }

    /// The startup hook: begin activation by asking for the module. The hook
    /// counts once; a bridge that has started, or failed, stays as it is.
    pub open spec fn on_startup(self) -> (BridgeState, Action) {
        if self.progress is Dormant {
            (BridgeState { progress: Progress::Locating, ..self }, Action::Locate)
        } else {
            (self, Action::Idle)
        }
    }

    /// The locator has answered. A module that exists is loaded next; one
    /// that does not ends activation.
    pub open spec fn on_located(self, exists: bool) -> (BridgeState, Action) {
        if !(self.progress is Locating) {
            (self, Action::Idle)
        } else if exists {
            (BridgeState { progress: Progress::Loading, ..self }, Action::Load)
        } else {
            (self.failed(), Action::Report(Failure::ModuleNotFound))
        }
    }

    /// The loader has answered. The bridge takes the module and asks for the
    /// initializer, or gives up with the loader's reason.
    pub open spec fn on_loaded(self, outcome: Result<ModuleHandle, LoadError>) -> (
        BridgeState,
        Action,
    ) {
        if !(self.progress is Loading) {
            (self, Action::Idle)
        } else {
            match outcome {
                Ok(module) => (
                    BridgeState {
                        progress: Progress::Resolving(EntryPoint::Init),
                        module: Some(module),
                        ..self
                    },
                    Action::Resolve(module, EntryPoint::Init),
                ),
                Err(LoadError::Open(reason)) => (
                    self.failed(),
                    Action::Report(Failure::LoadFailed(reason)),
                ),
            }
        }
    }

    /// Whether `outcome` answers the request for `entry` in `module`: a
    /// resolved entry point has to be that entry, bound to that module; a
    /// failure has to be about that entry.
    pub open spec fn answers(
        module: ModuleHandle,
        entry: EntryPoint,
        outcome: Result<ResolvedEntryPoint, ResolveError>,
    ) -> bool {
        match outcome {
            Ok(resolved) => resolved.module == module && resolved.entry == entry,
            Err(ResolveError::SymbolNotFound(missing)) => missing == entry,
        }
    }

    /// The resolver has answered. After the initializer the update entry
    /// point is asked for; once both are held the module is activated and
    /// its initializer is called, under the mutual-exclusion token. A missing
    /// export ends activation: both are required, and neither is called
    /// unless both resolved.
    pub open spec fn on_resolved(self, outcome: Result<ResolvedEntryPoint, ResolveError>) -> (
        BridgeState,
        Action,
    ) {
        match (self.progress, self.module) {
            (Progress::Resolving(entry), Some(module)) => {
                if !Self::answers(module, entry, outcome) {
                    (self, Action::Idle)
                } else {
                    match (outcome, entry, self.init) {
                        (Err(_), _, _) => (
                            self.failed(),
                            Action::Report(Failure::SymbolNotFound(entry)),
                        ),
                        (Ok(resolved), EntryPoint::Init, _) => (
                            BridgeState {
                                progress: Progress::Resolving(EntryPoint::Update),
                                init: Some(resolved),
                                ..self
                            },
                            Action::Resolve(module, EntryPoint::Update),
                        ),
                        (Ok(resolved), EntryPoint::Update, Some(init)) => (
                            BridgeState {
                                progress: Progress::Activated,
                                phase: Phase::Initializing,
                                update: Some(resolved),
                                calling: true,
                                ..self
                            },
                            Action::Initialize(init),
                        ),
                        (Ok(_), EntryPoint::Update, None) => (self, Action::Idle),
                    }
                }
            },
            _ => (self, Action::Idle),
        }
    }

    /// The call in progress has returned: the token is released. The return
    /// of the initializer starts the run; the return of an update call counts
    /// a tick, and the last tick of the run ends it and asks the host to shut
    /// down. Without a call in progress there is nothing to return from.
    pub open spec fn on_returned(self) -> (BridgeState, Action) {
        if !self.calling {
            (self, Action::Idle)
        } else {
            match self.phase {
                Phase::Initializing => (
                    BridgeState {
                        phase: Phase::Running,
                        initialized: true,
                        calling: false,
                        ..self
                    },
                    Action::Idle,
                ),
                Phase::Running => {
                    if self.ticks + 1 >= TICK_LIMIT {
                        (
                            BridgeState {
                                phase: Phase::Finished,
                                ticks: self.ticks + 1,
                                calling: false,
                                ..self
                            },
                            Action::Shutdown,
                        )
                    } else {
                        (
                            BridgeState { ticks: self.ticks + 1, calling: false, ..self },
                            Action::Idle,
                        )
                    }
                },
                _ => (self, Action::Idle),
            }
        }
    }

    /// The per-tick hook. A running module is updated, once, with the tick's
    /// elapsed time and under the token; while a call is in progress the
    /// caller has to wait; a finished run asks for shutdown again; without an
    /// active module the host runs on its own.
    pub open spec fn on_tick(self, elapsed: Elapsed) -> (BridgeState, Action) {
        match (self.phase, self.update) {
            (Phase::Inactive, _) => (self, Action::Idle),
            (Phase::Finished, _) => (self, Action::Shutdown),
            (Phase::Initializing, _) => (self, Action::Wait),
            (Phase::Running, Some(target)) => {
                if self.calling {
                    (self, Action::Wait)
                } else {
                    (
                        BridgeState { calling: true, ..self },
                        Action::Update { target, tick: self.ticks as u32, elapsed },
                    )
                }
            },
            (Phase::Running, None) => (self, Action::Idle),
        }
    }

    /// The step on an event that comes from the bridge's own context.
    pub open spec fn handle(self, event: Event) -> (BridgeState, Action) {
        match event {
            Event::Startup => self.on_startup(),
            Event::Located(exists) => self.on_located(exists),
            Event::Loaded(outcome) => self.on_loaded(outcome),
            Event::Resolved(outcome) => self.on_resolved(outcome),
            Event::Returned => self.on_returned(),
            Event::Tick(elapsed) => self.on_tick(elapsed),
        }
    }

    /// The step of the bridge: the state it moves to and the action it asks
    /// for when `caller` reports `event`. A caller from any other context than
    /// the bridge's own is refused, and nothing changes.
    pub open spec fn step(self, caller: ContextId, event: Event) -> (BridgeState, Action) {
        if caller == self.home {
            self.handle(event)
        } else {
            (self, Action::Refuse)
        }
    }
}

/// A bridge that has not started is well formed.
pub proof fn lemma_initial_wf(home: ContextId)
    ensures
        BridgeState::initial(home).wf(),
{
}

/// Every step keeps the bridge well formed, and never changes the context it
/// serves.
pub proof fn lemma_step_wf(state: BridgeState, caller: ContextId, event: Event)
    requires
        state.wf(),
    ensures
        state.step(caller, event).0.wf(),
        state.step(caller, event).0.home == state.home,
{
}

} // verus!
