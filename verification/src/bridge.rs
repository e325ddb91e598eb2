//! The executable bridge.

use crate::entry::{EntryPoint, ResolveError, ResolvedEntryPoint};
use crate::failure::Failure;
use crate::model::{BridgeState, Phase, Progress, TICK_LIMIT};
use crate::module::{LoadError, ModuleHandle};
use crate::protocol::{Action, ContextId, Elapsed, Event};
use vstd::prelude::*;

verus! {

/// The bridge: it owns the loaded module and its resolved entry points, and
/// schedules every call into them.
///
/// The host feeds it events with [`Bridge::step`] and does what the returned
/// action says. The bridge is always well formed ([`BridgeState::wf`]).
pub struct Bridge {
    home: ContextId,
    phase: Phase,
    progress: Progress,
    module: Option<ModuleHandle>,
    init: Option<ResolvedEntryPoint>,
    update: Option<ResolvedEntryPoint>,
    initialized: bool,
    ticks: u32,
    calling: bool,
}

impl View for Bridge {
    type V = BridgeState;

    closed spec fn view(&self) -> BridgeState {
        BridgeState {
            home: self.home,
            phase: self.phase,
            progress: self.progress,
            module: self.module,
            init: self.init,
            update: self.update,
            initialized: self.initialized,
            ticks: self.ticks as nat,
            calling: self.calling,
        }
    }
}

impl Bridge {
    #[verifier::type_invariant]
    spec fn well_formed(&self) -> bool {
        self@.wf()
    }

    /// A bridge for the execution context `home`, created before the host
    /// starts. It is inactive and has called nothing.
    pub fn new(home: ContextId) -> (bridge: Bridge)
        ensures
            bridge@ == BridgeState::initial(home),
            bridge@.wf(),
    {
        Bridge {
            home,
            phase: Phase::Inactive,
            progress: Progress::Dormant,
            module: None,
            init: None,
            update: None,
            initialized: false,
            ticks: 0,
            calling: false,
        }
    }

    /// The execution context the bridge serves.
    pub fn home(&self) -> (home: ContextId)
        ensures
            home == self@.home,
    {
        self.home
    }

    /// The scheduler's phase.
    pub fn phase(&self) -> (phase: Phase)
        ensures
            phase == self@.phase,
    {
        self.phase
    }

    /// How far activation has come.
    pub fn progress(&self) -> (progress: Progress)
        ensures
            progress == self@.progress,
    {
        self.progress
    }

    /// The module the bridge owns, once one was loaded.
    pub fn module(&self) -> (module: Option<ModuleHandle>)
        ensures
            module == self@.module,
    {
        self.module
    }

    /// Whether the initializer has run to completion.
    pub fn is_initialized(&self) -> (initialized: bool)
        ensures
            initialized == self@.initialized,
    {
        self.initialized
    }

    /// The number of update calls that have returned.
    pub fn ticks(&self) -> (ticks: u32)
        ensures
            ticks == self@.ticks,
            ticks <= TICK_LIMIT,
    {
        proof {
            use_type_invariant(self);
        }
        self.ticks
    }

    /// Whether a call into the module is in progress.
    pub fn is_calling(&self) -> (calling: bool)
        ensures
            calling == self@.calling,
    {
        self.calling
    }

    /// Gives activation up. Only an inactive bridge can: there is nothing
    /// to give up once the module is activated.
    fn fail(&mut self)
        requires
            old(self)@.phase is Inactive,
        ensures
            final(self)@ == old(self)@.failed(),
    {
        proof {
            use_type_invariant(&*self);
        }
        self.progress = Progress::Failed;
    }

    /// The startup hook ([`BridgeState::on_startup`]).
    fn on_startup(&mut self) -> (action: Action)
        ensures
            (final(self)@, action) == old(self)@.on_startup(),
    {
        proof {
            use_type_invariant(&*self);
        }
        match self.progress {
            Progress::Dormant => {
                self.progress = Progress::Locating;
                Action::Locate
            },
            _ => Action::Idle,
        }
    }

    /// The locator's answer ([`BridgeState::on_located`]).
    fn on_located(&mut self, exists: bool) -> (action: Action)
        ensures
            (final(self)@, action) == old(self)@.on_located(exists),
    {
        proof {
            use_type_invariant(&*self);
        }
        match self.progress {
            Progress::Locating => {
                if exists {
                    self.progress = Progress::Loading;
                    Action::Load
                } else {
                    self.fail();
                    Action::Report(Failure::ModuleNotFound)
                }
            },
            _ => Action::Idle,
        }
    }

    /// The loader's answer ([`BridgeState::on_loaded`]).
    fn on_loaded(&mut self, outcome: Result<ModuleHandle, LoadError>) -> (action: Action)
        ensures
            (final(self)@, action) == old(self)@.on_loaded(outcome),
    {
        proof {
            use_type_invariant(&*self);
        }
        match self.progress {
            Progress::Loading => match outcome {
                Ok(module) => {
                    *self = Bridge {
                        progress: Progress::Resolving(EntryPoint::Init),
                        module: Some(module),
                        ..*self
                    };
                    Action::Resolve(module, EntryPoint::Init)
                },
                Err(LoadError::Open(reason)) => {
                    self.fail();
                    Action::Report(Failure::LoadFailed(reason))
                },
            },
            _ => Action::Idle,
        }
    }

    /// Whether the resolver's answer is the one that was asked for.
    fn answers(
        module: ModuleHandle,
        entry: EntryPoint,
        outcome: &Result<ResolvedEntryPoint, ResolveError>,
    ) -> (yes: bool)
        ensures
            yes == BridgeState::answers(module, entry, *outcome),
    {
        match outcome {
            Ok(resolved) => resolved.module == module && resolved.entry == entry,
            Err(ResolveError::SymbolNotFound(missing)) => *missing == entry,
        }
    }

    /// The resolver's answer ([`BridgeState::on_resolved`]).
    fn on_resolved(&mut self, outcome: Result<ResolvedEntryPoint, ResolveError>) -> (action:
        Action)
        ensures
            (final(self)@, action) == old(self)@.on_resolved(outcome),
    {
        proof {
            use_type_invariant(&*self);
        }
        match (self.progress, self.module) {
            (Progress::Resolving(entry), Some(module)) => {
                if !Self::answers(module, entry, &outcome) {
                    Action::Idle
                } else {
                    match (outcome, entry) {
                        (Err(_), _) => {
                            self.fail();
                            Action::Report(Failure::SymbolNotFound(entry))
                        },
                        (Ok(resolved), EntryPoint::Init) => {
                            *self = Bridge {
                                progress: Progress::Resolving(EntryPoint::Update),
                                init: Some(resolved),
                                ..*self
                            };
                            Action::Resolve(module, EntryPoint::Update)
                        },
                        (Ok(resolved), EntryPoint::Update) => match self.init {
                            Some(init) => {
                                *self = Bridge {
                                    progress: Progress::Activated,
                                    phase: Phase::Initializing,
                                    update: Some(resolved),
                                    calling: true,
                                    ..*self
                                };
                                Action::Initialize(init)
                            },
                            None => Action::Idle,
                        },
                    }
                }
            },
            _ => Action::Idle,
        }
    }

    /// The return of the call in progress ([`BridgeState::on_returned`]).
    fn on_returned(&mut self) -> (action: Action)
        ensures
            (final(self)@, action) == old(self)@.on_returned(),
    {
        proof {
            use_type_invariant(&*self);
        }
        if !self.calling {
            return Action::Idle;
        }
        match self.phase {
            Phase::Initializing => {
                *self = Bridge {
                    phase: Phase::Running,
                    initialized: true,
                    calling: false,
                    ..*self
                };
                Action::Idle
            },
            Phase::Running => {
                let ticks: u32 = self.ticks + 1;
                if ticks >= TICK_LIMIT {
                    *self = Bridge { phase: Phase::Finished, ticks, calling: false, ..*self };
                    Action::Shutdown
                } else {
                    *self = Bridge { ticks, calling: false, ..*self };
                    Action::Idle
                }
            },
            _ => Action::Idle,
        }
    }

    /// The per-tick hook ([`BridgeState::on_tick`]).
    fn on_tick(&mut self, elapsed: Elapsed) -> (action: Action)
        ensures
            (final(self)@, action) == old(self)@.on_tick(elapsed),
    {
        proof {
            use_type_invariant(&*self);
        }
        match (self.phase, self.update) {
            (Phase::Inactive, _) => Action::Idle,
            (Phase::Finished, _) => Action::Shutdown,
            (Phase::Initializing, _) => Action::Wait,
            (Phase::Running, Some(target)) => {
                if self.calling {
                    Action::Wait
                } else {
                    self.calling = true;
                    Action::Update { target, tick: self.ticks, elapsed }
                }
            },
            (Phase::Running, None) => Action::Idle,
        }
    }

    /// Takes one step: the host, running in context `caller`, reports
    /// `event`; the bridge moves on and returns what the host has to do.
    ///
    /// The step is exactly [`BridgeState::step`]. It asks for nothing: events
    /// that do not fit the state are answered with [`Action::Idle`] and
    /// change nothing, and a caller from a foreign context is refused.
    pub fn step(&mut self, caller: ContextId, event: Event) -> (action: Action)
        ensures
            (final(self)@, action) == old(self)@.step(caller, event),
            final(self)@.wf(),
    {
        if caller != self.home {
            proof {
                use_type_invariant(&*self);
            }
            return Action::Refuse;
        }
        let action = match event {
            Event::Startup => self.on_startup(),
            Event::Located(exists) => self.on_located(exists),
            Event::Loaded(outcome) => self.on_loaded(outcome),
            Event::Resolved(outcome) => self.on_resolved(outcome),
            Event::Returned => self.on_returned(),
            Event::Tick(elapsed) => self.on_tick(elapsed),
        };
        proof {
            use_type_invariant(&*self);
        }
        action
    }
}

} // verus!
