//! What the host tells the bridge, and what the bridge asks of the host.

use crate::entry::{EntryPoint, ResolveError, ResolvedEntryPoint};
use crate::failure::Failure;
use crate::module::{LoadError, ModuleHandle};
use vstd::prelude::*;

verus! {

/// Names an execution context of the host (a thread). Native code makes no
/// promise of thread safety, so the bridge serves one context only.
#[derive(Clone, Copy, Debug, PartialEq, Eq, Structural)]
pub struct ContextId {
    pub id: u64,
}

/// The time that passed since the previous tick: seconds in single
/// precision, held as the bit pattern of that number. The bridge hands it on
/// to the update entry point and never looks inside.
#[derive(Clone, Copy, Debug, PartialEq, Eq, Structural)]
pub struct Elapsed {
    pub bits: u32,
}

/// What the host reports to the bridge.
#[derive(Debug, PartialEq, Eq)]
pub enum Event {
    /// The host's startup hook runs.
    Startup,
    /// The locator's answer: whether a module exists at the configured path.
    Located(bool),
    /// The loader's answer.
    Loaded(Result<ModuleHandle, LoadError>),
    /// The resolver's answer for the entry point last asked for.
    Resolved(Result<ResolvedEntryPoint, ResolveError>),
    /// The call into native code that the bridge asked for has returned.
    Returned,
    /// The host's per-tick hook runs, with the tick's elapsed time.
    Tick(Elapsed),
}

/// What the bridge asks the host to do next.
#[derive(Debug, PartialEq, Eq)]
pub enum Action {
    /// Nothing: carry on without the bridge.
    Idle,
    /// Nothing, because the caller is not the context the bridge serves.
    Refuse,
    /// Nothing yet: a call into the module is in progress. Ask again once it
    /// has returned.
    Wait,
    /// Check whether a module exists at the configured path.
    Locate,
    /// Load the module at the configured path.
    Load,
    /// Resolve an entry point in the loaded module.
    Resolve(ModuleHandle, EntryPoint),
    /// Call the initializer, without arguments.
    Initialize(ResolvedEntryPoint),
    /// Call the update entry point for the given tick with its elapsed time.
    Update { target: ResolvedEntryPoint, tick: u32, elapsed: Elapsed },
    /// Tell the operator of a failure; scripting stays off for this run.
    Report(Failure),
    /// End the host's run loop: the bounded run is over.
    Shutdown,
}

impl Action {
    /// Whether the action enters native code.
    pub open spec fn is_call(self) -> bool {
        self is Initialize || self is Update
    }
}

} // verus!
