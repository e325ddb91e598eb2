//! The run with a valid module: what the bridge asks of a host that finds
//! the module, loads it, resolves both exports and makes every call it is
//! asked to make.

use crate::entry::{EntryPoint, ResolvedEntryPoint};
use crate::model::{BridgeState, Phase, Progress, TICK_LIMIT};
use crate::module::ModuleHandle;
use crate::protocol::{Action, ContextId, Elapsed, Event};
use crate::trace::{action_at, lemma_run_unfolds, state_at, Trace};
use vstd::prelude::*;

verus! {

/// The initializer of `module`, resolved.
pub open spec fn init_of(module: ModuleHandle) -> ResolvedEntryPoint {
    ResolvedEntryPoint { module, entry: EntryPoint::Init }
}

/// The update entry point of `module`, resolved.
pub open spec fn update_of(module: ModuleHandle) -> ResolvedEntryPoint {
    ResolvedEntryPoint { module, entry: EntryPoint::Update }
}

/// The reports of a startup at which everything succeeds: the module is
/// found and loaded as `module`, both exports resolve, and the initializer
/// returns.
pub open spec fn activation_reports(home: ContextId, module: ModuleHandle) -> Trace {
    seq![
        (home, Event::Startup),
        (home, Event::Located(true)),
        (home, Event::Loaded(Ok(module))),
        (home, Event::Resolved(Ok(init_of(module)))),
        (home, Event::Resolved(Ok(update_of(module)))),
        (home, Event::Returned),
    ]
}

/// The reports of the ticks that follow: for each elapsed time a tick, and
/// then the return of the call that the tick led to.
pub open spec fn tick_reports(home: ContextId, elapsed: Seq<Elapsed>) -> Trace {
    Seq::new(
        2 * elapsed.len(),
        |i: int|
            if i % 2 == 0 {
                (home, Event::Tick(elapsed[i / 2]))
            } else {
                (home, Event::Returned)
            },
    )
}

/// The whole run of a host with a valid module, over ticks with the given
/// elapsed times.
pub open spec fn valid_run(home: ContextId, module: ModuleHandle, elapsed: Seq<Elapsed>) -> Trace {
    activation_reports(home, module) + tick_reports(home, elapsed)
}

/// The state between ticks, after `done` of them: the module is active,
/// the initializer has run, no call is in progress, and every tick up to the
/// limit was counted.
pub open spec fn state_between_ticks(
    home: ContextId,
    module: ModuleHandle,
    done: nat,
) -> BridgeState {
    BridgeState {
        home,
        phase: if done < TICK_LIMIT {
            Phase::Running
        } else {
            Phase::Finished
        },
        progress: Progress::Activated,
        module: Some(module),
        init: Some(init_of(module)),
        update: Some(update_of(module)),
        initialized: true,
        ticks: if done < TICK_LIMIT {
            done
        } else {
            TICK_LIMIT as nat
        },
        calling: false,
    }
}

/// A valid module is activated. The bridge asks, in this order, for the
/// module to be located, to be loaded, for its initializer and its update
/// entry point to be resolved, and for the initializer to be called; and it
/// asks for nothing when the initializer has returned.
pub proof fn law_valid_module_is_activated(
    home: ContextId,
    module: ModuleHandle,
    elapsed: Seq<Elapsed>,
)
    ensures
        action_at(home, valid_run(home, module, elapsed), 0) == Action::Locate,
        action_at(home, valid_run(home, module, elapsed), 1) == Action::Load,
        action_at(home, valid_run(home, module, elapsed), 2) == Action::Resolve(
            module,
            EntryPoint::Init,
        ),
        action_at(home, valid_run(home, module, elapsed), 3) == Action::Resolve(
            module,
            EntryPoint::Update,
        ),
        action_at(home, valid_run(home, module, elapsed), 4) == Action::Initialize(
            init_of(module),
        ),
        action_at(home, valid_run(home, module, elapsed), 5) == Action::Idle,
        state_at(home, valid_run(home, module, elapsed), 6) == state_between_ticks(
            home,
            module,
            0,
        ),
{
    let trace = valid_run(home, module, elapsed);
    lemma_run_unfolds(home, trace, 0);
    lemma_run_unfolds(home, trace, 1);
    lemma_run_unfolds(home, trace, 2);
    lemma_run_unfolds(home, trace, 3);
    lemma_run_unfolds(home, trace, 4);
    lemma_run_unfolds(home, trace, 5);
}

/// A valid module is updated on every tick of the run, and on no other.
/// Tick `k` of the host leads to update call `k` with that tick's elapsed
/// time, as long as `k` is below the limit; the return of the last update
/// call of the run is answered with shutdown, any earlier return with
/// nothing. Every tick after that is answered with shutdown, and no call.
pub proof fn law_valid_module_is_updated_every_tick(
    home: ContextId,
    module: ModuleHandle,
    elapsed: Seq<Elapsed>,
    k: int,
)
    requires
        0 <= k < elapsed.len(),
    ensures
        state_at(home, valid_run(home, module, elapsed), 6 + 2 * k) == state_between_ticks(
            home,
            module,
            k as nat,
        ),
        action_at(home, valid_run(home, module, elapsed), 6 + 2 * k) == (if k < TICK_LIMIT {
            Action::Update { target: update_of(module), tick: k as u32, elapsed: elapsed[k] }
        } else {
            Action::Shutdown
        }),
        action_at(home, valid_run(home, module, elapsed), 7 + 2 * k) == (if k + 1 == TICK_LIMIT {
            Action::Shutdown
        } else {
            Action::Idle
        }),
        state_at(home, valid_run(home, module, elapsed), 8 + 2 * k) == state_between_ticks(
            home,
            module,
            (k + 1) as nat,
        ),
    decreases k,
{
    let trace = valid_run(home, module, elapsed);
    if k == 0 {
        law_valid_module_is_activated(home, module, elapsed);
    } else {
        law_valid_module_is_updated_every_tick(home, module, elapsed, k - 1);
    }
    assert(trace[6 + 2 * k] == (home, Event::Tick(elapsed[k]))) by {
        assert(trace[6 + 2 * k] == tick_reports(home, elapsed)[2 * k]);
    }
    assert(trace[7 + 2 * k] == (home, Event::Returned)) by {
        assert(trace[7 + 2 * k] == tick_reports(home, elapsed)[2 * k + 1]);
    }
    lemma_run_unfolds(home, trace, 6 + 2 * k);
    lemma_run_unfolds(home, trace, 7 + 2 * k);
}

} // verus!
