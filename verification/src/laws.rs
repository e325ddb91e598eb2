//! What holds of every run of the bridge, whatever the host reports.

use crate::entry::EntryPoint;
use crate::model::{BridgeState, Phase, TICK_LIMIT};
use crate::protocol::{Action, ContextId, Event};
use crate::trace::{
    action_at, calls, calls_before, is_return, lemma_run_unfolds, run, state_at, Trace,
};
use vstd::prelude::*;

verus! {

/// The number of calls that a state accounts for: the initializer was called
/// once the module is activated; every counted tick was an update call, and
/// so is the update call in progress.
pub open spec fn accounted(state: BridgeState, entry: EntryPoint) -> nat {
    match entry {
        EntryPoint::Init => if state.phase is Inactive {
            0
        } else {
            1
        },
        EntryPoint::Update => if state.phase is Running && state.calling {
            state.ticks + 1
        } else {
            state.ticks
        },
    }
}

/// The state keeps the books. At every point of every run the bridge is
/// well formed and serves the context it was created for, and the calls it
/// has asked for so far are exactly those its state accounts for.
pub proof fn law_state_accounts_for_calls(
    home: ContextId,
    trace: Trace,
    entry: EntryPoint,
    n: int,
)
    requires
        0 <= n <= trace.len(),
    ensures
        state_at(home, trace, n).wf(),
        state_at(home, trace, n).home == home,
        calls_before(home, trace, entry, n) == accounted(state_at(home, trace, n), entry),
    decreases n,
{
    if n > 0 {
        law_state_accounts_for_calls(home, trace, entry, n - 1);
        lemma_run_unfolds(home, trace, n - 1);
    } else {
        assert(trace.take(0) =~= Seq::empty());
    }
}

/// Whether the locator never finds the module in `trace`.
pub open spec fn module_is_missing(trace: Trace) -> bool {
    forall|i: int| 0 <= i < trace.len() ==> (#[trigger] trace[i]).1 != Event::Located(true)
}

/// Whether the resolver never finds the entry point `missing` in `trace`.
pub open spec fn export_is_missing(trace: Trace, missing: EntryPoint) -> bool {
    forall|i: int|
        0 <= i < trace.len() ==> ((#[trigger] trace[i]).1 matches Event::Resolved(Ok(resolved))
            ==> resolved.entry != missing)
}

/// A module that is not there is never entered. If the locator never finds
/// the module, the bridge is inactive at every point of the run, and no
/// answer of the bridge asks for a load, a resolution or a call.
pub proof fn law_missing_module_is_never_entered(home: ContextId, trace: Trace, i: int)
    requires
        module_is_missing(trace),
        0 <= i < trace.len(),
    ensures
        state_at(home, trace, i).phase is Inactive,
        state_at(home, trace, i + 1).phase is Inactive,
        !action_at(home, trace, i).is_call(),
        !(action_at(home, trace, i) is Load),
        !(action_at(home, trace, i) is Resolve),
{
    lemma_never_located(home, trace, i);
    lemma_run_unfolds(home, trace, i);
}

proof fn lemma_never_located(home: ContextId, trace: Trace, n: int)
    requires
        module_is_missing(trace),
        0 <= n <= trace.len(),
    ensures
        state_at(home, trace, n).wf(),
        state_at(home, trace, n).home == home,
        state_at(home, trace, n).phase is Inactive,
        ({
            let progress = state_at(home, trace, n).progress;
            progress is Dormant || progress is Locating || progress is Failed
        }),
    decreases n,
{
    law_state_accounts_for_calls(home, trace, EntryPoint::Init, n);
    if n > 0 {
        lemma_never_located(home, trace, n - 1);
        lemma_run_unfolds(home, trace, n - 1);
        assert(trace[n - 1].1 != Event::Located(true));
    } else {
        assert(trace.take(0) =~= Seq::empty());
    }
}

/// Both exports are required before either is called. If the resolver never
/// finds one of the two entry points, the bridge is inactive at every point
/// of the run and no answer of the bridge asks for a call: not of the
/// missing export, and not of the other one either.
pub proof fn law_missing_export_is_never_entered(
    home: ContextId,
    trace: Trace,
    missing: EntryPoint,
    i: int,
)
    requires
        export_is_missing(trace, missing),
        0 <= i < trace.len(),
    ensures
        state_at(home, trace, i).phase is Inactive,
        state_at(home, trace, i + 1).phase is Inactive,
        !action_at(home, trace, i).is_call(),
{
    lemma_never_resolved(home, trace, missing, i);
    lemma_never_resolved(home, trace, missing, i + 1);
}

proof fn lemma_never_resolved(home: ContextId, trace: Trace, missing: EntryPoint, n: int)
    requires
        export_is_missing(trace, missing),
        0 <= n <= trace.len(),
    ensures
        state_at(home, trace, n).wf(),
        state_at(home, trace, n).home == home,
        state_at(home, trace, n).phase is Inactive,
        missing is Init ==> state_at(home, trace, n).init is None,
    decreases n,
{
    law_state_accounts_for_calls(home, trace, EntryPoint::Init, n);
    if n > 0 {
        lemma_never_resolved(home, trace, missing, n - 1);
        lemma_run_unfolds(home, trace, n - 1);
        assert(trace[n - 1].1 matches Event::Resolved(Ok(resolved)) ==> resolved.entry
            != missing);
    } else {
        assert(trace.take(0) =~= Seq::empty());
    }
}

/// The initializer runs once. In every run the initializer is called at
/// most once, and exactly once if the module was activated.
pub proof fn law_initializer_runs_once(home: ContextId, trace: Trace)
    ensures
        calls(home, trace, EntryPoint::Init) <= 1,
        calls(home, trace, EntryPoint::Init) == 1 <==> !(run(home, trace).phase is Inactive),
{
    law_state_accounts_for_calls(home, trace, EntryPoint::Init, trace.len() as int);
    assert(trace.take(trace.len() as int) =~= trace);
}

/// The initializer runs first. Whenever the bridge asks for an update call,
/// the initializer has been called, once, earlier in the run, and it has
/// returned.
pub proof fn law_initializer_runs_first(home: ContextId, trace: Trace, i: int)
    requires
        0 <= i < trace.len(),
        action_at(home, trace, i) is Update,
    ensures
        calls_before(home, trace, EntryPoint::Init, i) == 1,
        state_at(home, trace, i).initialized,
        !state_at(home, trace, i).calling,
{
    law_state_accounts_for_calls(home, trace, EntryPoint::Init, i);
}

/// Update calls come one per tick, in the order of the ticks. Whenever the
/// bridge asks for an update call, it is answering a tick of the host, and
/// it hands on that tick's elapsed time. The call carries the number of
/// update calls asked for before it, so update calls are numbered from 0 in
/// the order in which they are made.
pub proof fn law_updates_follow_the_ticks(home: ContextId, trace: Trace, i: int)
    requires
        0 <= i < trace.len(),
        action_at(home, trace, i) is Update,
    ensures
        trace[i] == (home, Event::Tick(action_at(home, trace, i)->elapsed)),
        action_at(home, trace, i)->tick == calls_before(home, trace, EntryPoint::Update, i),
{
    law_state_accounts_for_calls(home, trace, EntryPoint::Update, i);
}

/// Calls into the module never overlap. Between any two calls that the
/// bridge asks for, be it the initializer or an update, the host has
/// reported the return of a call.
pub proof fn law_calls_never_overlap(home: ContextId, trace: Trace, i: int, j: int)
    requires
        0 <= i < j < trace.len(),
        action_at(home, trace, i).is_call(),
        action_at(home, trace, j).is_call(),
    ensures
        exists|k: int| i < k < j && is_return(home, #[trigger] trace[k]),
{
    law_state_accounts_for_calls(home, trace, EntryPoint::Init, i);
    law_state_accounts_for_calls(home, trace, EntryPoint::Init, j);
    lemma_run_unfolds(home, trace, i);
    lemma_released_between(home, trace, i + 1, j);
}

/// If a call is in progress at one point of a run and none is at a later
/// point, a return was reported in between.
proof fn lemma_released_between(home: ContextId, trace: Trace, m: int, n: int)
    requires
        0 <= m <= n <= trace.len(),
        state_at(home, trace, m).calling,
        !state_at(home, trace, n).calling,
    ensures
        exists|k: int| m <= k < n && is_return(home, #[trigger] trace[k]),
    decreases n - m,
{
    if m < n {
        law_state_accounts_for_calls(home, trace, EntryPoint::Init, n - 1);
        lemma_run_unfolds(home, trace, n - 1);
        if state_at(home, trace, n - 1).calling {
            assert(is_return(home, trace[n - 1]));
        } else {
            lemma_released_between(home, trace, m, n - 1);
        }
    }
}

/// The bridge serves one context. A report from any other context is
/// refused and changes nothing.
pub proof fn law_foreign_context_is_refused(home: ContextId, trace: Trace, i: int)
    requires
        0 <= i < trace.len(),
        trace[i].0 != home,
    ensures
        action_at(home, trace, i) is Refuse,
        state_at(home, trace, i + 1) == state_at(home, trace, i),
{
    law_state_accounts_for_calls(home, trace, EntryPoint::Init, i);
    lemma_run_unfolds(home, trace, i);
}

/// Calls go to the module that the bridge owns. A call of the initializer
/// targets the initializer, an update call the update entry point, and
/// either is bound to the one module the bridge holds at that moment.
pub proof fn law_calls_target_the_owned_module(home: ContextId, trace: Trace, i: int)
    requires
        0 <= i < trace.len(),
        action_at(home, trace, i).is_call(),
    ensures
        action_at(home, trace, i) matches Action::Initialize(target) ==> {
            &&& target.entry is Init
            &&& state_at(home, trace, i).module == Some(target.module)
        },
        action_at(home, trace, i) matches Action::Update { target, .. } ==> {
            &&& target.entry is Update
            &&& state_at(home, trace, i).module == Some(target.module)
        },
{
    law_state_accounts_for_calls(home, trace, EntryPoint::Init, i);
}

/// A loaded module is never given up. Once the bridge holds a module, it
/// holds that same module at every later point of the run.
pub proof fn law_module_is_kept(home: ContextId, trace: Trace, i: int, j: int)
    requires
        0 <= i <= j <= trace.len(),
        state_at(home, trace, i).module is Some,
    ensures
        state_at(home, trace, j).module == state_at(home, trace, i).module,
    decreases j - i,
{
    if i < j {
        law_module_is_kept(home, trace, i, j - 1);
        law_state_accounts_for_calls(home, trace, EntryPoint::Init, j - 1);
        lemma_run_unfolds(home, trace, j - 1);
    }
}

/// How far a phase is along the way from inactive to finished.
pub open spec fn rank(phase: Phase) -> nat {
    match phase {
        Phase::Inactive => 0,
        Phase::Initializing => 1,
        Phase::Running => 2,
        Phase::Finished => 3,
    }
}

/// The scheduler only moves forward. From one point of a run to a later one
/// the phase never goes back, the tick counter never goes down, and an
/// initializer that has run stays run. A single report moves the phase by
/// at most one and counts at most one tick.
pub proof fn law_scheduler_moves_forward(home: ContextId, trace: Trace, i: int, j: int)
    requires
        0 <= i <= j <= trace.len(),
    ensures
        rank(state_at(home, trace, i).phase) <= rank(state_at(home, trace, j).phase),
        state_at(home, trace, i).ticks <= state_at(home, trace, j).ticks,
        state_at(home, trace, i).initialized ==> state_at(home, trace, j).initialized,
        j == i + 1 ==> {
            &&& rank(state_at(home, trace, j).phase) <= rank(state_at(home, trace, i).phase) + 1
            &&& state_at(home, trace, j).ticks <= state_at(home, trace, i).ticks + 1
        },
    decreases j - i,
{
    if i < j {
        law_scheduler_moves_forward(home, trace, i, j - 1);
        law_state_accounts_for_calls(home, trace, EntryPoint::Init, j - 1);
        lemma_run_unfolds(home, trace, j - 1);
    }
}

/// A bridge at rest stays at rest. Once activation has failed, or the run
/// is finished, the state never changes again: there is no second attempt.
/// From then on the bridge asks for nothing, except that a finished bridge
/// answers every further tick by asking for shutdown again.
pub proof fn law_settled_is_final(home: ContextId, trace: Trace, i: int, j: int)
    requires
        0 <= i <= j < trace.len(),
        state_at(home, trace, i).settled(),
    ensures
        state_at(home, trace, j + 1) == state_at(home, trace, i),
        action_at(home, trace, j) is Idle || action_at(home, trace, j) is Refuse || action_at(
            home,
            trace,
            j,
        ) is Shutdown,
        action_at(home, trace, j) is Shutdown <==> state_at(home, trace, i).phase is Finished
            && trace[j].0 == home && trace[j].1 is Tick,
    decreases j - i,
{
    if i < j {
        law_settled_is_final(home, trace, i, j - 1);
    }
    law_state_accounts_for_calls(home, trace, EntryPoint::Init, j);
    lemma_run_unfolds(home, trace, j);
}

/// The run is bounded. The bridge never asks for more update calls than the
/// limit, and a finished bridge has asked for exactly that many.
pub proof fn law_run_is_bounded(home: ContextId, trace: Trace)
    ensures
        calls(home, trace, EntryPoint::Update) <= TICK_LIMIT,
        run(home, trace).phase is Finished ==> calls(home, trace, EntryPoint::Update)
            == TICK_LIMIT,
{
    law_state_accounts_for_calls(home, trace, EntryPoint::Update, trace.len() as int);
    assert(trace.take(trace.len() as int) =~= trace);
}

/// Shutdown comes with the last update call. When the update call that
/// reaches the limit returns, the bridge finishes and asks for shutdown there
/// and then.
pub proof fn law_last_return_asks_for_shutdown(home: ContextId, trace: Trace, i: int)
    requires
        0 <= i < trace.len(),
        calls_before(home, trace, EntryPoint::Update, i) == TICK_LIMIT,
        state_at(home, trace, i).calling,
        is_return(home, trace[i]),
    ensures
        action_at(home, trace, i) is Shutdown,
        state_at(home, trace, i + 1).phase is Finished,
{
    law_state_accounts_for_calls(home, trace, EntryPoint::Update, i);
    lemma_run_unfolds(home, trace, i);
}

/// Shutdown comes only after the last update call. Whenever the bridge asks
/// for shutdown, it has asked for as many update calls as the limit allows,
/// all of them have returned, and the run is finished.
pub proof fn law_shutdown_ends_the_run(home: ContextId, trace: Trace, i: int)
    requires
        0 <= i < trace.len(),
        action_at(home, trace, i) is Shutdown,
    ensures
        calls_before(home, trace, EntryPoint::Update, i) == TICK_LIMIT,
        !state_at(home, trace, i + 1).calling,
        state_at(home, trace, i + 1).phase is Finished,
{
    law_state_accounts_for_calls(home, trace, EntryPoint::Update, i);
    lemma_run_unfolds(home, trace, i);
}

} // verus!
