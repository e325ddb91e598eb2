//! Runs of the bridge: what a whole sequence of reports from the host leads
//! a fresh bridge to, and what the bridge asks for along the way.

use crate::entry::EntryPoint;
use crate::model::BridgeState;
use crate::protocol::{Action, ContextId, Event};
use vstd::prelude::*;

verus! {

/// A run: the reports the bridge receives, in order, each with the context
/// that made it.
pub type Trace = Seq<(ContextId, Event)>;

impl Action {
    /// The entry point that the action calls, if it is a call.
    pub open spec fn enters(self) -> Option<EntryPoint> {
        match self {
            Action::Initialize(_) => Some(EntryPoint::Init),
            Action::Update { .. } => Some(EntryPoint::Update),
            _ => None,
        }
    }
}

/// The state of a bridge that was created for `home` and has received the
/// whole of `trace`.
pub open spec fn run(home: ContextId, trace: Trace) -> BridgeState
    decreases trace.len(),
{
    if trace.len() == 0 {
        BridgeState::initial(home)
    } else {
        let (caller, event) = trace.last();
        run(home, trace.drop_last()).step(caller, event).0
    }
}

/// The state in which report `i` of `trace` finds the bridge: the state
/// after the first `i` reports.
pub open spec fn state_at(home: ContextId, trace: Trace, i: int) -> BridgeState
    recommends
        0 <= i <= trace.len(),
{
    run(home, trace.take(i))
}

/// The action with which the bridge answers report `i` of `trace`.
pub open spec fn action_at(home: ContextId, trace: Trace, i: int) -> Action
    recommends
        0 <= i < trace.len(),
{
    state_at(home, trace, i).step(trace[i].0, trace[i].1).1
}

/// The number of calls of `entry` that the bridge asks for in the first
/// `n` reports of `trace`.
pub open spec fn calls_before(home: ContextId, trace: Trace, entry: EntryPoint, n: int) -> nat
    recommends
        0 <= n <= trace.len(),
    decreases n,
{
    if n <= 0 {
        0
    } else {
        let earlier = calls_before(home, trace, entry, n - 1);
        if action_at(home, trace, n - 1).enters() == Some(entry) {
            earlier + 1
        } else {
            earlier
        }
    }
}

/// The number of calls of `entry` that the bridge asks for in `trace`.
pub open spec fn calls(home: ContextId, trace: Trace, entry: EntryPoint) -> nat {
    calls_before(home, trace, entry, trace.len() as int)
}

/// Whether a report is the return of a call, made from context `home`.
pub open spec fn is_return(home: ContextId, report: (ContextId, Event)) -> bool {
    report.0 == home && report.1 is Returned
}

/// A run unfolds report by report: the state after `n + 1` reports is the
/// step from the state after `n` on report `n`, and the state after all of
/// them is where the run ends.
pub proof fn lemma_run_unfolds(home: ContextId, trace: Trace, n: int)
    requires
        0 <= n < trace.len(),
    ensures
        state_at(home, trace, n + 1) == state_at(home, trace, n).step(trace[n].0, trace[n].1).0,
        state_at(home, trace, 0) == BridgeState::initial(home),
        state_at(home, trace, trace.len() as int) == run(home, trace),
{
    assert(trace.take(n + 1).drop_last() =~= trace.take(n));
    assert(trace.take(n + 1).last() == trace[n]);
    assert(trace.take(trace.len() as int) =~= trace);
}

} // verus!
