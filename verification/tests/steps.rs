//! Single steps of the bridge, one state and one event at a time.

use script_bridge::bridge::Bridge;
use script_bridge::entry::{EntryPoint, ResolveError, ResolvedEntryPoint};
use script_bridge::failure::Failure;
use script_bridge::model::{Phase, Progress};
use script_bridge::module::{LoadError, ModuleHandle};
use script_bridge::protocol::{Action, ContextId, Elapsed, Event};

const HOME: ContextId = ContextId { id: 7 };
const ELSEWHERE: ContextId = ContextId { id: 8 };
const MODULE: ModuleHandle = ModuleHandle { id: 3 };
const INIT: ResolvedEntryPoint = ResolvedEntryPoint { module: MODULE, entry: EntryPoint::Init };
const UPDATE: ResolvedEntryPoint =
    ResolvedEntryPoint { module: MODULE, entry: EntryPoint::Update };

fn tick(seconds: f32) -> Event {
    Event::Tick(Elapsed { bits: seconds.to_bits() })
}

/// A bridge that awaits the locator's answer.
fn locating() -> Bridge {
    let mut bridge = Bridge::new(HOME);
    assert_eq!(bridge.step(HOME, Event::Startup), Action::Locate);
    bridge
}

/// A bridge that awaits the resolver's answer for the initializer.
fn resolving() -> Bridge {
    let mut bridge = locating();
    assert_eq!(bridge.step(HOME, Event::Located(true)), Action::Load);
    assert_eq!(
        bridge.step(HOME, Event::Loaded(Ok(MODULE))),
        Action::Resolve(MODULE, EntryPoint::Init)
    );
    bridge
}

/// A bridge whose initializer is running.
fn initializing() -> Bridge {
    let mut bridge = resolving();
    assert_eq!(
        bridge.step(HOME, Event::Resolved(Ok(INIT))),
        Action::Resolve(MODULE, EntryPoint::Update)
    );
    assert_eq!(bridge.step(HOME, Event::Resolved(Ok(UPDATE))), Action::Initialize(INIT));
    bridge
}

/// A bridge whose initializer has returned.
fn running() -> Bridge {
    let mut bridge = initializing();
    assert_eq!(bridge.step(HOME, Event::Returned), Action::Idle);
    bridge
}

#[test]
fn fresh_bridge_is_inactive_and_dormant() {
    let bridge = Bridge::new(HOME);
    assert_eq!(bridge.home(), HOME);
    assert_eq!(bridge.phase(), Phase::Inactive);
    assert_eq!(bridge.progress(), Progress::Dormant);
    assert_eq!(bridge.module(), None);
    assert!(!bridge.is_initialized());
    assert!(!bridge.is_calling());
    assert_eq!(bridge.ticks(), 0);
}

#[test]
fn startup_asks_for_the_module_once() {
    let mut bridge = Bridge::new(HOME);
    assert_eq!(bridge.step(HOME, Event::Startup), Action::Locate);
    assert_eq!(bridge.progress(), Progress::Locating);
    assert_eq!(bridge.step(HOME, Event::Startup), Action::Idle);
    assert_eq!(bridge.progress(), Progress::Locating);
}

#[test]
fn tick_before_startup_is_idle() {
    let mut bridge = Bridge::new(HOME);
    assert_eq!(bridge.step(HOME, tick(0.5)), Action::Idle);
    assert_eq!(bridge.progress(), Progress::Dormant);
}

#[test]
fn answers_nobody_asked_for_are_ignored() {
    let mut bridge = Bridge::new(HOME);
    assert_eq!(bridge.step(HOME, Event::Located(true)), Action::Idle);
    assert_eq!(bridge.step(HOME, Event::Loaded(Ok(MODULE))), Action::Idle);
    assert_eq!(bridge.step(HOME, Event::Resolved(Ok(INIT))), Action::Idle);
    assert_eq!(bridge.step(HOME, Event::Returned), Action::Idle);
    assert_eq!(bridge.progress(), Progress::Dormant);
    assert_eq!(bridge.module(), None);

    let mut bridge = locating();
    assert_eq!(bridge.step(HOME, Event::Loaded(Ok(MODULE))), Action::Idle);
    assert_eq!(
        bridge.step(HOME, Event::Loaded(Err(LoadError::Open("no".to_string())))),
        Action::Idle
    );
    assert_eq!(bridge.progress(), Progress::Locating);
}

#[test]
fn located_module_is_loaded_next() {
    let mut bridge = locating();
    assert_eq!(bridge.step(HOME, Event::Located(true)), Action::Load);
    assert_eq!(bridge.progress(), Progress::Loading);
    assert_eq!(bridge.phase(), Phase::Inactive);
}

#[test]
fn loaded_module_is_owned_and_init_is_resolved_first() {
    let bridge = resolving();
    assert_eq!(bridge.module(), Some(MODULE));
    assert_eq!(bridge.progress(), Progress::Resolving(EntryPoint::Init));
    assert_eq!(bridge.phase(), Phase::Inactive);
}

#[test]
fn an_answer_for_another_entry_or_module_is_ignored() {
    let mut bridge = resolving();
    assert_eq!(bridge.step(HOME, Event::Resolved(Ok(UPDATE))), Action::Idle);
    let stranger =
        ResolvedEntryPoint { module: ModuleHandle { id: 4 }, entry: EntryPoint::Init };
    assert_eq!(bridge.step(HOME, Event::Resolved(Ok(stranger))), Action::Idle);
    assert_eq!(
        bridge.step(
            HOME,
            Event::Resolved(Err(ResolveError::SymbolNotFound(EntryPoint::Update)))
        ),
        Action::Idle
    );
    assert_eq!(bridge.progress(), Progress::Resolving(EntryPoint::Init));
    assert_eq!(
        bridge.step(HOME, Event::Resolved(Ok(INIT))),
        Action::Resolve(MODULE, EntryPoint::Update)
    );
}

#[test]
fn activation_takes_the_token_and_calls_init() {
    let bridge = initializing();
    assert_eq!(bridge.phase(), Phase::Initializing);
    assert_eq!(bridge.progress(), Progress::Activated);
    assert!(bridge.is_calling());
    assert!(!bridge.is_initialized());
}

#[test]
fn tick_during_init_has_to_wait() {
    let mut bridge = initializing();
    assert_eq!(bridge.step(HOME, tick(0.25)), Action::Wait);
    assert_eq!(bridge.phase(), Phase::Initializing);
    assert_eq!(bridge.ticks(), 0);
}

#[test]
fn return_of_init_starts_the_run() {
    let bridge = running();
    assert_eq!(bridge.phase(), Phase::Running);
    assert!(bridge.is_initialized());
    assert!(!bridge.is_calling());
    assert_eq!(bridge.ticks(), 0);
}

#[test]
fn tick_hands_on_its_elapsed_time() {
    let mut bridge = running();
    let dt: f32 = 1.0 / 60.0;
    assert_eq!(
        bridge.step(HOME, tick(dt)),
        Action::Update { target: UPDATE, tick: 0, elapsed: Elapsed { bits: 0x3c88_8889 } }
    );
    assert!(bridge.is_calling());
    assert_eq!(bridge.ticks(), 0);
    assert_eq!(bridge.step(HOME, Event::Returned), Action::Idle);
    assert_eq!(bridge.ticks(), 1);
    assert!(!bridge.is_calling());
    assert_eq!(
        bridge.step(HOME, tick(0.5)),
        Action::Update { target: UPDATE, tick: 1, elapsed: Elapsed { bits: 0x3f00_0000 } }
    );
}

#[test]
fn tick_during_update_has_to_wait() {
    let mut bridge = running();
    assert!(matches!(bridge.step(HOME, tick(0.1)), Action::Update { tick: 0, .. }));
    assert_eq!(bridge.step(HOME, tick(0.1)), Action::Wait);
    assert_eq!(bridge.step(HOME, tick(0.1)), Action::Wait);
    assert_eq!(bridge.ticks(), 0);
    assert_eq!(bridge.step(HOME, Event::Returned), Action::Idle);
    assert!(matches!(bridge.step(HOME, tick(0.1)), Action::Update { tick: 1, .. }));
}

#[test]
fn return_without_a_call_is_ignored() {
    let mut bridge = running();
    assert_eq!(bridge.step(HOME, Event::Returned), Action::Idle);
    assert_eq!(bridge.ticks(), 0);
    assert_eq!(bridge.phase(), Phase::Running);
}

#[test]
fn foreign_context_is_refused_and_changes_nothing() {
    let mut bridge = Bridge::new(HOME);
    assert_eq!(bridge.step(ELSEWHERE, Event::Startup), Action::Refuse);
    assert_eq!(bridge.progress(), Progress::Dormant);

    let mut bridge = running();
    assert_eq!(bridge.step(ELSEWHERE, tick(0.1)), Action::Refuse);
    assert!(!bridge.is_calling());
    assert!(matches!(bridge.step(HOME, tick(0.1)), Action::Update { tick: 0, .. }));
    assert_eq!(bridge.step(ELSEWHERE, Event::Returned), Action::Refuse);
    assert!(bridge.is_calling());
    assert_eq!(bridge.ticks(), 0);
}

#[test]
fn tenth_return_finishes_and_asks_for_shutdown() {
    let mut bridge = running();
    let mut n: u32 = 0;
    while n < 9 {
        assert!(matches!(bridge.step(HOME, tick(0.1)), Action::Update { .. }));
        assert_eq!(bridge.step(HOME, Event::Returned), Action::Idle);
        n += 1;
    }
    assert_eq!(bridge.phase(), Phase::Running);
    assert!(matches!(bridge.step(HOME, tick(0.1)), Action::Update { tick: 9, .. }));
    assert_eq!(bridge.step(HOME, Event::Returned), Action::Shutdown);
    assert_eq!(bridge.phase(), Phase::Finished);
    assert_eq!(bridge.ticks(), 10);
    assert_eq!(bridge.step(HOME, tick(0.1)), Action::Shutdown);
    assert_eq!(bridge.step(HOME, Event::Returned), Action::Idle);
    assert_eq!(bridge.step(HOME, Event::Startup), Action::Idle);
    assert_eq!(bridge.ticks(), 10);
    assert_eq!(bridge.phase(), Phase::Finished);
}

#[test]
fn failure_is_final() {
    let mut bridge = locating();
    assert_eq!(
        bridge.step(HOME, Event::Located(false)),
        Action::Report(Failure::ModuleNotFound)
    );
    assert_eq!(bridge.step(HOME, Event::Startup), Action::Idle);
    assert_eq!(bridge.step(HOME, Event::Located(true)), Action::Idle);
    assert_eq!(bridge.step(HOME, Event::Loaded(Ok(MODULE))), Action::Idle);
    assert_eq!(bridge.step(HOME, Event::Resolved(Ok(INIT))), Action::Idle);
    assert_eq!(bridge.step(HOME, Event::Returned), Action::Idle);
    assert_eq!(bridge.step(HOME, tick(1.0)), Action::Idle);
    assert_eq!(bridge.progress(), Progress::Failed);
    assert_eq!(bridge.phase(), Phase::Inactive);
}

#[test]
fn load_failure_carries_the_reason() {
    let mut bridge = locating();
    assert_eq!(bridge.step(HOME, Event::Located(true)), Action::Load);
    let action = bridge.step(
        HOME,
        Event::Loaded(Err(LoadError::Open("undefined symbol: puts".to_string()))),
    );
    assert_eq!(
        action,
        Action::Report(Failure::LoadFailed("undefined symbol: puts".to_string()))
    );
    assert_eq!(bridge.progress(), Progress::Failed);
}

#[test]
fn module_stays_owned_when_an_export_is_missing() {
    let mut bridge = resolving();
    assert_eq!(
        bridge.step(HOME, Event::Resolved(Err(ResolveError::SymbolNotFound(EntryPoint::Init)))),
        Action::Report(Failure::SymbolNotFound(EntryPoint::Init))
    );
    assert_eq!(bridge.module(), Some(MODULE));
    assert_eq!(bridge.progress(), Progress::Failed);
}
