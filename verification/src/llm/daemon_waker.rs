//! Waking the local LLM service: the decisions of the wake-up procedure as
//! a state machine. The caller performs each action (probe the service,
//! look for the executable, spawn the daemon, read the clock, sleep) and
//! feeds the outcome back as the next event.
//!
//! The procedure: if the service answers, it is awake. Otherwise, unless the
//! executable is missing or cannot be spawned, the daemon is started and
//! probed in a loop with an exponential backoff (100 ms, 200 ms, 400 ms, ...)
//! for as long as less than 4 s have elapsed since the start, followed by
//! one final probe.

use vstd::prelude::*;

verus! {

/// Time budget of the polling loop, in milliseconds.
pub const MAX_WAIT_MS: u64 = 4000;

/// First backoff delay, in milliseconds.
pub const INITIAL_DELAY_MS: u64 = 100;

/// Where the wake-up procedure stands.
#[derive(Debug, PartialEq, Eq, Structural)]
pub enum WakeState {
    /// The first probe of the service is pending.
    Start,
    /// The search for the executable is pending.
    CheckingPath,
    /// The spawn of the daemon is pending.
    Spawning,
    /// At the head of the polling loop, waiting for the elapsed time.
    LoopHead { delay_ms: u64 },
    /// A probe inside the polling loop is pending.
    Probing { delay_ms: u64 },
    /// The probe after the polling loop is pending.
    FinalProbing,
    /// Finished: whether the service is awake.
    Done { awake: bool },
}

/// An outcome fed back to the machine.
#[derive(Debug, PartialEq, Eq, Structural)]
pub enum WakeEvent {
    /// The service answered (`true`) or not.
    Probed { available: bool },
    /// The executable was found on the `PATH` (`true`) or not.
    InPath { found: bool },
    /// The daemon process was started (`true`) or not.
    Spawned { started: bool },
    /// Milliseconds elapsed since the polling loop began.
    Elapsed { ms: u64 },
}

/// What the caller must do next.
#[derive(Debug, PartialEq, Eq, Structural)]
pub enum WakeAction {
    /// Probe the service.
    Probe,
    /// Look for the executable on the `PATH`.
    CheckPath,
    /// Start the daemon in the background.
    Spawn,
    /// Report the milliseconds elapsed since the polling loop began.
    CheckElapsed,
    /// Sleep this many milliseconds, then report the elapsed time.
    Sleep { ms: u64 },
    /// Stop: the service is awake (`true`) or not.
    Finish { awake: bool },
}

/// The event each state waits for.
pub open spec fn event_fits(state: WakeState, event: WakeEvent) -> bool {
    match state {
        WakeState::Start => event is Probed,
        WakeState::CheckingPath => event is InPath,
        WakeState::Spawning => event is Spawned,
        WakeState::LoopHead { .. } => event is Elapsed,
        WakeState::Probing { .. } => event is Probed,
        WakeState::FinalProbing => event is Probed,
        WakeState::Done { .. } => false,
    }
}

/// The next backoff delay: doubled (saturating at `u64::MAX`).
pub open spec fn doubled(d: u64) -> u64 {
    if d <= u64::MAX / 2 { (2 * d) as u64 } else { u64::MAX }
}

/// Whether `state` waits for `event` (what [`wake_step`] requires).
pub fn accepts(state: &WakeState, event: &WakeEvent) -> (r: bool)
    ensures
        r == event_fits(*state, *event),
{
    match (state, event) {
        (WakeState::Start, WakeEvent::Probed { .. }) => true,
        (WakeState::CheckingPath, WakeEvent::InPath { .. }) => true,
        (WakeState::Spawning, WakeEvent::Spawned { .. }) => true,
        (WakeState::LoopHead { .. }, WakeEvent::Elapsed { .. }) => true,
        (WakeState::Probing { .. }, WakeEvent::Probed { .. }) => true,
        (WakeState::FinalProbing, WakeEvent::Probed { .. }) => true,
        _ => false,
    }
}

/// The transition function of the wake-up procedure.
pub open spec fn wake_transition(state: WakeState, event: WakeEvent) -> (WakeState, WakeAction) {
    match (state, event) {
        (WakeState::Start, WakeEvent::Probed { available: true }) =>
            (WakeState::Done { awake: true }, WakeAction::Finish { awake: true }),
        (WakeState::Start, WakeEvent::Probed { available: false }) =>
            (WakeState::CheckingPath, WakeAction::CheckPath),
        (WakeState::CheckingPath, WakeEvent::InPath { found: false }) =>
            (WakeState::Done { awake: false }, WakeAction::Finish { awake: false }),
        (WakeState::CheckingPath, WakeEvent::InPath { found: true }) =>
            (WakeState::Spawning, WakeAction::Spawn),
        (WakeState::Spawning, WakeEvent::Spawned { started: false }) =>
            (WakeState::Done { awake: false }, WakeAction::Finish { awake: false }),
        (WakeState::Spawning, WakeEvent::Spawned { started: true }) =>
            (WakeState::LoopHead { delay_ms: INITIAL_DELAY_MS }, WakeAction::CheckElapsed),
        (WakeState::LoopHead { delay_ms }, WakeEvent::Elapsed { ms }) =>
            if ms < MAX_WAIT_MS {
                (WakeState::Probing { delay_ms }, WakeAction::Probe)
            } else {
                (WakeState::FinalProbing, WakeAction::Probe)
            },
        (WakeState::Probing { delay_ms }, WakeEvent::Probed { available: true }) =>
            (WakeState::Done { awake: true }, WakeAction::Finish { awake: true }),
        (WakeState::Probing { delay_ms }, WakeEvent::Probed { available: false }) =>
            (WakeState::LoopHead { delay_ms: doubled(delay_ms) }, WakeAction::Sleep { ms: delay_ms }),
        (WakeState::FinalProbing, WakeEvent::Probed { available }) =>
            (WakeState::Done { awake: available }, WakeAction::Finish { awake: available }),
        (s, _) => (s, WakeAction::Finish { awake: false }),
    }
}

/// Advances the wake-up procedure by one event.
pub fn wake_step(state: WakeState, event: WakeEvent) -> (r: (WakeState, WakeAction))
    requires
        event_fits(state, event),
    ensures
        r == wake_transition(state, event),
{
    match (state, event) {
        (WakeState::Start, WakeEvent::Probed { available }) => {
            if available {
                (WakeState::Done { awake: true }, WakeAction::Finish { awake: true })
            } else {
                (WakeState::CheckingPath, WakeAction::CheckPath)
            }
        },
        (WakeState::CheckingPath, WakeEvent::InPath { found }) => {
            if found {
                (WakeState::Spawning, WakeAction::Spawn)
            } else {
                (WakeState::Done { awake: false }, WakeAction::Finish { awake: false })
            }
        },
        (WakeState::Spawning, WakeEvent::Spawned { started }) => {
            if started {
                (WakeState::LoopHead { delay_ms: INITIAL_DELAY_MS }, WakeAction::CheckElapsed)
            } else {
                (WakeState::Done { awake: false }, WakeAction::Finish { awake: false })
            }
        },
        (WakeState::LoopHead { delay_ms }, WakeEvent::Elapsed { ms }) => {
            if ms < MAX_WAIT_MS {
                (WakeState::Probing { delay_ms }, WakeAction::Probe)
            } else {
                (WakeState::FinalProbing, WakeAction::Probe)
            }
        },
        (WakeState::Probing { delay_ms }, WakeEvent::Probed { available }) => {
            if available {
                (WakeState::Done { awake: true }, WakeAction::Finish { awake: true })
            } else {
                let next = if delay_ms <= u64::MAX / 2 { 2 * delay_ms } else { u64::MAX };
                (WakeState::LoopHead { delay_ms: next }, WakeAction::Sleep { ms: delay_ms })
            }
        },
        (WakeState::FinalProbing, WakeEvent::Probed { available }) => {
            (WakeState::Done { awake: available }, WakeAction::Finish { awake: available })
        },
        (s, _) => (s, WakeAction::Finish { awake: false }),
    }
}

/// The procedure reports the service awake only right after a probe that
/// found it answering.
pub proof fn lemma_awake_only_after_successful_probe(state: WakeState, event: WakeEvent)
    requires
        event_fits(state, event),
        wake_transition(state, event).1 == (WakeAction::Finish { awake: true }),
    ensures
        event == (WakeEvent::Probed { available: true }),
{
}

/// Every action but the last is followed by a state that waits for an
/// event, and `Finish` is issued exactly when the procedure is done.
pub proof fn lemma_finish_iff_done(state: WakeState, event: WakeEvent)
    requires
        event_fits(state, event),
    ensures
        (wake_transition(state, event).1 is Finish) <==> (wake_transition(state, event).0 is Done),
        wake_transition(state, event).1 is Finish ==> wake_transition(state, event).1 == (WakeAction::Finish {
            awake: wake_transition(state, event).0->awake,
        }),
{
}

/// Backoff: the loop starts with a 100 ms delay and a 4 s budget; after a
/// failed probe in the loop the caller sleeps for the current delay, and the
/// next delay is twice as long; while the budget lasts the loop probes
/// again, and once it is used up no further sleep happens before the final
/// probe.
pub proof fn lemma_backoff(delay_ms: u64, ms: u64)
    ensures
        wake_transition(WakeState::Probing { delay_ms }, WakeEvent::Probed { available: false })
            == (WakeState::LoopHead { delay_ms: doubled(delay_ms) }, WakeAction::Sleep { ms: delay_ms }),
        ms >= MAX_WAIT_MS ==> wake_transition(WakeState::LoopHead { delay_ms }, WakeEvent::Elapsed { ms })
            == (WakeState::FinalProbing, WakeAction::Probe),
        ms < MAX_WAIT_MS ==> wake_transition(WakeState::LoopHead { delay_ms }, WakeEvent::Elapsed { ms })
            == (WakeState::Probing { delay_ms }, WakeAction::Probe),
        INITIAL_DELAY_MS == 100,
        MAX_WAIT_MS == 4000,
        wake_transition(WakeState::Spawning, WakeEvent::Spawned { started: true })
            == (WakeState::LoopHead { delay_ms: INITIAL_DELAY_MS }, WakeAction::CheckElapsed),
{
}

/// Whenever the procedure is waiting for a probe (the first one, one inside
/// the polling loop, or the final one after the time budget) and the service
/// answers, the procedure finishes with the service reported awake.
pub proof fn lemma_successful_probe_wakes(state: WakeState)
    requires
        event_fits(state, WakeEvent::Probed { available: true }),
    ensures
        wake_transition(state, WakeEvent::Probed { available: true })
            == (WakeState::Done { awake: true }, WakeAction::Finish { awake: true }),
{
}

/// Without a daemon to wait for the procedure gives up at once: when the
/// executable is not on the `PATH`, or cannot be started, it finishes with
/// the service reported asleep.
pub proof fn lemma_gives_up_without_daemon()
    ensures
        wake_transition(WakeState::CheckingPath, WakeEvent::InPath { found: false })
            == (WakeState::Done { awake: false }, WakeAction::Finish { awake: false }),
        wake_transition(WakeState::Spawning, WakeEvent::Spawned { started: false })
            == (WakeState::Done { awake: false }, WakeAction::Finish { awake: false }),
        wake_transition(WakeState::FinalProbing, WakeEvent::Probed { available: false })
            == (WakeState::Done { awake: false }, WakeAction::Finish { awake: false }),
{
}

} // verus!
