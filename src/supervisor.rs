//! The decisions of the process supervisor: a state machine from the current
//! phase and an event to the next phase and the action to perform. The loop
//! that spawns the server, waits for it and receives interrupts feeds it.

use vstd::prelude::*;

verus! {

/// Where the supervised server process stands.
#[derive(Debug, Clone, Copy, PartialEq, Eq, Structural)]
pub enum Phase {
    /// No process has been started yet.
    Idle,
    /// The process runs.
    Running,
    /// Termination of the process was requested; it has not exited yet.
    Terminating,
    /// The process has exited.
    Exited,
}

/// What happened to the supervised process or to the supervisor.
#[derive(Debug, Clone, Copy, PartialEq, Eq, Structural)]
pub enum Event {
    /// The process was started.
    Spawned,
    /// The process could not be started.
    SpawnFailed,
    /// The supervisor was asked to terminate.
    Interrupt,
    /// The process exited with the given status.
    ChildExited(i32),
}

/// What the supervising loop does next.
#[derive(Debug, Clone, Copy, PartialEq, Eq, Structural)]
pub enum Action {
    /// Keep waiting.
    Wait,
    /// Ask the process to terminate.
    Kill,
    /// Stop supervising and report the outcome.
    Finish,
}

/// The transition function: next phase and action for a phase and an event.
pub open spec fn next(phase: Phase, ev: Event) -> (Phase, Action) {
    match (phase, ev) {
        (Phase::Idle, Event::Spawned) => (Phase::Running, Action::Wait),
        (Phase::Idle, Event::SpawnFailed) => (Phase::Idle, Action::Finish),
        (Phase::Running, Event::Interrupt) => (Phase::Terminating, Action::Kill),
        (Phase::Running, Event::ChildExited(_)) => (Phase::Exited, Action::Finish),
        (Phase::Terminating, Event::ChildExited(_)) => (Phase::Exited, Action::Finish),
        (p, _) => (p, Action::Wait),
    }
}

/// The outcome the supervisor has recorded for an event in a phase.
pub open spec fn outcome_after(phase: Phase, ev: Event, prior: Option<i32>) -> Option<i32> {
    match (phase, ev) {
        (Phase::Running, Event::ChildExited(c)) => Some(c),
        (Phase::Terminating, Event::ChildExited(c)) => Some(c),
        _ => prior,
    }
}

/// The number of termination requests sent while `evs` arrive from `phase` on.
pub open spec fn kills(phase: Phase, evs: Seq<Event>) -> nat
    decreases evs.len(),
{
    if evs.len() == 0 {
        0
    } else {
        let (p, a) = next(phase, evs[0]);
        (if a == Action::Kill { 1nat } else { 0nat }) + kills(p, evs.drop_first())
    }
}

/// The state of the supervisor of one server process.
pub struct Supervisor {
    pub phase: Phase,
    pub exit_status: Option<i32>,
}

impl Supervisor {
    /// A supervisor that has started nothing yet.
    pub fn new() -> (r: Supervisor)
        ensures
            r.phase == Phase::Idle,
            r.exit_status is None,
    {
        Supervisor { phase: Phase::Idle, exit_status: None }
    }

    /// Takes one event and says what to do about it.
    pub fn step(&mut self, ev: Event) -> (a: Action)
        ensures
            (final(self).phase, a) == next(old(self).phase, ev),
            final(self).exit_status == outcome_after(old(self).phase, ev, old(self).exit_status),
    {
        let (p, a) = match (self.phase, ev) {
            (Phase::Idle, Event::Spawned) => (Phase::Running, Action::Wait),
            (Phase::Idle, Event::SpawnFailed) => (Phase::Idle, Action::Finish),
            (Phase::Running, Event::Interrupt) => (Phase::Terminating, Action::Kill),
            (Phase::Running, Event::ChildExited(c)) => {
                self.exit_status = Some(c);
                (Phase::Exited, Action::Finish)
            },
            (Phase::Terminating, Event::ChildExited(c)) => {
                self.exit_status = Some(c);
                (Phase::Exited, Action::Finish)
            },
            (p, _) => (p, Action::Wait),
        };
        self.phase = p;
        a
    }
}

/// An interrupt after the process has exited changes nothing and sends no
/// termination request; neither does one while termination is under way.
pub proof fn lemma_late_interrupt_is_noop(phase: Phase)
    requires
        phase == Phase::Exited || phase == Phase::Terminating,
    ensures
        next(phase, Event::Interrupt) == (phase, Action::Wait),
{
}

/// Two interrupts in a row while the process runs request its termination
/// exactly once.
pub proof fn lemma_double_interrupt_kills_once()
    ensures
        kills(Phase::Running, seq![Event::Interrupt, Event::Interrupt]) == 1,
{
    let evs = seq![Event::Interrupt, Event::Interrupt];
    let rest = evs.drop_first();
    assert(rest =~= seq![Event::Interrupt]);
    assert(rest.drop_first() =~= Seq::<Event>::empty());
    assert(kills(Phase::Terminating, rest.drop_first()) == 0);
    assert(kills(Phase::Terminating, rest) == 0);
}

/// Whatever events arrive, the process is asked to terminate at most once,
/// and never once it is terminating or has exited.
pub proof fn lemma_kill_at_most_once(phase: Phase, evs: Seq<Event>)
    ensures
        kills(phase, evs) <= 1,
        (phase == Phase::Terminating || phase == Phase::Exited) ==> kills(phase, evs) == 0,
    decreases evs.len(),
{
    if evs.len() > 0 {
        let (p, a) = next(phase, evs[0]);
        lemma_kill_at_most_once(p, evs.drop_first());
    }
}

} // verus!
