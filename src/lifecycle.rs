//! Shutdown decisions for the serving process.
//!
//! Two independent triggers can start a graceful shutdown: an interactive
//! interrupt and a termination signal. Whichever fires first starts the
//! drain: new connections are refused and in-flight requests get the grace
//! period to finish. The server never stops on its own initiative, and a
//! trigger whose handler could not be installed simply never fires.
use vstd::prelude::*;

verus! {

/// The two external shutdown triggers.
#[derive(Debug, Clone, Copy, PartialEq, Eq, Structural)]
pub enum Trigger {
    Interrupt,
    Terminate,
}

/// Where the server stands.
#[derive(Debug, Clone, Copy, PartialEq, Eq, Structural)]
pub enum Phase {
    /// Accepting connections.
    Serving,
    /// Refusing new connections; in-flight requests may finish until
    /// `deadline_ms`.
    Draining { trigger: Trigger, deadline_ms: u64 },
    /// Done; `forced` when the grace period ran out first.
    Stopped { forced: bool },
}

/// What happened, as reported by the runtime.
#[derive(Debug, Clone, Copy, PartialEq, Eq, Structural)]
pub enum Event {
    /// A trigger fired.
    Signal(Trigger),
    /// The handler for a trigger could not be installed.
    SignalUnavailable(Trigger),
    /// Every accepted request has finished.
    Drained,
    /// Time passed.
    Tick,
}

/// What the runtime must do next.
#[derive(Debug, Clone, Copy, PartialEq, Eq, Structural)]
pub enum Action {
    /// Nothing.
    Wait,
    /// Stop accepting connections and let in-flight requests finish.
    BeginDrain { trigger: Trigger, grace_seconds: u64 },
    /// Terminate the process.
    Exit { forced: bool },
}

/// Shutdown coordinator state.
#[derive(Debug, Clone, Copy, PartialEq, Eq, Structural)]
pub struct Lifecycle {
    pub grace_seconds: u64,
    pub phase: Phase,
    pub interrupt_armed: bool,
    pub terminate_armed: bool,
}

/// `start_ms` plus the grace period, saturating.
pub open spec fn deadline(start_ms: u64, grace_seconds: u64) -> u64 {
    let span: int = grace_seconds * 1000;
    if start_ms + span > u64::MAX {
        u64::MAX
    } else {
        (start_ms + span) as u64
    }
}

pub open spec fn armed(s: Lifecycle, t: Trigger) -> bool {
    match t {
        Trigger::Interrupt => s.interrupt_armed,
        Trigger::Terminate => s.terminate_armed,
    }
}

/// The transition taken on `e` at time `now_ms`.
pub open spec fn step_spec(s: Lifecycle, e: Event, now_ms: u64) -> (Lifecycle, Action) {
    match s.phase {
        Phase::Serving => match e {
            Event::Signal(t) => if armed(s, t) {
                (
                    Lifecycle {
                        phase: Phase::Draining {
                            trigger: t,
                            deadline_ms: deadline(now_ms, s.grace_seconds),
                        },
                        ..s
                    },
                    Action::BeginDrain { trigger: t, grace_seconds: s.grace_seconds },
                )
            } else {
                (s, Action::Wait)
            },
            Event::SignalUnavailable(Trigger::Interrupt) => (
                Lifecycle { interrupt_armed: false, ..s },
                Action::Wait,
            ),
            Event::SignalUnavailable(Trigger::Terminate) => (
                Lifecycle { terminate_armed: false, ..s },
                Action::Wait,
            ),
            _ => (s, Action::Wait),
        },
        Phase::Draining { trigger, deadline_ms } => match e {
            Event::Drained => (
                Lifecycle { phase: Phase::Stopped { forced: false }, ..s },
                Action::Exit { forced: false },
            ),
            Event::Tick => if now_ms >= deadline_ms {
                (
                    Lifecycle { phase: Phase::Stopped { forced: true }, ..s },
                    Action::Exit { forced: true },
                )
            } else {
                (s, Action::Wait)
            },
            _ => (s, Action::Wait),
        },
        Phase::Stopped { .. } => (s, Action::Wait),
    }
}

impl Lifecycle {
    /// A serving process with both triggers armed.
    pub fn new(grace_seconds: u64) -> (r: Self)
        ensures
            r.grace_seconds == grace_seconds,
            r.phase == Phase::Serving,
            r.interrupt_armed,
            r.terminate_armed,
    {
        Lifecycle { grace_seconds, phase: Phase::Serving, interrupt_armed: true, terminate_armed: true }
    }

    /// Whether new connections are accepted.
    pub fn accepts_connections(&self) -> (r: bool)
        ensures
            r == (self.phase == Phase::Serving),
    {
        match self.phase {
            Phase::Serving => true,
            _ => false,
        }
    }

    /// Takes event `e`, observed at `now_ms` on a monotonic clock.
    pub fn step(&mut self, e: Event, now_ms: u64) -> (r: Action)
        ensures
            (*final(self), r) == step_spec(*old(self), e, now_ms),
    {
        match self.phase {
            Phase::Serving => match e {
                Event::Signal(t) => {
                    let live = match t {
                        Trigger::Interrupt => self.interrupt_armed,
                        Trigger::Terminate => self.terminate_armed,
                    };
                    if live {
                        let span = match self.grace_seconds.checked_mul(1000) {
                            Some(v) => v,
                            None => u64::MAX,
                        };
                        let deadline_ms = now_ms.saturating_add(span);
                        self.phase = Phase::Draining { trigger: t, deadline_ms };
                        Action::BeginDrain { trigger: t, grace_seconds: self.grace_seconds }
                    } else {
                        Action::Wait
                    }
                },
                Event::SignalUnavailable(Trigger::Interrupt) => {
                    self.interrupt_armed = false;
                    Action::Wait
                },
                Event::SignalUnavailable(Trigger::Terminate) => {
                    self.terminate_armed = false;
                    Action::Wait
                },
                _ => Action::Wait,
            },
            Phase::Draining { trigger: _, deadline_ms } => match e {
                Event::Drained => {
                    self.phase = Phase::Stopped { forced: false };
                    Action::Exit { forced: false }
                },
                Event::Tick => {
                    if now_ms >= deadline_ms {
                        self.phase = Phase::Stopped { forced: true };
                        Action::Exit { forced: true }
                    } else {
                        Action::Wait
                    }
                },
                _ => Action::Wait,
            },
            Phase::Stopped { .. } => Action::Wait,
        }
    }
}

/// The state after taking each `(event, time)` in turn.
pub open spec fn run(s: Lifecycle, events: Seq<(Event, u64)>) -> Lifecycle
    decreases events.len(),
{
    if events.len() == 0 {
        s
    } else {
        run(s, events.drop_last()).step_result(events.last())
    }
}

impl Lifecycle {
    pub open spec fn step_result(self, ev: (Event, u64)) -> Lifecycle {
        step_spec(self, ev.0, ev.1).0
    }
}

pub open spec fn is_signal(e: Event) -> bool {
    e is Signal
}

/// The server terminates only on an external trigger: with no trigger
/// among the events, whatever else happens (handlers failing to install,
/// time passing), it keeps serving.
pub proof fn lemma_serves_until_signalled(s: Lifecycle, events: Seq<(Event, u64)>)
    requires
        s.phase == Phase::Serving,
        forall|i: int| 0 <= i < events.len() ==> !is_signal(#[trigger] events[i].0),
    ensures
        run(s, events).phase == Phase::Serving,
    decreases events.len(),
{
    if events.len() > 0 {
        let init = events.drop_last();
        assert forall|i: int| 0 <= i < init.len() implies !is_signal(#[trigger] init[i].0) by {
            assert(init[i] == events[i]);
        }
        lemma_serves_until_signalled(s, init);
        assert(!is_signal(events[events.len() - 1].0));
    }
}

/// A failed handler never stops the other trigger: once one trigger is
/// disarmed, the other still starts the drain when it fires.
pub proof fn lemma_other_trigger_stays_live(s: Lifecycle, failed: Trigger, other: Trigger, t1: u64, t2: u64)
    requires
        s.phase == Phase::Serving,
        armed(s, other),
        failed != other,
    ensures
        ({
            let (s1, _) = step_spec(s, Event::SignalUnavailable(failed), t1);
            let (s2, a) = step_spec(s1, Event::Signal(other), t2);
            &&& a == Action::BeginDrain { trigger: other, grace_seconds: s.grace_seconds }
            &&& s2.phase == Phase::Draining { trigger: other, deadline_ms: deadline(t2, s.grace_seconds) }
        }),
{
}

/// Once a drain starts, no new connection is accepted again; the process
/// exits cleanly when the in-flight requests finish, and is forced out
/// only once the grace period has run out.
pub proof fn lemma_drain_then_exit(s: Lifecycle, e: Event, now_ms: u64)
    requires
        s.phase != Phase::Serving,
    ensures
        step_spec(s, e, now_ms).0.phase != Phase::Serving,
        (step_spec(s, e, now_ms).1 == (Action::Exit { forced: true })) ==> (s.phase matches Phase::Draining { deadline_ms, .. } && now_ms >= deadline_ms),
        (s.phase is Draining && e == Event::Drained) ==> (step_spec(s, e, now_ms).1 == (Action::Exit { forced: false })),
{
}

} // verus!
