//! The termination protocol of one detached session, as a state machine.
//!
//! The driver asks for the current action, performs it, and reports how it
//! went; the machine decides what comes next. The order is fixed: a graceful
//! signal to the whole process group, polling of the lead process for at most
//! the grace window, a forceful signal to the group if the lead process
//! outlived the window, then the output relay's shutdown, the release of the
//! terminal handles, and the join of the reader worker.

use vstd::prelude::*;

verus! {

/// How long the lead process may take to exit after the graceful signal.
pub const GRACE_MS: u64 = 3000;

/// The pause between two liveness probes of the lead process.
pub const POLL_INTERVAL_MS: u64 = 100;

/// The signal sent to a session's process group.
#[derive(Debug, Clone, Copy, PartialEq, Eq, Structural)]
pub enum Signal {
    /// The polite request to exit.
    Terminate,
    /// The forceful kill.
    Kill,
}

/// Where a termination stands.
#[derive(Debug, Clone, Copy, PartialEq, Eq, Structural)]
pub enum Phase {
    SignalGroup,
    Probe,
    Wait,
    Escalate,
    NotifyShutdown,
    ReleaseHandles,
    JoinReader,
    Gone,
}

/// What the driver is to do next.
#[derive(Debug, Clone, Copy, PartialEq, Eq, Structural)]
pub enum KillAction {
    /// Send `signal` to the process group `pgid`.
    SendSignal { pgid: i32, signal: Signal },
    /// Check, without blocking, whether the process `pid` still exists.
    ProbeLeader { pid: i32 },
    /// Pause for `ms` milliseconds.
    Sleep { ms: u64 },
    /// Tell the output relay to stop.
    NotifyShutdown,
    /// Drop the terminal's writer and controller, closing the terminal.
    ReleaseHandles,
    /// Wait for the reader worker to finish, off the primary scheduler.
    JoinReader,
    /// Nothing is left to do.
    Finished,
}

/// What the driver reports after performing an action.
#[derive(Debug, Clone, Copy, PartialEq, Eq, Structural)]
pub enum KillEvent {
    /// The action was performed (whether or not the operating system
    /// reported a failure, which only gets logged).
    Done,
    /// The probe found the lead process alive.
    LeaderAlive,
    /// The probe found the lead process gone.
    LeaderGone,
}

/// The state of one termination.
#[derive(Debug, Clone, Copy, PartialEq, Eq, Structural)]
pub struct TerminationProtocol {
    pub pid: i32,
    pub pgid: i32,
    pub phase: Phase,
    /// Milliseconds slept since the graceful signal.
    pub waited_ms: u64,
}

/// The pause before the next probe, after `waited` milliseconds of waiting.
pub open spec fn pause_after(waited: u64) -> u64 {
    if GRACE_MS - waited < POLL_INTERVAL_MS {
        (GRACE_MS - waited) as u64
    } else {
        POLL_INTERVAL_MS
    }
}

/// The action that belongs to a state.
pub open spec fn action_of(t: TerminationProtocol) -> KillAction {
    match t.phase {
        Phase::SignalGroup => KillAction::SendSignal { pgid: t.pgid, signal: Signal::Terminate },
        Phase::Probe => KillAction::ProbeLeader { pid: t.pid },
        Phase::Wait => KillAction::Sleep { ms: pause_after(t.waited_ms) },
        Phase::Escalate => KillAction::SendSignal { pgid: t.pgid, signal: Signal::Kill },
        Phase::NotifyShutdown => KillAction::NotifyShutdown,
        Phase::ReleaseHandles => KillAction::ReleaseHandles,
        Phase::JoinReader => KillAction::JoinReader,
        Phase::Gone => KillAction::Finished,
    }
}

/// The state after the driver reports `e` for the action of `t`.
pub open spec fn step(t: TerminationProtocol, e: KillEvent) -> TerminationProtocol {
    match t.phase {
        Phase::SignalGroup => TerminationProtocol { phase: Phase::Probe, ..t },
        Phase::Probe => if e == KillEvent::LeaderGone {
            TerminationProtocol { phase: Phase::NotifyShutdown, ..t }
        } else {
            TerminationProtocol { phase: Phase::Wait, ..t }
        },
        Phase::Wait => {
            let w = (t.waited_ms + pause_after(t.waited_ms)) as u64;
            if w >= GRACE_MS {
                TerminationProtocol { phase: Phase::Escalate, waited_ms: w, ..t }
            } else {
                TerminationProtocol { phase: Phase::Probe, waited_ms: w, ..t }
            }
        },
        Phase::Escalate => TerminationProtocol { phase: Phase::NotifyShutdown, ..t },
        Phase::NotifyShutdown => TerminationProtocol { phase: Phase::ReleaseHandles, ..t },
        Phase::ReleaseHandles => TerminationProtocol { phase: Phase::JoinReader, ..t },
        Phase::JoinReader => TerminationProtocol { phase: Phase::Gone, ..t },
        Phase::Gone => t,
    }
}

/// The position of a phase in the fixed order; polling and waiting share one.
pub open spec fn rank(p: Phase) -> nat {
    match p {
        Phase::SignalGroup => 0,
        Phase::Probe => 1,
        Phase::Wait => 1,
        Phase::Escalate => 2,
        Phase::NotifyShutdown => 3,
        Phase::ReleaseHandles => 4,
        Phase::JoinReader => 5,
        Phase::Gone => 6,
    }
}

/// An upper bound on the number of steps left before `Gone`.
pub open spec fn steps_left(t: TerminationProtocol) -> nat {
    match t.phase {
        Phase::SignalGroup => (2 * GRACE_MS + 7) as nat,
        Phase::Probe => (2 * (GRACE_MS - t.waited_ms) + 6) as nat,
        Phase::Wait => (2 * (GRACE_MS - t.waited_ms) + 5) as nat,
        Phase::Escalate => 4,
        Phase::NotifyShutdown => 3,
        Phase::ReleaseHandles => 2,
        Phase::JoinReader => 1,
        Phase::Gone => 0,
    }
}

impl TerminationProtocol {
    /// The waiting time never exceeds the grace window, and while polling it
    /// is below it; nothing has been waited before the graceful signal.
    pub open spec fn wf(&self) -> bool {
        &&& self.waited_ms <= GRACE_MS
        &&& (self.phase == Phase::Probe || self.phase == Phase::Wait) ==> self.waited_ms < GRACE_MS
        &&& self.phase == Phase::SignalGroup ==> self.waited_ms == 0
    }

    /// A termination of the session whose lead process is `pid` and whose
    /// process group is `pgid`, about to send the graceful signal.
    pub fn new(pid: i32, pgid: i32) -> (r: TerminationProtocol)
        ensures
            r.wf(),
            r == (TerminationProtocol { pid, pgid, phase: Phase::SignalGroup, waited_ms: 0 }),
    {
        TerminationProtocol { pid, pgid, phase: Phase::SignalGroup, waited_ms: 0 }
    }

    /// The action the driver is to perform now.
    pub fn action(&self) -> (r: KillAction)
        requires
            self.wf(),
        ensures
            r == action_of(*self),
    {
        match self.phase {
            Phase::SignalGroup => KillAction::SendSignal { pgid: self.pgid, signal: Signal::Terminate },
            Phase::Probe => KillAction::ProbeLeader { pid: self.pid },
            Phase::Wait => {
                let left = GRACE_MS - self.waited_ms;
                let ms = if left < POLL_INTERVAL_MS {
                    left
                } else {
                    POLL_INTERVAL_MS
                };
                KillAction::Sleep { ms }
            },
            Phase::Escalate => KillAction::SendSignal { pgid: self.pgid, signal: Signal::Kill },
            Phase::NotifyShutdown => KillAction::NotifyShutdown,
            Phase::ReleaseHandles => KillAction::ReleaseHandles,
            Phase::JoinReader => KillAction::JoinReader,
            Phase::Gone => KillAction::Finished,
        }
    }

    /// Records how the current action went and moves to the next state.
    pub fn advance(&mut self, event: KillEvent)
        requires
            old(self).wf(),
        ensures
            final(self).wf(),
            *final(self) == step(*old(self), event),
    {
        match self.phase {
            Phase::SignalGroup => {
                self.phase = Phase::Probe;
            },
            Phase::Probe => {
                if event == KillEvent::LeaderGone {
                    self.phase = Phase::NotifyShutdown;
                } else {
                    self.phase = Phase::Wait;
                }
            },
            Phase::Wait => {
                let left = GRACE_MS - self.waited_ms;
                let pause = if left < POLL_INTERVAL_MS {
                    left
                } else {
                    POLL_INTERVAL_MS
                };
                let w = self.waited_ms + pause;
                self.waited_ms = w;
                if w >= GRACE_MS {
                    self.phase = Phase::Escalate;
                } else {
                    self.phase = Phase::Probe;
                }
            },
            Phase::Escalate => {
                self.phase = Phase::NotifyShutdown;
            },
            Phase::NotifyShutdown => {
                self.phase = Phase::ReleaseHandles;
            },
            Phase::ReleaseHandles => {
                self.phase = Phase::JoinReader;
            },
            Phase::JoinReader => {
                self.phase = Phase::Gone;
            },
            Phase::Gone => {},
        }
    }

    /// Whether the termination has run to completion.
    pub fn is_finished(&self) -> (r: bool)
        ensures
            r == (self.phase == Phase::Gone),
    {
        self.phase == Phase::Gone
    }
}

/// The steps keep the fixed order: no step goes back to an earlier phase, so
/// the graceful signal precedes any forceful one, which precedes the relay's
/// shutdown, which precedes the release of the handles, which precedes the
/// join of the reader worker.
pub proof fn lemma_order_kept(t: TerminationProtocol, e: KillEvent)
    requires
        t.wf(),
    ensures
        step(t, e).wf(),
        rank(step(t, e).phase) >= rank(t.phase),
{
}

/// Every step before the end brings the termination closer to it: a kill
/// always completes, after at most `2 * GRACE_MS + 7` steps.
pub proof fn lemma_progress(t: TerminationProtocol, e: KillEvent)
    requires
        t.wf(),
        t.phase != Phase::Gone,
    ensures
        steps_left(step(t, e)) < steps_left(t),
        steps_left(t) <= 2 * GRACE_MS + 7,
{
}

/// The forceful signal comes only once the whole grace window has been
/// waited, and only after the lead process was found alive.
pub proof fn lemma_escalation_after_grace(t: TerminationProtocol, e: KillEvent)
    requires
        t.wf(),
        t.phase != Phase::Escalate,
        step(t, e).phase == Phase::Escalate,
    ensures
        t.phase == Phase::Wait,
        step(t, e).waited_ms == GRACE_MS,
{
}

/// A lead process found gone is never sent the forceful signal: the next
/// step is the relay's shutdown, with no further waiting.
pub proof fn lemma_gone_leader_spared(t: TerminationProtocol)
    requires
        t.wf(),
        t.phase == Phase::Probe,
    ensures
        step(t, KillEvent::LeaderGone).phase == Phase::NotifyShutdown,
        step(t, KillEvent::LeaderGone).waited_ms == t.waited_ms,
{
}

/// What the driver reports when the lead process never exits: every probe
/// finds it alive, every other action is simply done.
pub open spec fn stubborn_event(t: TerminationProtocol) -> KillEvent {
    if t.phase == Phase::Probe {
        KillEvent::LeaderAlive
    } else {
        KillEvent::Done
    }
}

/// The state after `n` steps against a lead process that never exits.
pub open spec fn run_stubborn(t: TerminationProtocol, n: nat) -> TerminationProtocol
    decreases n,
{
    if n == 0 {
        t
    } else {
        run_stubborn(step(t, stubborn_event(t)), (n - 1) as nat)
    }
}

proof fn lemma_run_split(t: TerminationProtocol, a: nat, b: nat)
    ensures
        run_stubborn(t, a + b) == run_stubborn(run_stubborn(t, a), b),
    decreases a,
{
    if a > 0 {
        lemma_run_split(step(t, stubborn_event(t)), (a - 1) as nat, b);
        assert((a + b - 1) as nat == (a - 1) as nat + b);
    }
}

/// Against a lead process that is still alive, the probe after `k` pauses
/// (`k < 30`) comes after `1 + 2 * k` steps, with `100 * k` milliseconds
/// waited.
pub proof fn lemma_stubborn_polls(pid: i32, pgid: i32, k: nat)
    requires
        k < 30,
    ensures
        run_stubborn(TerminationProtocol { pid, pgid, phase: Phase::SignalGroup, waited_ms: 0 }, 1 + 2
            * k) == (TerminationProtocol { pid, pgid, phase: Phase::Probe, waited_ms: (100 * k) as u64 }),
    decreases k,
{
    let t0 = TerminationProtocol { pid, pgid, phase: Phase::SignalGroup, waited_ms: 0 };
    if k == 0 {
        assert(run_stubborn(t0, 1) == run_stubborn(step(t0, KillEvent::Done), 0));
    } else {
        lemma_stubborn_polls(pid, pgid, (k - 1) as nat);
        lemma_run_split(t0, (1 + 2 * (k - 1)) as nat, 2);
        assert((1 + 2 * (k - 1)) as nat + 2 == 1 + 2 * k);
        let p = TerminationProtocol { pid, pgid, phase: Phase::Probe, waited_ms: (100 * (k - 1)) as u64 };
        let w = step(p, KillEvent::LeaderAlive);
        assert(run_stubborn(p, 2) == run_stubborn(w, 1));
        assert(run_stubborn(w, 1) == run_stubborn(step(w, KillEvent::Done), 0));
    }
}

/// A lead process that exits on the graceful signal, and is found gone at
/// the probe after `k` pauses (`k < 30`, so within the grace window), is
/// never sent the forceful signal: up to that probe no step escalates, the
/// waiting stops at `100 * k` milliseconds, below the window, and the relay's
/// shutdown, the release of the handles, the join and the end follow, each
/// after one step.
pub proof fn lemma_leader_exits_within_grace(pid: i32, pgid: i32, k: nat)
    requires
        k < 30,
    ensures
        ({
            let t0 = TerminationProtocol { pid, pgid, phase: Phase::SignalGroup, waited_ms: 0 };
            let probe = run_stubborn(t0, 1 + 2 * k);
            let n1 = step(probe, KillEvent::LeaderGone);
            let n2 = step(n1, KillEvent::Done);
            let n3 = step(n2, KillEvent::Done);
            let n4 = step(n3, KillEvent::Done);
            &&& probe.phase == Phase::Probe
            &&& probe.waited_ms == 100 * k
            &&& probe.waited_ms < GRACE_MS
            &&& forall|n: nat| n <= 1 + 2 * k ==> #[trigger] run_stubborn(t0, n).phase != Phase::Escalate
            &&& n1.phase == Phase::NotifyShutdown && n1.waited_ms == probe.waited_ms
            &&& n2.phase == Phase::ReleaseHandles
            &&& n3.phase == Phase::JoinReader
            &&& n4.phase == Phase::Gone
        }),
{
    lemma_stubborn_polls(pid, pgid, k);
    lemma_stubborn_leader_escalates(pid, pgid);
}

/// A lead process that ignores the graceful signal is sent the forceful one
/// exactly when the whole grace window has been waited: after the graceful
/// signal and thirty probes each followed by a pause, and not a step
/// earlier; the protocol then runs on to its end.
pub proof fn lemma_stubborn_leader_escalates(pid: i32, pgid: i32)
    ensures
        ({
            let t0 = TerminationProtocol { pid, pgid, phase: Phase::SignalGroup, waited_ms: 0 };
            &&& run_stubborn(t0, 61) == (TerminationProtocol {
                pid,
                pgid,
                phase: Phase::Escalate,
                waited_ms: GRACE_MS,
            })
            &&& forall|n: nat| n < 61 ==> #[trigger] run_stubborn(t0, n).phase != Phase::Escalate
            &&& run_stubborn(t0, 65).phase == Phase::Gone
        }),
{
    let t0 = TerminationProtocol { pid, pgid, phase: Phase::SignalGroup, waited_ms: 0 };
    lemma_stubborn_polls(pid, pgid, 29);
    lemma_run_split(t0, 59, 2);
    let p = TerminationProtocol { pid, pgid, phase: Phase::Probe, waited_ms: 2900 };
    let w = step(p, KillEvent::LeaderAlive);
    assert(run_stubborn(p, 2) == run_stubborn(w, 1));
    assert(run_stubborn(w, 1) == run_stubborn(step(w, KillEvent::Done), 0));
    let e = run_stubborn(t0, 61);
    lemma_run_split(t0, 61, 4);
    assert(run_stubborn(e, 4) == run_stubborn(step(e, KillEvent::Done), 3));
    let n1 = step(e, KillEvent::Done);
    assert(run_stubborn(n1, 3) == run_stubborn(step(n1, KillEvent::Done), 2));
    let n2 = step(n1, KillEvent::Done);
    assert(run_stubborn(n2, 2) == run_stubborn(step(n2, KillEvent::Done), 1));
    let n3 = step(n2, KillEvent::Done);
    assert(run_stubborn(n3, 1) == run_stubborn(step(n3, KillEvent::Done), 0));
    assert forall|n: nat| n < 61 implies #[trigger] run_stubborn(t0, n).phase != Phase::Escalate by {
        if n == 0 {
        } else if n % 2 == 1 {
            lemma_stubborn_polls(pid, pgid, ((n - 1) / 2) as nat);
            assert(1 + 2 * (((n - 1) / 2) as nat) == n);
        } else {
            let k = ((n - 2) / 2) as nat;
            lemma_stubborn_polls(pid, pgid, k);
            lemma_run_split(t0, 1 + 2 * k, 1);
            assert(1 + 2 * k + 1 == n);
            let pk = TerminationProtocol { pid, pgid, phase: Phase::Probe, waited_ms: (100 * k) as u64 };
            assert(run_stubborn(pk, 1) == run_stubborn(step(pk, KillEvent::LeaderAlive), 0));
        }
    }
}

} // verus!
