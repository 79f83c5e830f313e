use vstd::prelude::*;

verus! {

/// How long the top level sleeps between two looks at the frontends.
pub const POLL_INTERVAL_MS: u64 = 50;

/// The two frontends whose ends the process waits for.
#[derive(Clone, Copy, Debug, PartialEq, Eq)]
pub enum Frontend {
    Network,
    Interactive,
}

/// The shutdown signal and which frontends have reached their terminal state.
pub struct ShutdownState {
    pub signaled: bool,
    pub network_terminal: bool,
    pub interactive_terminal: bool,
}

pub open spec fn initial_state() -> ShutdownState {
    ShutdownState { signaled: false, network_terminal: false, interactive_terminal: false }
}

/// The state after a trigger: the signal is set, whatever it was.
pub open spec fn triggered(s: ShutdownState) -> ShutdownState {
    ShutdownState { signaled: true, ..s }
}

pub open spec fn marked(s: ShutdownState, f: Frontend) -> ShutdownState {
    match f {
        Frontend::Network => ShutdownState { network_terminal: true, ..s },
        Frontend::Interactive => ShutdownState { interactive_terminal: true, ..s },
    }
}

pub open spec fn all_terminal(s: ShutdownState) -> bool {
    s.network_terminal && s.interactive_terminal
}

/// What the top level does next while it waits for both frontends.
#[derive(Clone, Copy, Debug, PartialEq, Eq)]
pub enum AwaitDecision {
    /// Both frontends are terminal: exit cleanly.
    Finished,
    /// Sleep this many milliseconds, then look again.
    Wait(u64),
    /// The timeout has elapsed with a frontend still running: tear down.
    TimedOut,
}

/// The decision after `elapsed` of `timeout` milliseconds, given whether both
/// frontends are terminal. A wait never runs past the timeout.
pub open spec fn await_decision(all_done: bool, elapsed: int, timeout: int) -> AwaitDecision {
    if all_done {
        AwaitDecision::Finished
    } else if elapsed >= timeout {
        AwaitDecision::TimedOut
    } else if timeout - elapsed < POLL_INTERVAL_MS {
        AwaitDecision::Wait((timeout - elapsed) as u64)
    } else {
        AwaitDecision::Wait(POLL_INTERVAL_MS)
    }
}

/// The shared shutdown signal, set once and never cleared, and the barrier
/// that records which frontends have ended.
#[derive(Clone, Copy, Debug, PartialEq, Eq)]
pub struct ShutdownCoordinator {
    signaled: bool,
    network_terminal: bool,
    interactive_terminal: bool,
}

impl View for ShutdownCoordinator {
    type V = ShutdownState;

    closed spec fn view(&self) -> ShutdownState {
        ShutdownState {
            signaled: self.signaled,
            network_terminal: self.network_terminal,
            interactive_terminal: self.interactive_terminal,
        }
    }
}

impl ShutdownCoordinator {
    pub fn new() -> (r: ShutdownCoordinator)
        ensures
            r@ == initial_state(),
    {
        ShutdownCoordinator { signaled: false, network_terminal: false, interactive_terminal: false }
    }

    /// Sets the shutdown signal. Returns true for the call that set it, which
    /// alone starts the shutdown sequence; later calls change nothing.
    pub fn trigger(&mut self) -> (started: bool)
        ensures
            final(self)@ == triggered(old(self)@),
            started == !old(self)@.signaled,
    {
        let started = !self.signaled;
        self.signaled = true;
        started
    }

    pub fn is_signaled(&self) -> (r: bool)
        ensures
            r == self@.signaled,
    {
        self.signaled
    }

    /// Records that a frontend has reached its terminal state.
    pub fn mark_terminal(&mut self, f: Frontend)
        ensures
            final(self)@ == marked(old(self)@, f),
    {
        match f {
            Frontend::Network => self.network_terminal = true,
            Frontend::Interactive => self.interactive_terminal = true,
        }
    }

    pub fn is_terminal(&self, f: Frontend) -> (r: bool)
        ensures
            r == match f {
                Frontend::Network => self@.network_terminal,
                Frontend::Interactive => self@.interactive_terminal,
            },
    {
        match f {
            Frontend::Network => self.network_terminal,
            Frontend::Interactive => self.interactive_terminal,
        }
    }

    pub fn all_terminal(&self) -> (r: bool)
        ensures
            r == all_terminal(self@),
    {
        self.network_terminal && self.interactive_terminal
    }

    /// One step of waiting for both frontends, `elapsed` milliseconds into a
    /// wait bounded by `timeout` milliseconds.
    pub fn await_step(&self, elapsed: u64, timeout: u64) -> (d: AwaitDecision)
        ensures
            d == await_decision(all_terminal(self@), elapsed as int, timeout as int),
    {
        if self.network_terminal && self.interactive_terminal {
            AwaitDecision::Finished
        } else if elapsed >= timeout {
            AwaitDecision::TimedOut
        } else if timeout - elapsed < POLL_INTERVAL_MS {
            AwaitDecision::Wait(timeout - elapsed)
        } else {
            AwaitDecision::Wait(POLL_INTERVAL_MS)
        }
    }
}

/// The process's exit status once waiting has ended: zero after a clean
/// shutdown, one after a timeout.
pub fn exit_code(d: AwaitDecision) -> (r: i32)
    requires
        !(d is Wait),
    ensures
        d is Finished ==> r == 0,
        d is TimedOut ==> r == 1,
{
    match d {
        AwaitDecision::Finished => 0,
        _ => 1,
    }
}

/// The state after `k` triggers in a row.
pub open spec fn after_triggers(s: ShutdownState, k: nat) -> ShutdownState
    decreases k,
{
    if k == 0 {
        s
    } else {
        triggered(after_triggers(s, (k - 1) as nat))
    }
}

/// How many of `k` triggers in a row start the shutdown sequence.
pub open spec fn shutdown_starts(s: ShutdownState, k: nat) -> nat
    decreases k,
{
    if k == 0 {
        0
    } else {
        shutdown_starts(s, (k - 1) as nat) + if after_triggers(s, (k - 1) as nat).signaled {
            0nat
        } else {
            1nat
        }
    }
}

/// Any number of triggers, one or more, leaves the signal set and starts the
/// shutdown sequence once from a state where it was not set, and never from one
/// where it was; the frontends' marks stay as they were.
pub proof fn lemma_trigger_idempotent(s: ShutdownState, k: nat)
    requires
        k >= 1,
    ensures
        after_triggers(s, k).signaled,
        shutdown_starts(s, k) == if s.signaled { 0nat } else { 1nat },
        after_triggers(s, k).network_terminal == s.network_terminal,
        after_triggers(s, k).interactive_terminal == s.interactive_terminal,
    decreases k,
{
    assert(after_triggers(s, 0) == s);
    assert(shutdown_starts(s, 0) == 0);
    if k > 1 {
        lemma_trigger_idempotent(s, (k - 1) as nat);
    }
    assert(after_triggers(s, k) == triggered(after_triggers(s, (k - 1) as nat)));
}

/// Whether both frontends are terminal at time `e`, when they became so at
/// `done_at` (never, if `None`).
pub open spec fn done_by(done_at: Option<nat>, e: nat) -> bool {
    match done_at {
        Some(t) => e >= t,
        None => false,
    }
}

/// The time at which waiting that started at `elapsed` ends, and how it ends,
/// when the top level sleeps as each decision says.
pub open spec fn await_run(done_at: Option<nat>, elapsed: nat, timeout: nat) -> (nat, AwaitDecision)
    decreases timeout - elapsed,
{
    match await_decision(done_by(done_at, elapsed), elapsed as int, timeout as int) {
        AwaitDecision::Wait(d) => if d > 0 && elapsed + d <= timeout {
            await_run(done_at, elapsed + d as nat, timeout)
        } else {
            (elapsed, AwaitDecision::Wait(d))
        },
        other => (elapsed, other),
    }
}

/// Once both frontends are terminal at time `t`, no later than the timeout,
/// waiting ends cleanly within one polling interval of `t` and no later than
/// the timeout.
pub proof fn lemma_await_ends_once_terminal(t: nat, elapsed: nat, timeout: nat)
    requires
        t <= timeout,
        elapsed <= timeout,
        elapsed < t + POLL_INTERVAL_MS,
    ensures
        await_run(Some(t), elapsed, timeout).1 == AwaitDecision::Finished,
        await_run(Some(t), elapsed, timeout).0 <= timeout,
        await_run(Some(t), elapsed, timeout).0 < t + POLL_INTERVAL_MS,
        elapsed <= t ==> await_run(Some(t), elapsed, timeout).0 >= t,
    decreases timeout - elapsed,
{
    if elapsed < t {
        let d = await_decision(false, elapsed as int, timeout as int);
        assert(d is Wait);
        lemma_await_ends_once_terminal(t, elapsed + d->Wait_0 as nat, timeout);
    }
}

/// While a frontend never becomes terminal, waiting ends by timing out exactly
/// when the timeout has elapsed: never before, and never after.
pub proof fn lemma_await_bounded(elapsed: nat, timeout: nat)
    requires
        elapsed <= timeout,
    ensures
        await_run(None, elapsed, timeout) == (timeout, AwaitDecision::TimedOut),
    decreases timeout - elapsed,
{
    if elapsed < timeout {
        let d = await_decision(false, elapsed as int, timeout as int);
        lemma_await_bounded(elapsed + d->Wait_0 as nat, timeout);
    }
}

} // verus!
