//! The loop that keeps a worker connected: connect, dispatch until the
//! connection ends, rest, and connect again, without end.

use vstd::prelude::*;

verus! {

/// What the supervisor is doing.
#[derive(Debug, Clone, Copy, PartialEq, Eq, Structural)]
pub enum SupervisorState {
    /// A connection is being opened.
    Connecting,
    /// The dispatcher of a connection runs.
    Dispatching,
    /// The worker rests for the given number of seconds.
    Resting(u64),
}

/// What the loop around the supervisor reports.
#[derive(Debug, Clone, Copy, PartialEq, Eq, Structural)]
pub enum SupervisorEvent {
    /// The connection could not be opened.
    ConnectFailed,
    /// The connection is open.
    Connected,
    /// The dispatcher has returned.
    Returned,
    /// The rest is over.
    Rested,
}

/// What the loop around the supervisor does next.
#[derive(Debug, Clone, Copy, PartialEq, Eq, Structural)]
pub enum SupervisorAction {
    /// Open a connection.
    Connect,
    /// Run the dispatcher of the open connection until it returns.
    Dispatch,
    /// Sleep for the given number of seconds.
    Rest(u64),
}

/// How long a worker rests.
#[derive(Debug, Clone, Copy, PartialEq, Eq, Structural)]
pub struct Cooldowns {
    /// The seconds to rest after a connection could not be opened.
    pub after_failure: u64,
    /// The seconds to rest after a connection has ended.
    pub after_return: u64,
}

/// The seconds to rest after a connection could not be opened.
pub const RETRY_COOLDOWN_SECS: u64 = 5;

/// The seconds to rest after a connection has ended.
pub const RECONNECT_COOLDOWN_SECS: u64 = 10;

/// What the supervisor asks for in a state.
pub open spec fn action_in(state: SupervisorState) -> SupervisorAction {
    match state {
        SupervisorState::Connecting => SupervisorAction::Connect,
        SupervisorState::Dispatching => SupervisorAction::Dispatch,
        SupervisorState::Resting(seconds) => SupervisorAction::Rest(seconds),
    }
}

/// The state after an event. An event that the state does not wait for
/// changes nothing.
pub open spec fn state_after(cooldowns: Cooldowns, state: SupervisorState, event: SupervisorEvent)
    -> SupervisorState {
    match (state, event) {
        (SupervisorState::Connecting, SupervisorEvent::ConnectFailed) => SupervisorState::Resting(
            cooldowns.after_failure,
        ),
        (SupervisorState::Connecting, SupervisorEvent::Connected) => SupervisorState::Dispatching,
        (SupervisorState::Dispatching, SupervisorEvent::Returned) => SupervisorState::Resting(
            cooldowns.after_return,
        ),
        (SupervisorState::Resting(_), SupervisorEvent::Rested) => SupervisorState::Connecting,
        _ => state,
    }
}

/// The supervisor of one worker.
#[derive(Debug)]
pub struct Supervisor {
    cooldowns: Cooldowns,
    state: SupervisorState,
}

impl Supervisor {
    pub closed spec fn cooldowns(self) -> Cooldowns {
        self.cooldowns
    }

    pub closed spec fn state(self) -> SupervisorState {
        self.state
    }

    /// A supervisor with the usual rests, about to connect.
    pub fn new() -> (supervisor: Self)
        ensures
            supervisor.state() == SupervisorState::Connecting,
            supervisor.cooldowns() == (Cooldowns {
                after_failure: RETRY_COOLDOWN_SECS,
                after_return: RECONNECT_COOLDOWN_SECS,
            }),
    {
        Supervisor {
            cooldowns: Cooldowns {
                after_failure: RETRY_COOLDOWN_SECS,
                after_return: RECONNECT_COOLDOWN_SECS,
            },
            state: SupervisorState::Connecting,
        }
    }

    /// A supervisor with the given rests, about to connect.
    pub fn with_cooldowns(cooldowns: Cooldowns) -> (supervisor: Self)
        ensures
            supervisor.state() == SupervisorState::Connecting,
            supervisor.cooldowns() == cooldowns,
    {
        Supervisor { cooldowns, state: SupervisorState::Connecting }
    }

    /// What the loop does now.
    pub fn action(&self) -> (action: SupervisorAction)
        ensures
            action == action_in(self.state()),
    {
        match self.state {
            SupervisorState::Connecting => SupervisorAction::Connect,
            SupervisorState::Dispatching => SupervisorAction::Dispatch,
            SupervisorState::Resting(seconds) => SupervisorAction::Rest(seconds),
        }
    }

    /// Takes one event of the loop and says what the loop does next. There
    /// is always something to do next: the loop never ends by itself.
    pub fn step(&mut self, event: SupervisorEvent) -> (action: SupervisorAction)
        ensures
            final(self).cooldowns() == old(self).cooldowns(),
            final(self).state() == state_after(old(self).cooldowns(), old(self).state(), event),
            action == action_in(final(self).state()),
    {
        let next = match (self.state, event) {
            (SupervisorState::Connecting, SupervisorEvent::ConnectFailed) => SupervisorState::Resting(
                self.cooldowns.after_failure,
            ),
            (SupervisorState::Connecting, SupervisorEvent::Connected) => SupervisorState::Dispatching,
            (SupervisorState::Dispatching, SupervisorEvent::Returned) => SupervisorState::Resting(
                self.cooldowns.after_return,
            ),
            (SupervisorState::Resting(_), SupervisorEvent::Rested) => SupervisorState::Connecting,
            (state, _) => state,
        };
        self.state = next;
        self.action()
    }
}

/// Every way a connection can fail or end leads, after its rest, to a new
/// attempt: a failure to connect after the rest for failures, the end of a
/// connection after the rest for returns.
pub proof fn lemma_every_end_is_retried(cooldowns: Cooldowns)
    ensures
        state_after(cooldowns, SupervisorState::Connecting, SupervisorEvent::ConnectFailed)
            == SupervisorState::Resting(cooldowns.after_failure),
        state_after(cooldowns, SupervisorState::Dispatching, SupervisorEvent::Returned)
            == SupervisorState::Resting(cooldowns.after_return),
        forall|seconds: u64|
            state_after(cooldowns, SupervisorState::Resting(seconds), SupervisorEvent::Rested)
                == SupervisorState::Connecting,
        state_after(cooldowns, SupervisorState::Connecting, SupervisorEvent::Connected)
            == SupervisorState::Dispatching,
{
}

} // verus!
