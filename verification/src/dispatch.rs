//! The dispatcher of one connection.
//!
//! The dispatcher owns the permit pool of its connection. It draws a permit
//! before it reads a frame, hands the permit to the handler task that a text
//! frame starts, and takes it back when that task has finished. The loop
//! around it performs what [`Step`] says and reports what happened as a
//! [`ChannelEvent`].

use vstd::prelude::*;

verus! {

/// Where a connection stands in its life.
#[derive(Debug, Clone, Copy, PartialEq, Eq, Structural)]
pub enum ConnectionPhase {
    /// Frames are read and dispatched.
    Open,
    /// Reading has ended; handler tasks are still running.
    Draining,
    /// Reading has ended and every handler task has finished.
    Closed,
}

/// What the dispatch loop blocks on next.
#[derive(Debug, Clone, Copy, PartialEq, Eq, Structural)]
pub enum Wait {
    /// A permit is held: read the next frame.
    Frame,
    /// No permit is free, or the connection drains: wait for a handler task
    /// to finish.
    Task,
    /// The connection is closed: the loop returns.
    Nothing,
}

/// An inbound frame, by what the dispatcher does with it.
#[derive(Debug)]
pub enum Frame {
    /// A text frame: one event.
    Text(String),
    /// A close frame.
    Close,
    /// A frame of any other type.
    Other,
}

/// What the loop around the dispatcher reports.
#[derive(Debug)]
pub enum ChannelEvent {
    /// The read yielded a frame.
    Frame(Frame),
    /// The read failed at the transport.
    ReadFailed,
    /// The read side has ended.
    StreamEnded,
    /// A handler task has finished, in whatever way.
    TaskFinished,
}

/// What the loop does after an event.
#[derive(Debug)]
pub struct Step {
    /// The payload of a handler task to start now.
    pub spawn: Option<String>,
    /// What to block on after that.
    pub wait: Wait,
}

/// The state of a connection as the contracts see it.
pub struct ConnectionState {
    /// The size of the permit pool.
    pub limit: nat,
    /// The handler tasks that were started and have not finished; each holds
    /// one permit.
    pub in_flight: nat,
    /// Whether the dispatcher holds a permit for the frame it reads next.
    pub holding: bool,
    pub phase: ConnectionPhase,
}

/// The permits that are drawn from the pool.
pub open spec fn permits_out(s: ConnectionState) -> nat {
    if s.holding {
        s.in_flight + 1
    } else {
        s.in_flight
    }
}

/// The states that a connection can be in.
pub open spec fn connection_wf(s: ConnectionState) -> bool {
    &&& s.limit >= 1
    &&& permits_out(s) <= s.limit
    &&& match s.phase {
        ConnectionPhase::Open => s.holding || s.in_flight == s.limit,
        ConnectionPhase::Draining => !s.holding && s.in_flight >= 1,
        ConnectionPhase::Closed => !s.holding && s.in_flight == 0,
    }
}

/// A connection as a successful handshake leaves it: no task runs, and the
/// dispatcher holds the permit for the first frame.
pub open spec fn opened_connection(limit: nat) -> ConnectionState {
    ConnectionState { limit, in_flight: 0, holding: true, phase: ConnectionPhase::Open }
}

/// What the loop blocks on in a state.
pub open spec fn pending(s: ConnectionState) -> Wait {
    match s.phase {
        ConnectionPhase::Open => if s.holding {
            Wait::Frame
        } else {
            Wait::Task
        },
        ConnectionPhase::Draining => Wait::Task,
        ConnectionPhase::Closed => Wait::Nothing,
    }
}

/// The state after reading has ended: closed where no task runs, draining
/// otherwise. The permit of the read is given back.
pub open spec fn stop_reading(s: ConnectionState) -> ConnectionState {
    ConnectionState {
        holding: false,
        phase: if s.in_flight == 0 {
            ConnectionPhase::Closed
        } else {
            ConnectionPhase::Draining
        },
        ..s
    }
}

/// The state after an event.
pub open spec fn next_state(s: ConnectionState, event: ChannelEvent) -> ConnectionState {
    match event {
        ChannelEvent::TaskFinished => {
            if s.in_flight == 0 {
                s
            } else {
                let in_flight = (s.in_flight - 1) as nat;
                match s.phase {
                    ConnectionPhase::Open => ConnectionState { in_flight, holding: true, ..s },
                    ConnectionPhase::Draining => ConnectionState {
                        in_flight,
                        phase: if in_flight == 0 {
                            ConnectionPhase::Closed
                        } else {
                            ConnectionPhase::Draining
                        },
                        ..s
                    },
                    ConnectionPhase::Closed => s,
                }
            }
        },
        ChannelEvent::Frame(frame) => {
            if pending(s) != Wait::Frame {
                s
            } else {
                match frame {
                    Frame::Text(_) => ConnectionState {
                        in_flight: s.in_flight + 1,
                        holding: s.in_flight + 1 < s.limit,
                        ..s
                    },
                    Frame::Close => stop_reading(s),
                    Frame::Other => s,
                }
            }
        },
        ChannelEvent::ReadFailed | ChannelEvent::StreamEnded => {
            if pending(s) != Wait::Frame {
                s
            } else {
                stop_reading(s)
            }
        },
    }
}

/// The payload of the handler task that an event starts.
pub open spec fn spawned_by(s: ConnectionState, event: ChannelEvent) -> Option<String> {
    match event {
        ChannelEvent::Frame(Frame::Text(text)) => if pending(s) == Wait::Frame {
            Some(text)
        } else {
            None
        },
        _ => None,
    }
}

/// Whether an event gives a permit back from a handler task.
pub open spec fn finishes_task(s: ConnectionState, event: ChannelEvent) -> bool {
    event is TaskFinished && s.in_flight > 0
}

/// The state after a run of events.
pub open spec fn run(s: ConnectionState, events: Seq<ChannelEvent>) -> ConnectionState
    decreases events.len(),
{
    if events.len() == 0 {
        s
    } else {
        next_state(run(s, events.drop_last()), events.last())
    }
}

/// The handler tasks that a run of events starts.
pub open spec fn started(s: ConnectionState, events: Seq<ChannelEvent>) -> nat
    decreases events.len(),
{
    if events.len() == 0 {
        0
    } else {
        let before = started(s, events.drop_last());
        if spawned_by(run(s, events.drop_last()), events.last()) is Some {
            before + 1
        } else {
            before
        }
    }
}

/// The handler tasks whose end a run of events reports.
pub open spec fn finished(s: ConnectionState, events: Seq<ChannelEvent>) -> nat
    decreases events.len(),
{
    if events.len() == 0 {
        0
    } else {
        let before = finished(s, events.drop_last());
        if finishes_task(run(s, events.drop_last()), events.last()) {
            before + 1
        } else {
            before
        }
    }
}

/// The read half of an open connection: the permit pool and the life cycle
/// of the dispatch loop.
#[derive(Debug)]
pub struct ChannelConnectionHandle {
    max_concurrent: usize,
    in_flight: usize,
    holding: bool,
    phase: ConnectionPhase,
}

impl View for ChannelConnectionHandle {
    type V = ConnectionState;

    closed spec fn view(&self) -> ConnectionState {
        ConnectionState {
            limit: self.max_concurrent as nat,
            in_flight: self.in_flight as nat,
            holding: self.holding,
            phase: self.phase,
        }
    }
}

impl ChannelConnectionHandle {
    #[verifier::type_invariant]
    spec fn valid(self) -> bool {
        connection_wf(self@)
    }

    /// The connection that a successful handshake opens.
    pub(crate) fn open(max_concurrent: usize) -> (handle: Self)
        requires
            max_concurrent >= 1,
        ensures
            handle@ == opened_connection(max_concurrent as nat),
    {
        ChannelConnectionHandle {
            max_concurrent,
            in_flight: 0,
            holding: true,
            phase: ConnectionPhase::Open,
        }
    }

    /// The size of the permit pool.
    pub fn max_concurrent(&self) -> (limit: usize)
        ensures
            limit == self@.limit,
            limit >= 1,
    {
        proof {
            use_type_invariant(self);
        }
        self.max_concurrent
    }

    /// The handler tasks that were started and have not finished. Never more
    /// than the size of the permit pool.
    pub fn in_flight(&self) -> (running: usize)
        ensures
            running == self@.in_flight,
            running <= self@.limit,
    {
        proof {
            use_type_invariant(self);
        }
        self.in_flight
    }

    /// Where the connection stands in its life.
    pub fn phase(&self) -> (phase: ConnectionPhase)
        ensures
            phase == self@.phase,
    {
        self.phase
    }

    /// What the dispatch loop blocks on now. It reads a frame only while the
    /// dispatcher holds a permit, and returns only when no task runs.
    pub fn pending(&self) -> (wait: Wait)
        ensures
            wait == pending(self@),
            wait == Wait::Frame ==> self@.holding && self@.in_flight < self@.limit,
            wait == Wait::Nothing ==> self@.in_flight == 0,
    {
        proof {
            use_type_invariant(self);
        }
        match self.phase {
            ConnectionPhase::Open => if self.holding {
                Wait::Frame
            } else {
                Wait::Task
            },
            ConnectionPhase::Draining => Wait::Task,
            ConnectionPhase::Closed => Wait::Nothing,
        }
    }

    /// Takes one event of the dispatch loop and says what the loop does next.
    ///
    /// A text frame starts a handler task, which takes over the permit that
    /// was drawn for the read; the next permit is drawn at once where one is
    /// free, and otherwise as soon as a task finishes. A close frame, a
    /// failed read or the end of the stream end the reading; the loop then
    /// waits for the running tasks and returns after the last. A frame of
    /// another type changes nothing. An event that the loop was not waiting
    /// for changes nothing either, except that the end of a task always
    /// gives its permit back.
    pub fn handler(&mut self, event: ChannelEvent) -> (step: Step)
        ensures
            final(self)@ == next_state(old(self)@, event),
            step.spawn == spawned_by(old(self)@, event),
            step.wait == pending(final(self)@),
            step.spawn is Some ==> old(self)@.in_flight < old(self)@.limit,
            final(self)@.in_flight <= final(self)@.limit,
            final(self)@.limit == old(self)@.limit,
    {
        proof {
            use_type_invariant(&*self);
        }
        let reading = self.reading();
        let mut in_flight = self.in_flight;
        let mut holding = self.holding;
        let mut phase = self.phase;
        let mut spawn: Option<String> = None;
        match event {
            ChannelEvent::TaskFinished => {
                if in_flight > 0 {
                    match phase {
                        ConnectionPhase::Open => {
                            in_flight = in_flight - 1;
                            holding = true;
                        },
                        ConnectionPhase::Draining => {
                            in_flight = in_flight - 1;
                            if in_flight == 0 {
                                phase = ConnectionPhase::Closed;
                            }
                        },
                        ConnectionPhase::Closed => {},
                    }
                }
            },
            ChannelEvent::Frame(Frame::Text(text)) => {
                if reading {
                    in_flight = in_flight + 1;
                    holding = in_flight < self.max_concurrent;
                    spawn = Some(text);
                }
            },
            ChannelEvent::Frame(Frame::Other) => {},
            ChannelEvent::Frame(Frame::Close) | ChannelEvent::ReadFailed | ChannelEvent::StreamEnded => {
                if reading {
                    holding = false;
                    phase = if in_flight == 0 {
                        ConnectionPhase::Closed
                    } else {
                        ConnectionPhase::Draining
                    };
                }
            },
        }
        *self = ChannelConnectionHandle {
            max_concurrent: self.max_concurrent,
            in_flight,
            holding,
            phase,
        };
        Step { spawn, wait: self.pending() }
    }

    fn reading(&self) -> (reading: bool)
        ensures
            reading == (pending(self@) == Wait::Frame),
    {
        match self.phase {
            ConnectionPhase::Open => self.holding,
            _ => false,
        }
    }
}

/// Every event leaves a connection in one of the states it can be in.
pub proof fn lemma_step_keeps_wf(s: ConnectionState, event: ChannelEvent)
    requires
        connection_wf(s),
    ensures
        connection_wf(next_state(s, event)),
        next_state(s, event).limit == s.limit,
{
}

/// Whatever the events, no more handler tasks run at once on a connection
/// than its permit pool holds, and a task is started only while fewer run.
pub proof fn lemma_concurrency_bound(limit: nat, events: Seq<ChannelEvent>)
    requires
        limit >= 1,
    ensures
        connection_wf(run(opened_connection(limit), events)),
        run(opened_connection(limit), events).limit == limit,
        run(opened_connection(limit), events).in_flight <= limit,
        forall|event: ChannelEvent| #[trigger]
            spawned_by(run(opened_connection(limit), events), event) is Some ==> run(
                opened_connection(limit),
                events,
            ).in_flight < limit,
    decreases events.len(),
{
    if events.len() > 0 {
        lemma_concurrency_bound(limit, events.drop_last());
        lemma_step_keeps_wf(run(opened_connection(limit), events.drop_last()), events.last());
    }
}

/// The tasks that run are those that were started and have not finished.
pub proof fn lemma_in_flight_is_started_less_finished(limit: nat, events: Seq<ChannelEvent>)
    requires
        limit >= 1,
    ensures
        run(opened_connection(limit), events).in_flight + finished(
            opened_connection(limit),
            events,
        ) == started(opened_connection(limit), events),
    decreases events.len(),
{
    if events.len() > 0 {
        lemma_in_flight_is_started_less_finished(limit, events.drop_last());
        lemma_concurrency_bound(limit, events.drop_last());
    }
}

/// The dispatch loop returns only when every handler task that was started
/// has finished.
pub proof fn lemma_returns_after_all_tasks(limit: nat, events: Seq<ChannelEvent>)
    requires
        limit >= 1,
        pending(run(opened_connection(limit), events)) == Wait::Nothing,
    ensures
        run(opened_connection(limit), events).in_flight == 0,
        finished(opened_connection(limit), events) == started(opened_connection(limit), events),
{
    lemma_concurrency_bound(limit, events);
    lemma_in_flight_is_started_less_finished(limit, events);
}

/// The loop keeps reading until a close frame, a failed read or the end of
/// the stream: after any other event an open connection is still open.
pub proof fn lemma_only_the_end_of_reading_closes(s: ConnectionState, event: ChannelEvent)
    requires
        connection_wf(s),
        s.phase == ConnectionPhase::Open,
        next_state(s, event).phase != ConnectionPhase::Open,
    ensures
        pending(s) == Wait::Frame,
        event == ChannelEvent::Frame(Frame::Close) || event == ChannelEvent::ReadFailed || event
            == ChannelEvent::StreamEnded,
{
}

/// No event leaves the closed state, and none starts a task there.
pub proof fn lemma_closed_is_final(s: ConnectionState, event: ChannelEvent)
    requires
        connection_wf(s),
        s.phase == ConnectionPhase::Closed,
    ensures
        next_state(s, event) == s,
        spawned_by(s, event) is None,
{
}

/// A connection that drains reads no further frame and starts no further
/// task; it closes when the last task has finished.
pub proof fn lemma_draining_only_finishes(s: ConnectionState, event: ChannelEvent)
    requires
        connection_wf(s),
        s.phase == ConnectionPhase::Draining,
    ensures
        spawned_by(s, event) is None,
        next_state(s, event).phase != ConnectionPhase::Open,
        next_state(s, event).in_flight <= s.in_flight,
        next_state(s, event).phase == ConnectionPhase::Closed <==> (event is TaskFinished
            && s.in_flight == 1),
{
}

} // verus!
