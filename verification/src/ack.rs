//! Acknowledgments: their frame, and the writer that sends them.

use crate::decimal::{decimal, lemma_decimal_injective, render_decimal};
use vstd::prelude::*;
use vstd::string::StringExecFns;

verus! {

/// The text frame that acknowledges the event with the given identifier:
/// `{"type":"ack","id":` then the identifier in decimal notation, then `}`.
pub open spec fn ack_frame_of(id: u64) -> Seq<char> {
    "{\"type\":\"ack\",\"id\":"@ + decimal(id as nat) + "}"@
}

/// The text frame that acknowledges the event with the given identifier.
pub fn ack_frame(id: u64) -> (frame: String)
    ensures
        frame@ == ack_frame_of(id),
{
    let mut frame = String::from_str("{\"type\":\"ack\",\"id\":");
    let number = render_decimal(id);
    frame.append(number.as_str());
    frame.append("}");
    frame
}

/// The frames of two identifiers are the same only where the identifiers are.
pub proof fn lemma_ack_frame_injective(a: u64, b: u64)
    requires
        ack_frame_of(a) == ack_frame_of(b),
    ensures
        a == b,
{
    let head = "{\"type\":\"ack\",\"id\":"@;
    let tail = "}"@;
    let da = decimal(a as nat);
    let db = decimal(b as nat);
    let fa = head + da + tail;
    let fb = head + db + tail;
    assert(fa.len() == head.len() + da.len() + tail.len());
    assert(fb.len() == head.len() + db.len() + tail.len());
    assert(da.len() == db.len());
    assert forall|i: int| 0 <= i < da.len() implies da[i] == db[i] by {
        assert(fa[head.len() + i] == da[i]);
        assert(fb[head.len() + i] == db[i]);
    }
    assert(da =~= db);
    lemma_decimal_injective(a as nat, b as nat);
}

/// What the loop around the writer reports.
#[derive(Debug, Clone, Copy)]
pub enum WriterEvent {
    /// A handler asks for the acknowledgment of an event.
    Request(u64),
    /// No handler can ask any more.
    SourceClosed,
    /// The last frame was sent.
    Sent,
    /// The last frame could not be sent.
    SendFailed,
}

/// What the loop around the writer does next.
#[derive(Debug)]
pub enum WriterAction {
    /// Wait for the next request.
    Receive,
    /// Send this text frame.
    Send(String),
    /// Return: nothing is sent on this connection any more.
    Stop,
}

/// Whether the writer has stopped after an event.
pub open spec fn writer_stopped_after(stopped: bool, event: WriterEvent) -> bool {
    stopped || event is SourceClosed || event is SendFailed
}

/// The frame that the writer sends on an event.
pub open spec fn frame_sent_on(stopped: bool, event: WriterEvent) -> Option<Seq<char>> {
    match event {
        WriterEvent::Request(id) if !stopped => Some(ack_frame_of(id)),
        _ => None,
    }
}

/// Whether the writer has stopped after a run of events.
pub open spec fn writer_stopped_after_all(stopped: bool, events: Seq<WriterEvent>) -> bool
    decreases events.len(),
{
    if events.len() == 0 {
        stopped
    } else {
        writer_stopped_after(writer_stopped_after_all(stopped, events.drop_last()), events.last())
    }
}

/// The frames that the writer sends over a run of events, in order.
pub open spec fn wire(stopped: bool, events: Seq<WriterEvent>) -> Seq<Seq<char>>
    decreases events.len(),
{
    if events.len() == 0 {
        Seq::empty()
    } else {
        let before = wire(stopped, events.drop_last());
        match frame_sent_on(writer_stopped_after_all(stopped, events.drop_last()), events.last()) {
            Some(frame) => before.push(frame),
            None => before,
        }
    }
}

/// Whether a run of events asks for the acknowledgment of an event.
pub open spec fn requests(events: Seq<WriterEvent>, id: u64) -> bool {
    exists|i: int| 0 <= i < events.len() && events[i] == WriterEvent::Request(id)
}

/// The write half of a connection: it turns requests into frames until the
/// requests end or a send fails.
#[derive(Debug)]
pub struct AckWriter {
    stopped: bool,
}

impl View for AckWriter {
    type V = bool;

    /// Whether the writer has stopped.
    closed spec fn view(&self) -> bool {
        self.stopped
    }
}

impl AckWriter {
    /// The writer of a new connection.
    pub fn new() -> (writer: Self)
        ensures
            !writer@,
    {
        AckWriter { stopped: false }
    }

    /// Whether the writer has stopped.
    pub fn is_stopped(&self) -> (stopped: bool)
        ensures
            stopped == self@,
    {
        self.stopped
    }

    /// Takes one event of the writer's loop and says what the loop does
    /// next. A request is answered with its frame. The end of the requests
    /// and a failed send stop the writer for good.
    pub fn step(&mut self, event: WriterEvent) -> (action: WriterAction)
        ensures
            final(self)@ == writer_stopped_after(old(self)@, event),
            match action {
                WriterAction::Stop => final(self)@,
                WriterAction::Send(frame) => !final(self)@ && frame_sent_on(old(self)@, event)
                    == Some(frame@),
                WriterAction::Receive => !final(self)@ && frame_sent_on(old(self)@, event) is None,
            },
    {
        if self.stopped {
            return WriterAction::Stop;
        }
        match event {
            WriterEvent::Request(id) => WriterAction::Send(ack_frame(id)),
            WriterEvent::Sent => WriterAction::Receive,
            WriterEvent::SourceClosed | WriterEvent::SendFailed => {
                self.stopped = true;
                WriterAction::Stop
            },
        }
    }
}

/// Once stopped, the writer stays stopped and sends nothing.
pub proof fn lemma_stopped_writer_is_silent(events: Seq<WriterEvent>)
    ensures
        writer_stopped_after_all(true, events),
        wire(true, events) == Seq::<Seq<char>>::empty(),
    decreases events.len(),
{
    if events.len() > 0 {
        lemma_stopped_writer_is_silent(events.drop_last());
    }
}

/// Every frame on the wire acknowledges an event that was asked for.
pub proof fn lemma_wire_holds_requested_frames(events: Seq<WriterEvent>, i: int)
    requires
        0 <= i < wire(false, events).len(),
    ensures
        exists|id: u64| requests(events, id) && wire(false, events)[i] == ack_frame_of(id),
    decreases events.len(),
{
    let before = wire(false, events.drop_last());
    let stopped = writer_stopped_after_all(false, events.drop_last());
    if i < before.len() {
        lemma_wire_holds_requested_frames(events.drop_last(), i);
        let id = choose|id: u64|
            requests(events.drop_last(), id) && before[i] == ack_frame_of(id);
        let k = choose|k: int|
            0 <= k < events.drop_last().len() && events.drop_last()[k] == WriterEvent::Request(id);
        assert(events[k] == WriterEvent::Request(id));
        assert(requests(events, id));
        assert(wire(false, events)[i] == before[i]);
    } else {
        match events.last() {
            WriterEvent::Request(id) => {
                assert(events[events.len() - 1] == WriterEvent::Request(id));
                assert(requests(events, id));
                assert(wire(false, events)[i] == ack_frame_of(id));
            },
            _ => {},
        }
    }
}

/// No frame on the wire acknowledges an event that was not asked for.
pub proof fn lemma_no_frame_without_request(events: Seq<WriterEvent>, id: u64)
    requires
        !requests(events, id),
    ensures
        !wire(false, events).contains(ack_frame_of(id)),
{
    if wire(false, events).contains(ack_frame_of(id)) {
        let i = choose|i: int|
            0 <= i < wire(false, events).len() && wire(false, events)[i] == ack_frame_of(id);
        lemma_wire_holds_requested_frames(events, i);
        let other = choose|other: u64|
            requests(events, other) && wire(false, events)[i] == ack_frame_of(other);
        lemma_ack_frame_injective(id, other);
    }
}

/// While the writer runs, a request puts its frame on the wire.
pub proof fn lemma_running_writer_sends(events: Seq<WriterEvent>, id: u64)
    requires
        !writer_stopped_after_all(false, events),
    ensures
        wire(false, events.push(WriterEvent::Request(id))) == wire(false, events).push(
            ack_frame_of(id),
        ),
{
    assert(events.push(WriterEvent::Request(id)).drop_last() =~= events);
}

/// Whether a run of events holds only requests and reports of frames sent.
pub open spec fn undisturbed(events: Seq<WriterEvent>) -> bool {
    forall|i: int|
        0 <= i < events.len() ==> (#[trigger] events[i]) is Request || events[i] is Sent
}

/// A writer that meets no failed send and no end of requests keeps running.
pub proof fn lemma_undisturbed_writer_runs(events: Seq<WriterEvent>)
    requires
        undisturbed(events),
    ensures
        !writer_stopped_after_all(false, events),
    decreases events.len(),
{
    if events.len() > 0 {
        assert(events.last() == events[events.len() - 1]);
        assert forall|i: int| 0 <= i < events.drop_last().len() implies (
        #[trigger] events.drop_last()[i]) is Request || events.drop_last()[i] is Sent by {
            assert(events.drop_last()[i] == events[i]);
        }
        lemma_undisturbed_writer_runs(events.drop_last());
    }
}

/// A writer that keeps running puts the frame of every request on the wire.
pub proof fn lemma_every_request_reaches_the_wire(events: Seq<WriterEvent>, id: u64)
    requires
        undisturbed(events),
        requests(events, id),
    ensures
        wire(false, events).contains(ack_frame_of(id)),
    decreases events.len(),
{
    let k = choose|k: int| 0 <= k < events.len() && events[k] == WriterEvent::Request(id);
    let before = events.drop_last();
    assert forall|i: int| 0 <= i < before.len() implies (#[trigger] before[i]) is Request
        || before[i] is Sent by {
        assert(before[i] == events[i]);
    }
    lemma_undisturbed_writer_runs(before);
    if k == events.len() - 1 {
        let sent = wire(false, events);
        assert(sent == wire(false, before).push(ack_frame_of(id)));
        assert(sent[sent.len() - 1] == ack_frame_of(id));
    } else {
        assert(before[k] == WriterEvent::Request(id));
        lemma_every_request_reaches_the_wire(before, id);
        let earlier = wire(false, before);
        let at = choose|at: int| 0 <= at < earlier.len() && earlier[at] == ack_frame_of(id);
        assert(wire(false, events)[at] == ack_frame_of(id));
    }
}

} // verus!
