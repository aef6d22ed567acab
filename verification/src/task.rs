//! The work that one text frame starts: read the event, hand it to the
//! handler, and acknowledge it where the handler succeeded.

use crate::ack::{
    ack_frame_of, lemma_every_request_reaches_the_wire, lemma_no_frame_without_request, requests,
    undisturbed, wire, WriterEvent,
};
use crate::api::{event_matches, is_event_text, parse_event, TapIngestPayload};
use vstd::prelude::*;

verus! {

/// The identifier to acknowledge once the handler of an event has returned:
/// the event's, where the text framed an event and the handler succeeded.
pub open spec fn acknowledgment_of(event: Option<TapIngestPayload>, handler_succeeded: bool)
    -> Option<u64> {
    match event {
        Some(event) if handler_succeeded => Some(event.spec_id()),
        _ => None,
    }
}

/// One handler task.
#[derive(Debug)]
pub struct EventTask {
    event: Option<TapIngestPayload>,
}

impl EventTask {
    /// The event of the task, `None` where the frame held none.
    pub closed spec fn event(self) -> Option<TapIngestPayload> {
        self.event
    }

    /// Starts the task of a text frame: reads the event.
    pub fn begin(text: &str) -> (task: Self)
        ensures
            task.event() is Some <==> is_event_text(text@),
            task.event() matches Some(event) ==> event_matches(event, text@),
    {
        EventTask { event: parse_event(text) }
    }

    /// The task of an event that was read elsewhere, or of none.
    pub fn of(event: Option<TapIngestPayload>) -> (task: Self)
        ensures
            task.event() == event,
    {
        EventTask { event }
    }

    /// What the handler is invoked with. `None` where the frame held no
    /// event: the handler is then not invoked.
    pub fn payload(&self) -> (payload: Option<&TapIngestPayload>)
        ensures
            payload is Some <==> self.event() is Some,
            payload matches Some(event) ==> Some(*event) == self.event(),
    {
        self.event.as_ref()
    }

    /// Ends the task and says which identifier to hand to the writer of
    /// acknowledgments: the event's where the handler succeeded, none where
    /// the handler failed or was not invoked.
    pub fn finish(self, handler_succeeded: bool) -> (ack: Option<u64>)
        ensures
            ack == acknowledgment_of(self.event(), handler_succeeded),
            ack is Some <==> (self.event() is Some && handler_succeeded),
    {
        match self.event {
            Some(event) => if handler_succeeded {
                Some(event.id())
            } else {
                None
            },
            None => None,
        }
    }
}

/// An event is acknowledged exactly where its handler succeeded, and with
/// its own identifier.
pub proof fn lemma_acknowledged_iff_handled(event: TapIngestPayload, handler_succeeded: bool)
    ensures
        acknowledgment_of(Some(event), handler_succeeded) is Some <==> handler_succeeded,
        handler_succeeded ==> acknowledgment_of(Some(event), handler_succeeded) == Some(
            event.spec_id(),
        ),
{
}

/// A frame that holds no event is never acknowledged, whatever is reported
/// of a handler.
pub proof fn lemma_unparsed_is_never_acknowledged(handler_succeeded: bool)
    ensures
        acknowledgment_of(None, handler_succeeded) is None,
{
}

/// How one handler task ended: the event it read, if any, and whether the
/// handler succeeded.
pub struct Outcome {
    pub event: Option<TapIngestPayload>,
    pub handler_succeeded: bool,
}

/// What the writer of acknowledgments is asked over a run of handler tasks,
/// in the order in which the tasks end.
pub open spec fn requests_of(outcomes: Seq<Outcome>) -> Seq<WriterEvent>
    decreases outcomes.len(),
{
    if outcomes.len() == 0 {
        Seq::empty()
    } else {
        let before = requests_of(outcomes.drop_last());
        match acknowledgment_of(outcomes.last().event, outcomes.last().handler_succeeded) {
            Some(id) => before.push(WriterEvent::Request(id)),
            None => before,
        }
    }
}

/// Whether a task read the event with the given identifier and saw its
/// handler succeed.
pub open spec fn succeeded_with(outcome: Outcome, id: u64) -> bool {
    outcome.handler_succeeded && outcome.event is Some && outcome.event->0.spec_id() == id
}

/// Whether some task of a run read the event with the given identifier and
/// saw its handler succeed.
pub open spec fn succeeded_for(outcomes: Seq<Outcome>, id: u64) -> bool {
    exists|i: int| 0 <= i < outcomes.len() && succeeded_with(#[trigger] outcomes[i], id)
}

/// The writer is asked for the acknowledgment of an event exactly where a
/// task read that event and saw its handler succeed.
pub proof fn lemma_requested_iff_succeeded(outcomes: Seq<Outcome>, id: u64)
    ensures
        requests(requests_of(outcomes), id) <==> succeeded_for(outcomes, id),
        undisturbed(requests_of(outcomes)),
    decreases outcomes.len(),
{
    if outcomes.len() > 0 {
        let before = outcomes.drop_last();
        let last = outcomes.last();
        lemma_requested_iff_succeeded(before, id);
        let asked = requests_of(outcomes);
        let asked_before = requests_of(before);
        match acknowledgment_of(last.event, last.handler_succeeded) {
            Some(acked) => {
                assert(asked == asked_before.push(WriterEvent::Request(acked)));
                assert forall|i: int| 0 <= i < asked.len() implies (#[trigger] asked[i]) is Request
                    || asked[i] is Sent by {
                    if i < asked_before.len() {
                        assert(asked[i] == asked_before[i]);
                    }
                }
            },
            None => {},
        }
        if requests(asked, id) {
            let k = choose|k: int| 0 <= k < asked.len() && asked[k] == WriterEvent::Request(id);
            if k < asked_before.len() {
                assert(asked_before[k] == WriterEvent::Request(id));
                assert(requests(asked_before, id));
                let i = choose|i: int|
                    0 <= i < before.len() && succeeded_with(#[trigger] before[i], id);
                assert(outcomes[i] == before[i]);
            } else {
                assert(outcomes[outcomes.len() - 1] == last);
            }
            assert(succeeded_for(outcomes, id));
        }
        if succeeded_for(outcomes, id) {
            let i = choose|i: int|
                0 <= i < outcomes.len() && succeeded_with(#[trigger] outcomes[i], id);
            if i < before.len() {
                assert(before[i] == outcomes[i]);
                assert(succeeded_for(before, id));
                let k = choose|k: int|
                    0 <= k < asked_before.len() && asked_before[k] == WriterEvent::Request(id);
                assert(asked[k] == WriterEvent::Request(id));
            } else {
                assert(asked[asked.len() - 1] == WriterEvent::Request(id));
            }
            assert(requests(asked, id));
        }
    }
}

/// While no send fails, the acknowledgment of an event is on the wire
/// exactly where a task read that event and saw its handler succeed.
pub proof fn lemma_on_the_wire_iff_succeeded(outcomes: Seq<Outcome>, id: u64)
    ensures
        wire(false, requests_of(outcomes)).contains(ack_frame_of(id)) <==> succeeded_for(
            outcomes,
            id,
        ),
{
    lemma_requested_iff_succeeded(outcomes, id);
    if succeeded_for(outcomes, id) {
        lemma_every_request_reaches_the_wire(requests_of(outcomes), id);
    } else {
        lemma_no_frame_without_request(requests_of(outcomes), id);
    }
}

/// Whatever becomes of the sends, no acknowledgment is on the wire for an
/// event whose handler did not succeed: the writer is never asked for it.
pub proof fn lemma_never_acknowledged_without_success(outcomes: Seq<Outcome>, id: u64)
    requires
        !succeeded_for(outcomes, id),
    ensures
        !requests(requests_of(outcomes), id),
        !wire(false, requests_of(outcomes)).contains(ack_frame_of(id)),
{
    lemma_requested_iff_succeeded(outcomes, id);
    lemma_no_frame_without_request(requests_of(outcomes), id);
}

} // verus!
