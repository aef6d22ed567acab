use floodgate::ack::{ack_frame, AckWriter, WriterAction, WriterEvent};
use floodgate::api::{parse_event, TapIngestPayload};
use floodgate::task::EventTask;

const RECORD_42: &str = r#"{"type":"record","id":42,"record":{"live":true,"did":"did:plc:abc","rev":"3kabc","collection":"net.gifdex.feed.post","rkey":"3kabcdefghijk:bafy","action":"delete"}}"#;

#[test]
fn ack_frame_is_the_documented_text() {
    assert_eq!(ack_frame(42), r#"{"type":"ack","id":42}"#);
    assert_eq!(ack_frame(0), r#"{"type":"ack","id":0}"#);
    assert_eq!(ack_frame(7), r#"{"type":"ack","id":7}"#);
    assert_eq!(ack_frame(10), r#"{"type":"ack","id":10}"#);
    assert_eq!(
        ack_frame(u64::MAX),
        r#"{"type":"ack","id":18446744073709551615}"#
    );
}

#[test]
fn ack_frame_is_json_with_a_tag_and_the_identifier() {
    for id in [0u64, 1, 9, 10, 99, 100, 12345, u64::MAX] {
        let value: serde_json::Value = serde_json::from_str(&ack_frame(id)).unwrap();
        let object = value.as_object().unwrap();
        assert_eq!(object.len(), 2);
        assert_eq!(object.get("type").and_then(|tag| tag.as_str()), Some("ack"));
        assert_eq!(object.get("id").and_then(|id| id.as_u64()), Some(id));
    }
}

#[test]
fn writer_turns_requests_into_frames() {
    let mut writer = AckWriter::new();
    assert!(!writer.is_stopped());
    match writer.step(WriterEvent::Request(5)) {
        WriterAction::Send(frame) => assert_eq!(frame, r#"{"type":"ack","id":5}"#),
        other => panic!("{:?}", other),
    }
    assert!(matches!(writer.step(WriterEvent::Sent), WriterAction::Receive));
    match writer.step(WriterEvent::Request(6)) {
        WriterAction::Send(frame) => assert_eq!(frame, r#"{"type":"ack","id":6}"#),
        other => panic!("{:?}", other),
    }
    assert!(!writer.is_stopped());
}

#[test]
fn writer_stops_for_good_when_a_send_fails() {
    let mut writer = AckWriter::new();
    assert!(matches!(writer.step(WriterEvent::Request(1)), WriterAction::Send(_)));
    assert!(matches!(writer.step(WriterEvent::SendFailed), WriterAction::Stop));
    assert!(writer.is_stopped());
    for event in [
        WriterEvent::Request(2),
        WriterEvent::Sent,
        WriterEvent::SendFailed,
        WriterEvent::SourceClosed,
    ] {
        assert!(matches!(writer.step(event), WriterAction::Stop));
        assert!(writer.is_stopped());
    }
}

#[test]
fn writer_stops_when_the_requests_end() {
    let mut writer = AckWriter::new();
    assert!(matches!(writer.step(WriterEvent::SourceClosed), WriterAction::Stop));
    assert!(matches!(writer.step(WriterEvent::Request(3)), WriterAction::Stop));
}

#[test]
fn a_handled_event_is_acknowledged_with_its_identifier() {
    let task = EventTask::begin(RECORD_42);
    assert!(task.payload().is_some());
    assert_eq!(task.finish(true), Some(42));
}

#[test]
fn a_failed_handler_leaves_event_42_without_acknowledgment() {
    let task = EventTask::begin(RECORD_42);
    assert!(matches!(
        task.payload(),
        Some(TapIngestPayload::Record { id: 42, .. })
    ));
    let ack = task.finish(false);
    assert_eq!(ack, None);

    // Nothing is handed to the writer, so nothing reaches the wire.
    let mut writer = AckWriter::new();
    let mut wire: Vec<String> = Vec::new();
    for id in ack {
        if let WriterAction::Send(frame) = writer.step(WriterEvent::Request(id)) {
            wire.push(frame);
        }
    }
    assert!(!wire.contains(&String::from(r#"{"type":"ack","id":42}"#)));
    assert!(wire.is_empty());
}

#[test]
fn a_frame_that_is_no_event_reaches_no_handler_and_no_acknowledgment() {
    for text in [
        "",
        "not json",
        "[]",
        "42",
        "{}",
        r#"{"type":"record"}"#,
        r#"{"type":"record","id":1}"#,
        r#"{"type":"record","id":1,"record":{}}"#,
        r#"{"type":"unknown","id":1,"record":{}}"#,
        r#"{"type":"identity","id":1,"identity":{"did":"did:plc:abc"}}"#,
        r#"{"type":"record","id":42,"record":{"live":true,"did":"did:plc:abc","collection":"c","rkey":"k","action":"delete"}} trailing"#,
    ] {
        assert!(parse_event(text).is_none(), "{}", text);
        let task = EventTask::begin(text);
        assert!(task.payload().is_none(), "{}", text);
        assert_eq!(task.finish(true), None, "{}", text);
        assert_eq!(EventTask::begin(text).finish(false), None, "{}", text);
    }
}

#[test]
fn a_task_without_an_event_is_never_acknowledged() {
    assert_eq!(EventTask::of(None).finish(true), None);
    assert_eq!(EventTask::of(None).finish(false), None);
    assert_eq!(EventTask::of(parse_event(RECORD_42)).finish(true), Some(42));
}

#[test]
fn acknowledgments_may_leave_in_another_order_than_events_arrived() {
    let first = EventTask::begin(RECORD_42);
    let second = EventTask::begin(
        r#"{"type":"identity","id":43,"identity":{"did":"did:plc:abc","handle":"a.example","is_active":true,"status":"active"}}"#,
    );
    let mut writer = AckWriter::new();
    let mut wire: Vec<String> = Vec::new();
    for id in [second.finish(true), first.finish(true)].into_iter().flatten() {
        if let WriterAction::Send(frame) = writer.step(WriterEvent::Request(id)) {
            wire.push(frame);
            writer.step(WriterEvent::Sent);
        }
    }
    assert_eq!(wire, vec![ack_frame(43), ack_frame(42)]);
}
