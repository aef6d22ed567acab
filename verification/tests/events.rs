use floodgate::api::{
    assemble_event, decode_action, decode_identity, decode_record, event_kind, flag_member,
    member, number_member, object_member, object_members, parse_event, text_member, EventKind,
    JsonValue, Member, RecordAction, TapIngestPayload,
};

fn members(text: &str) -> Vec<Member> {
    object_members(text).expect("a JSON object")
}

#[test]
fn object_members_reads_each_kind_of_value() {
    let found = members(r#"{"b":true,"n":17,"s":"text","o":{"k":[1,2]},"a":[1],"z":null,"f":1.5,"m":-3}"#);
    assert_eq!(found.len(), 8);
    assert!(matches!(member(&found, "b"), Some(JsonValue::Bool(true))));
    assert!(matches!(member(&found, "n"), Some(JsonValue::Number(n)) if n == "17"));
    assert!(matches!(member(&found, "s"), Some(JsonValue::Text(s)) if s == "text"));
    assert!(matches!(member(&found, "o"), Some(JsonValue::Object(o)) if o == r#"{"k":[1,2]}"#));
    assert!(matches!(member(&found, "a"), Some(JsonValue::Other(a)) if a == "[1]"));
    assert!(matches!(member(&found, "z"), Some(JsonValue::Other(z)) if z == "null"));
    assert!(matches!(member(&found, "f"), Some(JsonValue::Number(f)) if f == "1.5"));
    assert!(matches!(member(&found, "m"), Some(JsonValue::Number(m)) if m == "-3"));
    assert!(member(&found, "missing").is_none());
}

#[test]
fn object_members_refuses_what_is_no_object() {
    for text in ["", "null", "true", "1", "\"text\"", "[]", "{", "{\"a\":1,}", "{} {}"] {
        assert!(object_members(text).is_none(), "{}", text);
    }
    assert_eq!(members("{}").len(), 0);
    assert_eq!(members("  { \"a\" : 1 }  ").len(), 1);
}

#[test]
fn typed_members_take_only_their_own_kind() {
    let found = members(r#"{"flag":false,"count":18446744073709551615,"name":"n","body":{},"big":18446744073709551616,"neg":-1,"frac":2.0}"#);
    assert_eq!(flag_member(&found, "flag"), Some(false));
    assert_eq!(flag_member(&found, "name"), None);
    assert_eq!(number_member(&found, "count"), Some(u64::MAX));
    assert_eq!(number_member(&found, "big"), None);
    assert_eq!(number_member(&found, "neg"), None);
    assert_eq!(number_member(&found, "frac"), None);
    assert_eq!(number_member(&found, "name"), None);
    assert_eq!(text_member(&found, "name"), Some(String::from("n")));
    assert_eq!(text_member(&found, "count"), None);
    assert_eq!(object_member(&found, "body"), Some(String::from("{}")));
    assert_eq!(object_member(&found, "name"), None);
    assert_eq!(text_member(&found, "absent"), None);
}

#[test]
fn identity_event_is_read() {
    let event = parse_event(
        r#"{"id":7,"type":"identity","identity":{"did":"did:plc:abc","handle":"alice.example","is_active":false,"status":"takendown","extra":1}}"#,
    )
    .unwrap();
    assert_eq!(event.id(), 7);
    match event {
        TapIngestPayload::Identity { id, identity } => {
            assert_eq!(id, 7);
            assert_eq!(identity.did, "did:plc:abc");
            assert_eq!(identity.handle, "alice.example");
            assert!(!identity.is_active);
            assert_eq!(identity.status, "takendown");
        }
        other => panic!("{:?}", other),
    }
}

#[test]
fn create_event_is_read_with_its_record() {
    let event = parse_event(
        r#"{"type":"record","id":9,"record":{"live":true,"did":"did:plc:abc","rev":"3kabc","collection":"net.gifdex.feed.post","rkey":"key","action":"create","cid":"bafy","record":{"title":"t","n":[1, 2]}}}"#,
    )
    .unwrap();
    match event {
        TapIngestPayload::Record { id, record } => {
            assert_eq!(id, 9);
            assert!(record.live);
            assert_eq!(record.did, "did:plc:abc");
            assert_eq!(record.rev, Some(String::from("3kabc")));
            assert_eq!(record.collection, "net.gifdex.feed.post");
            assert_eq!(record.rkey, "key");
            match record.action {
                RecordAction::Create { record, cid } => {
                    assert_eq!(cid, Some(String::from("bafy")));
                    let read: serde_json::Value = serde_json::from_str(&record).unwrap();
                    let expected: serde_json::Value =
                        serde_json::from_str(r#"{"title":"t","n":[1,2]}"#).unwrap();
                    assert_eq!(read, expected);
                }
                other => panic!("{:?}", other),
            }
        }
        other => panic!("{:?}", other),
    }
}

#[test]
fn update_and_delete_events_are_read() {
    let update = parse_event(
        r#"{"type":"record","id":1,"record":{"live":false,"did":"d","collection":"c","rkey":"k","action":"update","record":{}}}"#,
    )
    .unwrap();
    match update {
        TapIngestPayload::Record { record, .. } => {
            assert!(!record.live);
            assert_eq!(record.rev, None);
            assert!(matches!(
                record.action,
                RecordAction::Update { record, cid: None } if record == "{}"
            ));
        }
        other => panic!("{:?}", other),
    }
    let delete = parse_event(
        r#"{"type":"record","id":2,"record":{"live":true,"did":"d","collection":"c","rkey":"k","action":"delete"}}"#,
    )
    .unwrap();
    assert!(matches!(
        delete,
        TapIngestPayload::Record { id: 2, record } if matches!(record.action, RecordAction::Delete)
    ));
}

#[test]
fn a_record_event_needs_each_member_of_its_shape() {
    let full = r#"{"live":true,"did":"d","collection":"c","rkey":"k","action":"delete"}"#;
    assert!(decode_record(&members(full)).is_some());
    for missing in [
        r#"{"did":"d","collection":"c","rkey":"k","action":"delete"}"#,
        r#"{"live":true,"collection":"c","rkey":"k","action":"delete"}"#,
        r#"{"live":true,"did":"d","rkey":"k","action":"delete"}"#,
        r#"{"live":true,"did":"d","collection":"c","action":"delete"}"#,
        r#"{"live":true,"did":"d","collection":"c","rkey":"k"}"#,
        r#"{"live":"yes","did":"d","collection":"c","rkey":"k","action":"delete"}"#,
        r#"{"live":true,"did":1,"collection":"c","rkey":"k","action":"delete"}"#,
        r#"{"live":true,"did":"d","collection":"c","rkey":"k","action":"remove"}"#,
        r#"{"live":true,"did":"d","collection":"c","rkey":"k","action":"create"}"#,
        r#"{"live":true,"did":"d","collection":"c","rkey":"k","action":"update","record":"text"}"#,
        r#"{"live":true,"did":"d","collection":"c","rkey":"k","action":"create","record":[1]}"#,
    ] {
        assert!(decode_record(&members(missing)).is_none(), "{}", missing);
    }
}

#[test]
fn an_action_is_named_in_lower_case() {
    assert!(matches!(
        decode_action(&members(r#"{"action":"delete"}"#)),
        Some(RecordAction::Delete)
    ));
    assert!(decode_action(&members(r#"{"action":"Delete"}"#)).is_none());
    assert!(decode_action(&members(r#"{"action":"DELETE"}"#)).is_none());
    assert!(decode_action(&members(r#"{}"#)).is_none());
}

#[test]
fn an_identity_needs_each_member_of_its_shape() {
    let full = r#"{"did":"d","handle":"h","is_active":true,"status":"active"}"#;
    assert!(decode_identity(&members(full)).is_some());
    for missing in [
        r#"{"handle":"h","is_active":true,"status":"active"}"#,
        r#"{"did":"d","is_active":true,"status":"active"}"#,
        r#"{"did":"d","handle":"h","status":"active"}"#,
        r#"{"did":"d","handle":"h","is_active":true}"#,
        r#"{"did":"d","handle":"h","is_active":1,"status":"active"}"#,
        r#"{"did":"d","handle":null,"is_active":true,"status":"active"}"#,
    ] {
        assert!(decode_identity(&members(missing)).is_none(), "{}", missing);
    }
}

#[test]
fn the_kind_of_an_event_is_its_type_member() {
    assert!(matches!(event_kind(&members(r#"{"type":"record"}"#)), Some(EventKind::Record)));
    assert!(matches!(
        event_kind(&members(r#"{"type":"identity"}"#)),
        Some(EventKind::Identity)
    ));
    assert!(event_kind(&members(r#"{"type":"Record"}"#)).is_none());
    assert!(event_kind(&members(r#"{"type":7}"#)).is_none());
    assert!(event_kind(&members(r#"{}"#)).is_none());
}

#[test]
fn an_event_needs_a_numeric_identifier() {
    let body = members(r#"{"did":"d","handle":"h","is_active":true,"status":"active"}"#);
    assert!(assemble_event(&members(r#"{"type":"identity","id":3}"#), &body).is_some());
    for envelope in [
        r#"{"type":"identity"}"#,
        r#"{"type":"identity","id":"3"}"#,
        r#"{"type":"identity","id":-3}"#,
        r#"{"type":"identity","id":3.5}"#,
        r#"{"type":"identity","id":18446744073709551616}"#,
        r#"{"type":"record","id":3}"#,
        r#"{"id":3}"#,
    ] {
        assert!(assemble_event(&members(envelope), &body).is_none(), "{}", envelope);
    }
}

#[test]
fn the_largest_identifier_is_read() {
    let event = parse_event(
        r#"{"type":"identity","id":18446744073709551615,"identity":{"did":"d","handle":"h","is_active":true,"status":"s"}}"#,
    )
    .unwrap();
    assert_eq!(event.id(), u64::MAX);
}
