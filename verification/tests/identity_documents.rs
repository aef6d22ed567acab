use floodgate::client::{TapRequestError, TapResponse};
use floodgate::gateway::{resolve, Resolution};
use floodgate::ident::{did_is_valid, tid_is_valid};
use floodgate::identity::{document_host, read_did_document};

const DOCUMENT: &str = r##"{
  "@context": ["https://www.w3.org/ns/did/v1"],
  "id": "did:plc:alice",
  "alsoKnownAs": ["at://alice.example"],
  "service": [
    {"id": "#other", "type": "SomethingElse", "serviceEndpoint": "https://else.example"},
    {"id": "#atproto_pds", "type": "AtprotoPersonalDataServer", "serviceEndpoint": "https://pds.example:8443"}
  ]
}"##;

fn answer(body: &str) -> TapResponse {
    TapResponse { status: 200, body: body.as_bytes().to_vec() }
}

#[test]
fn an_identity_document_names_its_account_and_repository_host() {
    let document = read_did_document(&answer(DOCUMENT)).unwrap();
    assert_eq!(document.id, "did:plc:alice");
    assert_eq!(document.pds_endpoint, Some(String::from("https://pds.example:8443")));
    let host = document_host(&document).unwrap();
    assert_eq!(host.as_str(), "https://pds.example:8443/");
    assert_eq!(host.host(), &Some(String::from("pds.example")));
}

#[test]
fn an_identity_document_may_name_no_repository_host() {
    let document = read_did_document(&answer(r#"{"id":"did:plc:alice"}"#)).unwrap();
    assert_eq!(document.pds_endpoint, None);
    assert!(document_host(&document).is_none());
    let elsewhere = read_did_document(&answer(
        r##"{"id":"did:plc:alice","service":[{"id":"#x","type":"Other","serviceEndpoint":"https://x.example"}]}"##,
    ))
    .unwrap();
    assert_eq!(elsewhere.pds_endpoint, None);
}

#[test]
fn a_body_that_is_no_identity_document_is_an_invalid_body() {
    for body in ["", "not json", "[]", "{}", r#"{"id":"not a did"}"#, r#"{"id":7}"#] {
        match read_did_document(&answer(body)) {
            Err(TapRequestError::InvalidResponseBody(reason)) => assert!(!reason.is_empty()),
            other => panic!("{:?} gave {:?}", body, other),
        }
    }
}

#[test]
fn a_resolution_is_sorted_by_what_the_document_names() {
    assert!(matches!(
        resolve(read_did_document(&answer(DOCUMENT))),
        Resolution::Host(host) if host.as_str() == "https://pds.example:8443/"
    ));
    assert!(matches!(
        resolve(read_did_document(&answer(r#"{"id":"did:plc:alice"}"#))),
        Resolution::NoHost
    ));
    assert!(matches!(resolve(read_did_document(&answer("nonsense"))), Resolution::Failed));
    assert!(matches!(
        resolve(Err(TapRequestError::NetworkError(String::from("down")))),
        Resolution::Failed
    ));
}

#[test]
fn account_identifiers_are_those_of_the_protocol_library() {
    for text in [
        "did:plc:z72i7hdynmk6r22z27h6tvur",
        "did:web:example.com",
        "did:web:localhost%3A1234",
        "did:a:b",
        "did:method:val:two",
        "did:plc:abc:",
        "did:plc:abc%",
        "did:plc:",
        "did:PLC:abc",
        "did::abc",
        "did:plc:a b",
        "did:plc:a/b",
        "DID:plc:abc",
        "did:plc:abc\n",
        "at://did:plc:abc",
        "did:pl-c:abc",
        "did:plc:é",
        "",
    ] {
        assert_eq!(
            did_is_valid(text),
            jacquard_common::types::did::validate_did(text).is_ok(),
            "{:?}",
            text
        );
    }
    let longest = format!("did:plc:{}", "a".repeat(2040));
    assert!(jacquard_common::types::did::validate_did(&longest).is_ok());
    assert!(did_is_valid(&longest));
    let too_long = format!("did:plc:{}", "a".repeat(2041));
    assert!(jacquard_common::types::did::validate_did(&too_long).is_err());
    assert!(!did_is_valid(&too_long));
}

#[test]
fn timestamp_identifiers_are_those_of_the_protocol_library() {
    for text in [
        "3jzfcijpj2z2a",
        "2222222222222",
        "jzzzzzzzzzzzz",
        "kzzzzzzzzzzzz",
        "3jzfcijpj2z2",
        "3jzfcijpj2z2aa",
        "3jzfcijpj2z21",
        "3jzfcijpj2z2A",
        "3jzfcijpj2z2é",
        "é3jzfcijpj2z",
        "",
    ] {
        assert_eq!(
            tid_is_valid(text),
            jacquard_common::types::tid::Tid::new(text).is_ok(),
            "{:?}",
            text
        );
    }
}
