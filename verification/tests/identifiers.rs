use floodgate::ident::{
    cid_is_valid, did_is_valid, split_at_colon, tid_is_valid, ContentId, Did, Reference,
};

const RAW_CID: &str = "bafkreihdwdcefgh4dqkjv67uzcmw7ojee6xedzdetojuzjevtenxquvyku";
const V0_CID: &str = "QmdfTbBqBPQ7VNxZEYEj14VmRuZBkqFbiwReogJgS1zR1n";

#[test]
fn timestamp_identifiers_have_thirteen_sortable_characters() {
    assert!(tid_is_valid("3jzfcijpj2z2a"));
    assert!(tid_is_valid("2222222222222"));
    assert!(tid_is_valid("7777777777777"));
    assert!(tid_is_valid("jzzzzzzzzzzzz"));
    assert!(!tid_is_valid("kzzzzzzzzzzzz"));
    assert!(!tid_is_valid("zzzzzzzzzzzzz"));
    assert!(!tid_is_valid("3jzfcijpj2z2"));
    assert!(!tid_is_valid("3jzfcijpj2z2aa"));
    assert!(!tid_is_valid("3jzfcijpj2z21"));
    assert!(!tid_is_valid("3jzfcijpj2z2A"));
    assert!(!tid_is_valid("3jzf-ijpj2z2a"));
    assert!(!tid_is_valid("0000000000000"));
    assert!(!tid_is_valid(""));
    assert!(!tid_is_valid("3jzfcijpj2z2é"));
}

#[test]
fn account_identifiers_follow_their_syntax() {
    for valid in [
        "did:plc:z72i7hdynmk6r22z27h6tvur",
        "did:web:example.com",
        "did:web:localhost%3A1234",
        "did:method:val:two",
        "did:m:v",
        "did:method:-:_:.",
        "did:key:zQ3shZc2QzApp2oymGvQbzP8eKheVshBHbU4ZYjeXqwSKEn6N",
    ] {
        assert!(did_is_valid(valid), "{}", valid);
        assert_eq!(Did::new(valid).map(|did| did.as_str().to_string()), Some(valid.to_string()));
    }
    for invalid in [
        "",
        "did",
        "did:",
        "did:plc",
        "did:plc:",
        "did::abc",
        "did:PLC:abc",
        "did:pl1c:abc",
        "DID:plc:abc",
        "did:plc:abc:",
        "did:plc:abc%",
        "did:plc:a b",
        "did:plc:abc/def",
        "did:plc:abc#frag",
        "at://did:plc:abc",
        " did:plc:abc",
        "did:plc:abc\n",
        "did:plc:é",
    ] {
        assert!(!did_is_valid(invalid), "{:?}", invalid);
        assert!(Did::new(invalid).is_none(), "{:?}", invalid);
    }
}

#[test]
fn account_identifiers_have_at_most_2048_bytes() {
    let longest = format!("did:plc:{}", "a".repeat(2040));
    assert_eq!(longest.len(), 2048);
    assert!(did_is_valid(&longest));
    let too_long = format!("did:plc:{}", "a".repeat(2041));
    assert!(!did_is_valid(&too_long));
}

#[test]
fn split_at_colon_splits_at_the_first_colon() {
    let halves = split_at_colon("3jzfcijpj2z2a:bafy:rest").unwrap();
    assert_eq!(halves.before, "3jzfcijpj2z2a");
    assert_eq!(halves.after, "bafy:rest");
    let empty = split_at_colon(":").unwrap();
    assert_eq!(empty.before, "");
    assert_eq!(empty.after, "");
    let tail = split_at_colon("key:").unwrap();
    assert_eq!(tail.before, "key");
    assert_eq!(tail.after, "");
    assert!(split_at_colon("no colon").is_none());
    assert!(split_at_colon("").is_none());
}

#[test]
fn content_identifiers_are_read_by_the_cid_crate() {
    assert!(cid_is_valid(RAW_CID));
    assert!(cid_is_valid(V0_CID));
    assert!(!cid_is_valid(""));
    assert!(!cid_is_valid("b"));
    assert!(!cid_is_valid("not a cid"));
    assert!(!cid_is_valid("bafkreihdwdcefgh4dqkjv67uzcmw7ojee6xedzdetojuzjevtenxquvyk"));
}

#[test]
fn a_content_identifier_shows_its_canonical_text_and_hash_code() {
    let raw = ContentId::parse(RAW_CID).unwrap();
    assert_eq!(raw.as_str(), RAW_CID);
    assert_eq!(raw.hash_code(), 0x12);
    let upper = ContentId::parse(&format!("B{}", RAW_CID[1..].to_uppercase())).unwrap();
    assert_eq!(upper.as_str(), RAW_CID);
    let v0 = ContentId::parse(V0_CID).unwrap();
    assert_eq!(v0.as_str(), V0_CID);
    assert_eq!(v0.hash_code(), 0x12);
    assert!(ContentId::parse("nonsense").is_none());
}

#[test]
fn a_reference_is_read_into_its_parts() {
    let full = Reference::parse("at://did:plc:bob/net.gifdex.feed.post/3jzfcijpj2z2a:bafy").unwrap();
    assert_eq!(full.authority, "did:plc:bob");
    assert_eq!(full.collection, Some(String::from("net.gifdex.feed.post")));
    assert_eq!(full.rkey, Some(String::from("3jzfcijpj2z2a:bafy")));
    let collection = Reference::parse("at://alice.bsky.social/net.gifdex.feed.post").unwrap();
    assert_eq!(collection.authority, "alice.bsky.social");
    assert_eq!(collection.collection, Some(String::from("net.gifdex.feed.post")));
    assert_eq!(collection.rkey, None);
    let repository = Reference::parse("at://did:plc:bob").unwrap();
    assert_eq!(repository.authority, "did:plc:bob");
    assert_eq!(repository.collection, None);
    assert_eq!(repository.rkey, None);
    assert!(Reference::parse("https://example.com/x").is_none());
    assert!(Reference::parse("did:plc:bob").is_none());
    assert!(Reference::parse("").is_none());
    let long = format!("at://did:plc:bob/net.gifdex.feed.post/{}", "a".repeat(70_000));
    assert!(Reference::parse(&long).is_none());
}
