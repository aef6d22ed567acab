use floodgate::api::{IdentityData, RecordAction, RecordData, TapIngestPayload};
use floodgate::ident::Reference;
use floodgate::ingest::{
    check_post_key, handle_event, handle_favourite_create_event, handle_favourite_delete_event,
    handle_identity, handle_label_create_event, handle_label_delete_event, handle_post_create,
    handle_post_delete, handle_profile_create_event, handle_profile_delete_event, is_moderator,
    payload_kind, record_kind, AtprotoRecord, Blob, Failure, Favourite, Label, Post, Profile,
    RecordKind, Rejection, StoreAction, Verdict, AVATAR_BLOB_LIMIT, POST_BLOB_LIMIT,
};

const TID: &str = "3jzfcijpj2z2a";
const CID: &str = "bafkreihdwdcefgh4dqkjv67uzcmw7ojee6xedzdetojuzjevtenxquvyku";
const OTHER_CID: &str = "QmdfTbBqBPQ7VNxZEYEj14VmRuZBkqFbiwReogJgS1zR1n";

fn record(collection: &str, rkey: &str, action: RecordAction) -> RecordData {
    RecordData {
        live: true,
        did: String::from("did:plc:alice"),
        rev: Some(String::from("3kabc")),
        collection: String::from(collection),
        rkey: String::from(rkey),
        action,
    }
}

fn created() -> RecordAction {
    RecordAction::Create { record: String::from("{}"), cid: None }
}

fn post_key() -> String {
    format!("{}:{}", TID, CID)
}

fn blob(cid: &str, mime_type: &str, size: u64) -> Blob {
    Blob { cid: String::from(cid), mime_type: String::from(mime_type), size }
}

fn post(blob: Blob) -> Post {
    Post {
        title: String::from("a title"),
        blob,
        alt: Some(String::from("alt text")),
        tags: vec![String::from("cat")],
        languages: Some(vec![String::from("en")]),
        created_at: 1_700_000_000,
    }
}

fn favourite(collection: Option<&str>, rkey: Option<&str>) -> Favourite {
    Favourite {
        subject: Reference {
            authority: String::from("did:plc:bob"),
            collection: collection.map(String::from),
            rkey: rkey.map(String::from),
        },
        created_at: 1_700_000_001,
    }
}

fn profile(avatar: Option<Blob>) -> Profile {
    Profile {
        display_name: Some(String::from("Alice")),
        description: None,
        pronouns: Some(String::from("she/her")),
        avatar,
    }
}

fn label() -> Label {
    Label {
        subject: String::from("at://did:plc:bob/net.gifdex.feed.post/key"),
        value: String::from("spam"),
        reason: Some(String::from("repeated")),
        expires_at: Some(1_800_000_000),
        created_at: 1_700_000_002,
    }
}

fn moderators() -> Vec<String> {
    vec![String::from("did:plc:mod"), String::from("did:plc:alice")]
}

fn rejected(verdict: Verdict) -> Rejection {
    match verdict {
        Verdict::Reject(rejection) => rejection,
        other => panic!("{:?}", other),
    }
}

fn stored(verdict: Verdict) -> StoreAction {
    match verdict {
        Verdict::Store(action) => action,
        other => panic!("{:?}", other),
    }
}

#[test]
fn a_deleted_or_taken_down_account_is_removed() {
    for status in ["deleted", "takendown"] {
        let identity = IdentityData {
            did: String::from("did:plc:alice"),
            handle: String::from("alice.example"),
            is_active: false,
            status: String::from(status),
        };
        assert!(matches!(
            stored(handle_identity(identity)),
            StoreAction::DeleteAccount { did } if did == "did:plc:alice"
        ));
    }
}

#[test]
fn any_other_account_is_stored() {
    for status in ["active", "deactivated", "suspended", "Deleted", ""] {
        let identity = IdentityData {
            did: String::from("did:plc:alice"),
            handle: String::from("alice.example"),
            is_active: true,
            status: String::from(status),
        };
        match stored(handle_identity(identity)) {
            StoreAction::UpsertAccount { did, handle, is_active, status: kept } => {
                assert_eq!(did, "did:plc:alice");
                assert_eq!(handle, "alice.example");
                assert!(is_active);
                assert_eq!(kept, status);
            }
            other => panic!("{:?}", other),
        }
    }
}

#[test]
fn a_valid_post_is_stored() {
    let verdict = handle_post_create(
        record("net.gifdex.feed.post", &post_key(), created()),
        post(blob(CID, "image/gif", 1234)),
    );
    match stored(verdict) {
        StoreAction::UpsertPost {
            did,
            rkey,
            blob_cid,
            blob_mime_type,
            title,
            blob_alt_text,
            tags,
            languages,
            created_at,
        } => {
            assert_eq!(did, "did:plc:alice");
            assert_eq!(rkey, post_key());
            assert_eq!(blob_cid, CID);
            assert_eq!(blob_mime_type, "image/gif");
            assert_eq!(title, "a title");
            assert_eq!(blob_alt_text, Some(String::from("alt text")));
            assert_eq!(tags, Some(vec![String::from("cat")]));
            assert_eq!(languages, Some(vec![String::from("en")]));
            assert_eq!(created_at, 1_700_000_000);
        }
        other => panic!("{:?}", other),
    }
}

#[test]
fn empty_tags_and_languages_are_stored_as_none() {
    let mut data = post(blob(CID, "image/webp", 1));
    data.tags = vec![];
    data.languages = Some(vec![]);
    match stored(handle_post_create(record("net.gifdex.feed.post", &post_key(), created()), data))
    {
        StoreAction::UpsertPost { tags, languages, blob_mime_type, .. } => {
            assert_eq!(tags, None);
            assert_eq!(languages, None);
            assert_eq!(blob_mime_type, "image/webp");
        }
        other => panic!("{:?}", other),
    }
    let mut data = post(blob(CID, "image/gif", 1));
    data.languages = None;
    assert!(matches!(
        stored(handle_post_create(record("net.gifdex.feed.post", &post_key(), created()), data)),
        StoreAction::UpsertPost { languages: None, .. }
    ));
}

#[test]
fn a_post_is_passed_over_for_each_reason_in_turn() {
    let cases: Vec<(String, Blob, Rejection)> = vec![
        (String::from("nocolon"), blob(CID, "image/gif", 1), Rejection::MalformedKey),
        (format!("bad:{}", CID), blob(CID, "image/gif", 1), Rejection::InvalidTid),
        (format!("{}:nonsense", TID), blob("nonsense", "image/gif", 1), Rejection::InvalidCid),
        (post_key(), blob(OTHER_CID, "image/gif", 1), Rejection::CidMismatch),
        (post_key(), blob(CID, "image/png", 1), Rejection::InvalidMimeType),
        (post_key(), blob(CID, "image/gif", POST_BLOB_LIMIT), Rejection::BlobTooLarge),
    ];
    for (rkey, blob, expected) in cases {
        let verdict = handle_post_create(record("net.gifdex.feed.post", &rkey, created()), post(blob));
        assert_eq!(rejected(verdict), expected, "{}", rkey);
    }
    assert_eq!(POST_BLOB_LIMIT, 10 * 1024 * 1024);
}

#[test]
fn a_post_of_any_other_size_is_taken() {
    for size in [0, POST_BLOB_LIMIT - 1, POST_BLOB_LIMIT + 1, u64::MAX] {
        let verdict = handle_post_create(
            record("net.gifdex.feed.post", &post_key(), created()),
            post(blob(CID, "image/gif", size)),
        );
        assert!(matches!(verdict, Verdict::Store(_)), "{}", size);
    }
}

#[test]
fn check_post_key_names_what_is_wrong_with_a_key() {
    assert_eq!(check_post_key(&post_key()), Ok(String::from(CID)));
    assert_eq!(check_post_key("key"), Err(Rejection::MalformedKey));
    assert_eq!(check_post_key(&format!("x:{}", CID)), Err(Rejection::InvalidTid));
    assert_eq!(check_post_key(&format!("{}:x", TID)), Err(Rejection::InvalidCid));
}

#[test]
fn deleting_a_post_removes_it() {
    assert!(matches!(
        stored(handle_post_delete(record("net.gifdex.feed.post", "key", RecordAction::Delete))),
        StoreAction::DeletePost { did, rkey } if did == "did:plc:alice" && rkey == "key"
    ));
}

#[test]
fn a_favourite_is_stored_where_its_subject_passes() {
    let subject_key = format!("{}:nonsense", TID);
    let verdict = handle_favourite_create_event(
        record("net.gifdex.feed.favourite", TID, created()),
        favourite(Some("net.gifdex.feed.post"), Some(&subject_key)),
    );
    match stored(verdict) {
        StoreAction::UpsertFavourite { did, rkey, post_did, post_rkey, created_at } => {
            assert_eq!(did, "did:plc:alice");
            assert_eq!(rkey, TID);
            assert_eq!(post_did, "did:plc:bob");
            assert_eq!(post_rkey, subject_key);
            assert_eq!(created_at, 1_700_000_001);
        }
        other => panic!("{:?}", other),
    }
}

#[test]
fn a_favourite_is_passed_over_for_each_reason_in_turn() {
    let good_subject = format!("{}:nonsense", TID);
    let cases: Vec<(&str, Favourite, Rejection)> = vec![
        ("self", favourite(Some("net.gifdex.feed.post"), Some(&good_subject)), Rejection::InvalidTid),
        (TID, favourite(None, Some(&good_subject)), Rejection::IncompleteSubject),
        (TID, favourite(Some("net.gifdex.feed.post"), None), Rejection::IncompleteSubject),
        (TID, favourite(Some("net.gifdex.feed.post"), Some("nocolon")), Rejection::MalformedKey),
        (TID, favourite(Some("net.gifdex.feed.post"), Some("bad:nonsense")), Rejection::InvalidTid),
        (
            TID,
            favourite(Some("net.gifdex.feed.post"), Some(&format!("{}:{}", TID, CID))),
            Rejection::InvalidCid,
        ),
        (TID, favourite(Some("net.gifdex.actor.profile"), Some(&good_subject)), Rejection::SubjectNotAPost),
    ];
    for (rkey, data, expected) in cases {
        let verdict =
            handle_favourite_create_event(record("net.gifdex.feed.favourite", rkey, created()), data);
        assert_eq!(rejected(verdict), expected);
    }
}

#[test]
fn deleting_a_favourite_removes_it() {
    assert!(matches!(
        stored(handle_favourite_delete_event(record(
            "net.gifdex.feed.favourite",
            TID,
            RecordAction::Delete
        ))),
        StoreAction::DeleteFavourite { did, rkey } if did == "did:plc:alice" && rkey == TID
    ));
}

#[test]
fn a_profile_under_self_is_stored() {
    let verdict = handle_profile_create_event(
        record("net.gifdex.actor.profile", "self", created()),
        profile(Some(blob(CID, "image/png", 10))),
    );
    match stored(verdict) {
        StoreAction::UpsertProfile { did, display_name, description, pronouns, avatar_blob_cid } => {
            assert_eq!(did, "did:plc:alice");
            assert_eq!(display_name, Some(String::from("Alice")));
            assert_eq!(description, None);
            assert_eq!(pronouns, Some(String::from("she/her")));
            assert_eq!(avatar_blob_cid, Some(String::from(CID)));
        }
        other => panic!("{:?}", other),
    }
    assert!(matches!(
        stored(handle_profile_create_event(
            record("net.gifdex.actor.profile", "self", created()),
            profile(None)
        )),
        StoreAction::UpsertProfile { avatar_blob_cid: None, .. }
    ));
}

#[test]
fn a_profile_is_passed_over_for_each_reason_in_turn() {
    let cases: Vec<(&str, Option<Blob>, Rejection)> = vec![
        ("other", None, Rejection::NotSelfKey),
        ("self", Some(blob("nonsense", "image/png", 1)), Rejection::InvalidCid),
        ("self", Some(blob(CID, "image/gif", 1)), Rejection::InvalidMimeType),
        ("self", Some(blob(CID, "image/jpeg", AVATAR_BLOB_LIMIT)), Rejection::BlobTooLarge),
    ];
    for (rkey, avatar, expected) in cases {
        let verdict = handle_profile_create_event(
            record("net.gifdex.actor.profile", rkey, created()),
            profile(avatar),
        );
        assert_eq!(rejected(verdict), expected);
    }
    assert_eq!(AVATAR_BLOB_LIMIT, 3 * 1024 * 1024);
}

#[test]
fn deleting_a_profile_clears_it_under_self_only() {
    assert!(matches!(
        stored(handle_profile_delete_event(record(
            "net.gifdex.actor.profile",
            "self",
            RecordAction::Delete
        ))),
        StoreAction::ClearProfile { did } if did == "did:plc:alice"
    ));
    assert_eq!(
        rejected(handle_profile_delete_event(record(
            "net.gifdex.actor.profile",
            "else",
            RecordAction::Delete
        ))),
        Rejection::NotSelfKey
    );
}

#[test]
fn labels_of_moderators_are_stored_and_removed() {
    match stored(handle_label_create_event(
        &moderators(),
        record("net.gifdex.moderation.label", "key", created()),
        label(),
    )) {
        StoreAction::UpsertLabel { subject, rkey, value, reason, actor, expires_at, created_at } => {
            assert_eq!(subject, "at://did:plc:bob/net.gifdex.feed.post/key");
            assert_eq!(rkey, "key");
            assert_eq!(value, "spam");
            assert_eq!(reason, Some(String::from("repeated")));
            assert_eq!(actor, "did:plc:alice");
            assert_eq!(expires_at, Some(1_800_000_000));
            assert_eq!(created_at, 1_700_000_002);
        }
        other => panic!("{:?}", other),
    }
    assert!(matches!(
        stored(handle_label_delete_event(
            &moderators(),
            record("net.gifdex.moderation.label", "key", RecordAction::Delete)
        )),
        StoreAction::DeleteLabel { rkey } if rkey == "key"
    ));
}

#[test]
fn labels_of_other_accounts_are_passed_over() {
    let strangers = vec![String::from("did:plc:mod")];
    assert_eq!(
        rejected(handle_label_create_event(
            &strangers,
            record("net.gifdex.moderation.label", "key", created()),
            label()
        )),
        Rejection::NotModerator
    );
    assert_eq!(
        rejected(handle_label_delete_event(
            &vec![],
            record("net.gifdex.moderation.label", "key", RecordAction::Delete)
        )),
        Rejection::NotModerator
    );
    assert!(is_moderator(&moderators(), "did:plc:mod"));
    assert!(is_moderator(&moderators(), "did:plc:alice"));
    assert!(!is_moderator(&moderators(), "did:plc:bob"));
    assert!(!is_moderator(&vec![], "did:plc:mod"));
}

#[test]
fn collections_name_their_kind() {
    assert_eq!(record_kind("net.gifdex.feed.post"), Some(RecordKind::Post));
    assert_eq!(record_kind("net.gifdex.feed.favourite"), Some(RecordKind::Favourite));
    assert_eq!(record_kind("net.gifdex.actor.profile"), Some(RecordKind::Profile));
    assert_eq!(record_kind("net.gifdex.moderation.label"), Some(RecordKind::Label));
    assert_eq!(record_kind("app.bsky.feed.post"), None);
    assert_eq!(record_kind(""), None);
}

#[test]
fn only_create_and_update_events_have_a_payload_to_read() {
    let create = TapIngestPayload::Record {
        id: 1,
        record: record("net.gifdex.feed.post", "k", created()),
    };
    assert_eq!(payload_kind(&create), Some(RecordKind::Post));
    let update = TapIngestPayload::Record {
        id: 1,
        record: record(
            "net.gifdex.actor.profile",
            "k",
            RecordAction::Update { record: String::from("{}"), cid: None },
        ),
    };
    assert_eq!(payload_kind(&update), Some(RecordKind::Profile));
    let delete = TapIngestPayload::Record {
        id: 1,
        record: record("net.gifdex.feed.post", "k", RecordAction::Delete),
    };
    assert_eq!(payload_kind(&delete), None);
    let unknown = TapIngestPayload::Record {
        id: 1,
        record: record("app.bsky.feed.post", "k", created()),
    };
    assert_eq!(payload_kind(&unknown), None);
}

#[test]
fn events_go_to_the_rule_of_their_collection() {
    let create = TapIngestPayload::Record {
        id: 1,
        record: record("net.gifdex.feed.post", &post_key(), created()),
    };
    let verdict = handle_event(
        &moderators(),
        create,
        Some(AtprotoRecord::FeedPost(post(blob(CID, "image/gif", 1)))),
    );
    assert!(matches!(verdict, Verdict::Store(StoreAction::UpsertPost { .. })));

    let delete = TapIngestPayload::Record {
        id: 2,
        record: record("net.gifdex.feed.favourite", TID, RecordAction::Delete),
    };
    assert!(matches!(
        handle_event(&moderators(), delete, None),
        Verdict::Store(StoreAction::DeleteFavourite { .. })
    ));

    let identity = TapIngestPayload::Identity {
        id: 3,
        identity: IdentityData {
            did: String::from("did:plc:alice"),
            handle: String::from("alice.example"),
            is_active: true,
            status: String::from("active"),
        },
    };
    assert!(matches!(
        handle_event(&moderators(), identity, None),
        Verdict::Store(StoreAction::UpsertAccount { .. })
    ));
}

#[test]
fn events_without_a_rule_or_with_the_wrong_record_fail() {
    let unknown = TapIngestPayload::Record {
        id: 1,
        record: record("app.bsky.feed.post", "k", created()),
    };
    assert!(matches!(
        handle_event(&moderators(), unknown, None),
        Verdict::Fail(Failure::NoHandler)
    ));
    let unknown_delete = TapIngestPayload::Record {
        id: 1,
        record: record("app.bsky.feed.post", "k", RecordAction::Delete),
    };
    assert!(matches!(
        handle_event(&moderators(), unknown_delete, None),
        Verdict::Fail(Failure::NoHandler)
    ));
    let missing = TapIngestPayload::Record {
        id: 1,
        record: record("net.gifdex.feed.post", &post_key(), created()),
    };
    assert!(matches!(
        handle_event(&moderators(), missing, None),
        Verdict::Fail(Failure::BadPayload)
    ));
    let mismatched = TapIngestPayload::Record {
        id: 1,
        record: record("net.gifdex.feed.post", &post_key(), created()),
    };
    assert!(matches!(
        handle_event(&moderators(), mismatched, Some(AtprotoRecord::ActorProfile(profile(None)))),
        Verdict::Fail(Failure::BadPayload)
    ));
    let unread = TapIngestPayload::Record {
        id: 1,
        record: record("net.gifdex.feed.post", &post_key(), created()),
    };
    assert!(matches!(
        handle_event(&moderators(), unread, Some(AtprotoRecord::Unknown)),
        Verdict::Fail(Failure::BadPayload)
    ));
}

#[test]
fn a_verdict_settles_by_what_the_store_reports() {
    let store = Verdict::Store(StoreAction::DeleteLabel { rkey: String::from("k") });
    assert!(store.settles(true));
    assert!(!store.settles(false));
    let reject = Verdict::Reject(Rejection::NotSelfKey);
    assert!(reject.settles(true));
    assert!(reject.settles(false));
    let fail = Verdict::Fail(Failure::NoHandler);
    assert!(!fail.settles(true));
    assert!(!fail.settles(false));
}
