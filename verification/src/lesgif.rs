//! The rules of the worker for the collections under `net.dollware.lesgif`.
//!
//! The worker reads the type of a record from the record itself, trusts one
//! moderation account, and takes GIF images only.

use crate::api::{
    json_object_members, object_members, text_member, text_member_of, RecordAction, RecordData,
    TapIngestPayload,
};
use crate::ident::{after_colon, before_colon, has_colon, is_tid, split_at_colon, tid_is_valid};
use crate::ingest::{
    handle_identity, identity_verdict, AtprotoRecord, Failure, Favourite, Label, Post, Profile,
    RecordKind, Rejection, StoreAction, Verdict, PROFILE_RKEY,
};
use crate::text::starts_with;
use vstd::prelude::*;

verus! {

/// The collection of posts, and the type of its records.
pub const POST_NSID: &'static str = "net.dollware.lesgif.feed.post";

/// The collection of favourites, and the type of its records.
pub const FAVOURITE_NSID: &'static str = "net.dollware.lesgif.feed.favourite";

/// The collection of profiles, and the type of its records.
pub const PROFILE_NSID: &'static str = "net.dollware.lesgif.actor.profile";

/// The collection of moderation labels, and the type of its records.
pub const LABEL_NSID: &'static str = "net.dollware.lesgif.moderation.label";

/// What the name of every moderation collection begins with.
pub const MODERATION_PREFIX: &'static str = "net.dollware.lesgif.moderation";

/// The member of a record that names its type.
pub const TYPE_MEMBER: &'static str = "$type";

/// The kind of record that a collection holds, or that a type names.
pub open spec fn record_kind_of(nsid: Seq<char>) -> Option<RecordKind> {
    if nsid == POST_NSID@ {
        Some(RecordKind::Post)
    } else if nsid == FAVOURITE_NSID@ {
        Some(RecordKind::Favourite)
    } else if nsid == PROFILE_NSID@ {
        Some(RecordKind::Profile)
    } else if nsid == LABEL_NSID@ {
        Some(RecordKind::Label)
    } else {
        None
    }
}

/// The kind of record that a collection holds, or that a type names.
pub fn record_kind(nsid: &str) -> (kind: Option<RecordKind>)
    ensures
        kind == record_kind_of(nsid@),
{
    if *nsid == *POST_NSID {
        Some(RecordKind::Post)
    } else if *nsid == *FAVOURITE_NSID {
        Some(RecordKind::Favourite)
    } else if *nsid == *PROFILE_NSID {
        Some(RecordKind::Profile)
    } else if *nsid == *LABEL_NSID {
        Some(RecordKind::Label)
    } else {
        None
    }
}

/// The kind of record that a JSON text is to be read as: the one that its
/// string member `$type` names.
pub open spec fn payload_kind_of(record: Seq<char>) -> Option<RecordKind> {
    match json_object_members(record) {
        Some(members) => match text_member_of(members, TYPE_MEMBER@) {
            Some(name) => record_kind_of(name),
            None => None,
        },
        None => None,
    }
}

/// The kind of record that a JSON text is to be read as.
pub fn payload_kind(record: &str) -> (kind: Option<RecordKind>)
    ensures
        kind == payload_kind_of(record@),
{
    match object_members(record) {
        Some(members) => match text_member(&members, TYPE_MEMBER) {
            Some(name) => record_kind(name.as_str()),
            None => None,
        },
        None => None,
    }
}

/// Whether a record is turned away because its account does not moderate:
/// a record of a moderation collection from any account but the one that
/// moderates.
pub open spec fn is_unwelcome(moderation_account: Seq<char>, record_data: RecordData) -> bool {
    MODERATION_PREFIX@.is_prefix_of(record_data.collection@) && record_data.did@
        != moderation_account
}

/// Why a post is passed over, if it is: its key must be a timestamp
/// identifier, a colon and the content identifier of its blob, and the blob
/// a GIF image.
pub open spec fn post_rejection(rkey: Seq<char>, data: Post) -> Option<Rejection> {
    if !has_colon(rkey) {
        Some(Rejection::MalformedKey)
    } else if !is_tid(before_colon(rkey)) {
        Some(Rejection::InvalidTid)
    } else if after_colon(rkey) != data.blob.cid@ {
        Some(Rejection::CidMismatch)
    } else if data.blob.mime_type@ != "image/gif"@ {
        Some(Rejection::InvalidMimeType)
    } else {
        None
    }
}

/// What to do about a record that was created or updated.
pub open spec fn create_verdict(record_data: RecordData, payload: Option<AtprotoRecord>)
    -> Verdict {
    match payload {
        Some(AtprotoRecord::FeedPost(data)) => match post_rejection(record_data.rkey@, data) {
            Some(rejection) => Verdict::Reject(rejection),
            None => Verdict::Store(
                StoreAction::UpsertPost {
                    did: record_data.did,
                    rkey: record_data.rkey,
                    blob_cid: data.blob.cid,
                    blob_mime_type: data.blob.mime_type,
                    title: data.title,
                    blob_alt_text: data.alt,
                    tags: if data.tags@.len() == 0 {
                        None
                    } else {
                        Some(data.tags)
                    },
                    languages: match data.languages {
                        Some(languages) if languages@.len() > 0 => Some(languages),
                        _ => None,
                    },
                    created_at: data.created_at,
                },
            ),
        },
        Some(AtprotoRecord::FeedFavourite(data)) => match data.subject.rkey {
            Some(post_rkey) => Verdict::Store(
                StoreAction::UpsertFavourite {
                    did: record_data.did,
                    rkey: record_data.rkey,
                    post_did: data.subject.authority,
                    post_rkey,
                    created_at: data.created_at,
                },
            ),
            None => Verdict::Fail(Failure::BadPayload),
        },
        Some(AtprotoRecord::ActorProfile(data)) => if record_data.rkey@ != PROFILE_RKEY@ {
            Verdict::Reject(Rejection::NotSelfKey)
        } else {
            Verdict::Store(
                StoreAction::UpsertProfile {
                    did: record_data.did,
                    display_name: data.display_name,
                    description: data.description,
                    pronouns: data.pronouns,
                    avatar_blob_cid: match data.avatar {
                        Some(avatar) => Some(avatar.cid),
                        None => None,
                    },
                },
            )
        },
        Some(AtprotoRecord::ModerationLabel(data)) => Verdict::Store(
            StoreAction::UpsertLabel {
                subject: data.subject,
                rkey: record_data.rkey,
                value: data.value,
                reason: data.reason,
                actor: record_data.did,
                expires_at: data.expires_at,
                created_at: data.created_at,
            },
        ),
        Some(AtprotoRecord::Unknown) | None => Verdict::Fail(Failure::NoHandler),
    }
}

/// What to do about a record that was deleted.
pub open spec fn delete_verdict(record_data: RecordData) -> Verdict {
    match record_kind_of(record_data.collection@) {
        Some(RecordKind::Post) => Verdict::Store(
            StoreAction::DeletePost { did: record_data.did, rkey: record_data.rkey },
        ),
        Some(RecordKind::Favourite) => Verdict::Store(
            StoreAction::DeleteFavourite { did: record_data.did, rkey: record_data.rkey },
        ),
        Some(RecordKind::Profile) => Verdict::Store(
            StoreAction::ClearProfile { did: record_data.did },
        ),
        Some(RecordKind::Label) => Verdict::Store(
            StoreAction::DeleteLabel { rkey: record_data.rkey },
        ),
        None => Verdict::Fail(Failure::NoHandler),
    }
}

/// What to do about an event.
pub open spec fn event_verdict(
    moderation_account: Seq<char>,
    payload: TapIngestPayload,
    record: Option<AtprotoRecord>,
) -> Verdict {
    match payload {
        TapIngestPayload::Identity { identity, .. } => identity_verdict(identity),
        TapIngestPayload::Record { record: record_data, .. } => {
            if is_unwelcome(moderation_account, record_data) {
                Verdict::Reject(Rejection::NotModerator)
            } else {
                match record_data.action {
                    RecordAction::Delete => delete_verdict(record_data),
                    _ => create_verdict(record_data, record),
                }
            }
        },
    }
}

fn decide_post(record_data: RecordData, data: Post) -> (verdict: Verdict)
    ensures
        verdict == create_verdict(record_data, Some(AtprotoRecord::FeedPost(data))),
{
    match split_at_colon(record_data.rkey.as_str()) {
        None => {
            return Verdict::Reject(Rejection::MalformedKey);
        },
        Some(halves) => {
            if !tid_is_valid(halves.before.as_str()) {
                return Verdict::Reject(Rejection::InvalidTid);
            }
            if *halves.after.as_str() != *data.blob.cid.as_str() {
                return Verdict::Reject(Rejection::CidMismatch);
            }
        },
    }
    if *data.blob.mime_type.as_str() != *"image/gif" {
        return Verdict::Reject(Rejection::InvalidMimeType);
    }
    let tags = if data.tags.len() == 0 {
        None
    } else {
        Some(data.tags)
    };
    let languages = match data.languages {
        Some(languages) => if languages.len() > 0 {
            Some(languages)
        } else {
            None
        },
        None => None,
    };
    Verdict::Store(
        StoreAction::UpsertPost {
            did: record_data.did,
            rkey: record_data.rkey,
            blob_cid: data.blob.cid,
            blob_mime_type: data.blob.mime_type,
            title: data.title,
            blob_alt_text: data.alt,
            tags,
            languages,
            created_at: data.created_at,
        },
    )
}

fn decide_favourite(record_data: RecordData, data: Favourite) -> (verdict: Verdict)
    ensures
        verdict == create_verdict(record_data, Some(AtprotoRecord::FeedFavourite(data))),
{
    match data.subject.rkey {
        Some(post_rkey) => Verdict::Store(
            StoreAction::UpsertFavourite {
                did: record_data.did,
                rkey: record_data.rkey,
                post_did: data.subject.authority,
                post_rkey,
                created_at: data.created_at,
            },
        ),
        None => Verdict::Fail(Failure::BadPayload),
    }
}

fn decide_profile(record_data: RecordData, data: Profile) -> (verdict: Verdict)
    ensures
        verdict == create_verdict(record_data, Some(AtprotoRecord::ActorProfile(data))),
{
    if *record_data.rkey.as_str() != *PROFILE_RKEY {
        return Verdict::Reject(Rejection::NotSelfKey);
    }
    let avatar_blob_cid = match data.avatar {
        Some(avatar) => Some(avatar.cid),
        None => None,
    };
    Verdict::Store(
        StoreAction::UpsertProfile {
            did: record_data.did,
            display_name: data.display_name,
            description: data.description,
            pronouns: data.pronouns,
            avatar_blob_cid,
        },
    )
}

fn decide_label(record_data: RecordData, data: Label) -> (verdict: Verdict)
    ensures
        verdict == create_verdict(record_data, Some(AtprotoRecord::ModerationLabel(data))),
{
    Verdict::Store(
        StoreAction::UpsertLabel {
            subject: data.subject,
            rkey: record_data.rkey,
            value: data.value,
            reason: data.reason,
            actor: record_data.did,
            expires_at: data.expires_at,
            created_at: data.created_at,
        },
    )
}

fn decide_delete(record_data: RecordData) -> (verdict: Verdict)
    ensures
        verdict == delete_verdict(record_data),
{
    match record_kind(record_data.collection.as_str()) {
        Some(RecordKind::Post) => Verdict::Store(
            StoreAction::DeletePost { did: record_data.did, rkey: record_data.rkey },
        ),
        Some(RecordKind::Favourite) => Verdict::Store(
            StoreAction::DeleteFavourite { did: record_data.did, rkey: record_data.rkey },
        ),
        Some(RecordKind::Profile) => Verdict::Store(
            StoreAction::ClearProfile { did: record_data.did },
        ),
        Some(RecordKind::Label) => Verdict::Store(
            StoreAction::DeleteLabel { rkey: record_data.rkey },
        ),
        None => Verdict::Fail(Failure::NoHandler),
    }
}

/// Decides about an event.
///
/// An account that is deleted or taken down is removed, any other stored.
/// A record of a moderation collection from another account than
/// `moderation_account` is passed over. A record that was created or
/// updated goes by its own type: a post must have a key made of a
/// timestamp identifier, a colon and the content identifier of its blob,
/// and a GIF image; a favourite must name the key of its subject; a profile
/// must be under the key `self`; a label is stored as it is; any other
/// record fails. A record that was deleted goes by its collection, and
/// fails where the collection is not known.
pub fn process_event(
    moderation_account: &str,
    payload: TapIngestPayload,
    record: Option<AtprotoRecord>,
) -> (verdict: Verdict)
    ensures
        verdict == event_verdict(moderation_account@, payload, record),
{
    match payload {
        TapIngestPayload::Identity { identity, .. } => handle_identity(identity),
        TapIngestPayload::Record { record: record_data, .. } => {
            if starts_with(record_data.collection.as_str(), MODERATION_PREFIX)
                && *record_data.did.as_str() != *moderation_account {
                return Verdict::Reject(Rejection::NotModerator);
            }
            match record_data.action {
                RecordAction::Delete => decide_delete(record_data),
                _ => match record {
                    Some(AtprotoRecord::FeedPost(data)) => decide_post(record_data, data),
                    Some(AtprotoRecord::FeedFavourite(data)) => decide_favourite(record_data, data),
                    Some(AtprotoRecord::ActorProfile(data)) => decide_profile(record_data, data),
                    Some(AtprotoRecord::ModerationLabel(data)) => decide_label(record_data, data),
                    Some(AtprotoRecord::Unknown) => Verdict::Fail(Failure::NoHandler),
                    None => Verdict::Fail(Failure::NoHandler),
                },
            }
        },
    }
}

} // verus!
