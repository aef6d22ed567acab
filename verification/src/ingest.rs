//! What a worker does with an event: which change it asks of its store, or
//! why it asks for none.
//!
//! The store is elsewhere. A rule takes an event and answers with a
//! [`Verdict`]; the worker performs the change that the verdict names and
//! reports whether the store took it.

use crate::api::{IdentityData, RecordAction, RecordData, TapIngestPayload};
use crate::ident::{
    after_colon, before_colon, cid_is_valid, has_colon, is_cid, is_tid, split_at_colon,
    tid_is_valid, Reference,
};
use vstd::prelude::*;

verus! {

/// The collection of posts.
pub const POST_NSID: &'static str = "net.gifdex.feed.post";

/// The collection of favourites.
pub const FAVOURITE_NSID: &'static str = "net.gifdex.feed.favourite";

/// The collection of profiles.
pub const PROFILE_NSID: &'static str = "net.gifdex.actor.profile";

/// The collection of moderation labels.
pub const LABEL_NSID: &'static str = "net.gifdex.moderation.label";

/// The key of the one profile record of an account.
pub const PROFILE_RKEY: &'static str = "self";

/// The size of a post's blob that is refused.
pub const POST_BLOB_LIMIT: u64 = 10 * 1024 * 1024;

/// The size of an avatar's blob that is refused.
pub const AVATAR_BLOB_LIMIT: u64 = 3 * 1024 * 1024;

/// What a record says of a blob.
#[derive(Debug)]
pub struct Blob {
    /// The content identifier of the blob.
    pub cid: String,
    pub mime_type: String,
    pub size: u64,
}

/// A post: an animation with a title.
#[derive(Debug)]
pub struct Post {
    pub title: String,
    pub blob: Blob,
    /// The text that stands in for the animation.
    pub alt: Option<String>,
    pub tags: Vec<String>,
    pub languages: Option<Vec<String>>,
    /// The time of creation, in seconds since the epoch.
    pub created_at: i64,
}

/// A favourite: a reference to a record of another repository.
#[derive(Debug)]
pub struct Favourite {
    /// The record that is favoured.
    pub subject: Reference,
    /// The time of creation, in seconds since the epoch.
    pub created_at: i64,
}

/// A profile.
#[derive(Debug)]
pub struct Profile {
    pub display_name: Option<String>,
    pub description: Option<String>,
    pub pronouns: Option<String>,
    pub avatar: Option<Blob>,
}

/// A moderation label.
#[derive(Debug)]
pub struct Label {
    pub subject: String,
    pub value: String,
    pub reason: Option<String>,
    /// The time the label expires, in seconds since the epoch.
    pub expires_at: Option<i64>,
    /// The time of creation, in seconds since the epoch.
    pub created_at: i64,
}

/// The record that a create or update event carries.
#[derive(Debug)]
pub enum AtprotoRecord {
    FeedPost(Post),
    FeedFavourite(Favourite),
    ActorProfile(Profile),
    ModerationLabel(Label),
    /// A record of a type that the worker has no rule for.
    Unknown,
}

/// The kinds of record that the worker has rules for.
#[derive(Debug, Clone, Copy, PartialEq, Eq, Structural)]
pub enum RecordKind {
    Post,
    Favourite,
    Profile,
    Label,
}

/// A change to the store.
#[derive(Debug)]
pub enum StoreAction {
    /// Remove the account and all that belongs to it.
    DeleteAccount { did: String },
    /// Insert the account, or update its handle, activity and status.
    UpsertAccount { did: String, handle: String, is_active: bool, status: String },
    /// Insert the post, or update its title, alternative text and tags.
    UpsertPost {
        did: String,
        rkey: String,
        blob_cid: String,
        blob_mime_type: String,
        title: String,
        blob_alt_text: Option<String>,
        tags: Option<Vec<String>>,
        languages: Option<Vec<String>>,
        created_at: i64,
    },
    DeletePost { did: String, rkey: String },
    /// Insert the favourite unless it is there.
    UpsertFavourite { did: String, rkey: String, post_did: String, post_rkey: String, created_at: i64 },
    DeleteFavourite { did: String, rkey: String },
    /// Insert the profile fields of the account, or replace them.
    UpsertProfile {
        did: String,
        display_name: Option<String>,
        description: Option<String>,
        pronouns: Option<String>,
        avatar_blob_cid: Option<String>,
    },
    /// Clear the profile fields of the account.
    ClearProfile { did: String },
    /// Insert the label, or update its reason, actor, value and expiry.
    UpsertLabel {
        subject: String,
        rkey: String,
        value: String,
        reason: Option<String>,
        actor: String,
        expires_at: Option<i64>,
        created_at: i64,
    },
    DeleteLabel { rkey: String },
}

/// Why a record is passed over. The event is acknowledged: the record will
/// not become valid by being delivered again.
#[derive(Debug, Clone, Copy, PartialEq, Eq, Structural)]
pub enum Rejection {
    /// The record key is not a timestamp identifier, a colon and a content
    /// identifier.
    MalformedKey,
    /// The timestamp identifier is invalid.
    InvalidTid,
    /// The content identifier is invalid.
    InvalidCid,
    /// The content identifier of the key is not that of the blob.
    CidMismatch,
    /// The blob is of a type that is not taken.
    InvalidMimeType,
    /// The blob is of a size that is not taken.
    BlobTooLarge,
    /// The subject names no collection or no record key.
    IncompleteSubject,
    /// The subject is no post.
    SubjectNotAPost,
    /// The profile is not under the key `self`.
    NotSelfKey,
    /// The account is not one that moderates.
    NotModerator,
}

/// Why an event cannot be handled. The event is not acknowledged.
#[derive(Debug, Clone, Copy, PartialEq, Eq, Structural)]
pub enum Failure {
    /// No rule is registered for the collection or the record type.
    NoHandler,
    /// The record is missing or of another type than its collection.
    BadPayload,
}

/// What a rule decides about an event.
#[derive(Debug)]
pub enum Verdict {
    /// Ask the store for this change; the event is acknowledged where the
    /// store takes it.
    Store(StoreAction),
    /// Pass the event over and acknowledge it.
    Reject(Rejection),
    /// Do not acknowledge the event.
    Fail(Failure),
}

impl Verdict {
    /// Whether handling has succeeded, given what the store reported of the
    /// change it was asked for.
    pub open spec fn spec_settles(self, stored: bool) -> bool {
        match self {
            Verdict::Store(_) => stored,
            Verdict::Reject(_) => true,
            Verdict::Fail(_) => false,
        }
    }

    /// Whether handling has succeeded, given what the store reported of the
    /// change it was asked for: a change must have been taken, a record
    /// passed over counts as handled, a failure does not.
    pub fn settles(&self, stored: bool) -> (succeeded: bool)
        ensures
            succeeded == self.spec_settles(stored),
    {
        match self {
            Verdict::Store(_) => stored,
            Verdict::Reject(_) => true,
            Verdict::Fail(_) => false,
        }
    }
}

/// The kind of record that a collection holds.
pub open spec fn record_kind_of(collection: Seq<char>) -> Option<RecordKind> {
    if collection == POST_NSID@ {
        Some(RecordKind::Post)
    } else if collection == FAVOURITE_NSID@ {
        Some(RecordKind::Favourite)
    } else if collection == PROFILE_NSID@ {
        Some(RecordKind::Profile)
    } else if collection == LABEL_NSID@ {
        Some(RecordKind::Label)
    } else {
        None
    }
}

/// The kind of record that a collection holds.
pub fn record_kind(collection: &str) -> (kind: Option<RecordKind>)
    ensures
        kind == record_kind_of(collection@),
{
    if *collection == *POST_NSID {
        Some(RecordKind::Post)
    } else if *collection == *FAVOURITE_NSID {
        Some(RecordKind::Favourite)
    } else if *collection == *PROFILE_NSID {
        Some(RecordKind::Profile)
    } else if *collection == *LABEL_NSID {
        Some(RecordKind::Label)
    } else {
        None
    }
}

/// The kind of record that an event's payload is to be read as: that of
/// the collection, for a create or update event.
pub open spec fn payload_kind_of(event: TapIngestPayload) -> Option<RecordKind> {
    match event {
        TapIngestPayload::Record { record, .. } => match record.action {
            RecordAction::Delete => None,
            _ => record_kind_of(record.collection@),
        },
        TapIngestPayload::Identity { .. } => None,
    }
}

/// The kind of record that an event's payload is to be read as.
pub fn payload_kind(event: &TapIngestPayload) -> (kind: Option<RecordKind>)
    ensures
        kind == payload_kind_of(*event),
{
    match event {
        TapIngestPayload::Record { record, .. } => match record.action {
            RecordAction::Delete => None,
            _ => record_kind(record.collection.as_str()),
        },
        TapIngestPayload::Identity { .. } => None,
    }
}

/// Whether an account has gone for good.
pub open spec fn is_gone(status: Seq<char>) -> bool {
    status == "deleted"@ || status == "takendown"@
}

/// What to do about the state of an account.
pub open spec fn identity_verdict(identity: IdentityData) -> Verdict {
    if is_gone(identity.status@) {
        Verdict::Store(StoreAction::DeleteAccount { did: identity.did })
    } else {
        Verdict::Store(
            StoreAction::UpsertAccount {
                did: identity.did,
                handle: identity.handle,
                is_active: identity.is_active,
                status: identity.status,
            },
        )
    }
}

/// Decides about the state of an account: an account that is deleted or
/// taken down is removed with all that belongs to it; any other is stored
/// with its handle, activity and status.
pub fn handle_identity(identity: IdentityData) -> (verdict: Verdict)
    ensures
        verdict == identity_verdict(identity),
{
    if *identity.status.as_str() == *"deleted" || *identity.status.as_str() == *"takendown" {
        Verdict::Store(StoreAction::DeleteAccount { did: identity.did })
    } else {
        Verdict::Store(
            StoreAction::UpsertAccount {
                did: identity.did,
                handle: identity.handle,
                is_active: identity.is_active,
                status: identity.status,
            },
        )
    }
}

/// Why a key is not that of a post, if it is not: a post's key is a
/// timestamp identifier, a colon and a content identifier.
pub open spec fn post_key_rejection(rkey: Seq<char>) -> Option<Rejection> {
    if !has_colon(rkey) {
        Some(Rejection::MalformedKey)
    } else if !is_tid(before_colon(rkey)) {
        Some(Rejection::InvalidTid)
    } else if !is_cid(after_colon(rkey)) {
        Some(Rejection::InvalidCid)
    } else {
        None
    }
}

/// Whether a blob may be that of a post by its type.
pub open spec fn is_post_mime(mime: Seq<char>) -> bool {
    mime == "image/gif"@ || mime == "image/webp"@
}

/// Why a post is passed over, if it is.
pub open spec fn post_rejection(rkey: Seq<char>, blob: Blob) -> Option<Rejection> {
    if post_key_rejection(rkey) is Some {
        post_key_rejection(rkey)
    } else if after_colon(rkey) != blob.cid@ {
        Some(Rejection::CidMismatch)
    } else if !is_post_mime(blob.mime_type@) {
        Some(Rejection::InvalidMimeType)
    } else if blob.size == POST_BLOB_LIMIT {
        Some(Rejection::BlobTooLarge)
    } else {
        None
    }
}

/// What to do about a post that was created or updated.
pub open spec fn post_create_verdict(record_data: RecordData, data: Post) -> Verdict {
    match post_rejection(record_data.rkey@, data.blob) {
        Some(rejection) => Verdict::Reject(rejection),
        None => Verdict::Store(
            StoreAction::UpsertPost {
                did: record_data.did,
                rkey: record_data.rkey,
                blob_cid: data.blob.cid,
                blob_mime_type: data.blob.mime_type,
                title: data.title,
                blob_alt_text: data.alt,
                tags: if data.tags@.len() == 0 {
                    None
                } else {
                    Some(data.tags)
                },
                languages: match data.languages {
                    Some(languages) if languages@.len() > 0 => Some(languages),
                    _ => None,
                },
                created_at: data.created_at,
            },
        ),
    }
}

/// Checks the key of a post, and hands out the content identifier it
/// names.
pub fn check_post_key(rkey: &str) -> (checked: Result<String, Rejection>)
    ensures
        match checked {
            Ok(cid) => post_key_rejection(rkey@) is None && cid@ == after_colon(rkey@),
            Err(rejection) => post_key_rejection(rkey@) == Some(rejection),
        },
{
    match split_at_colon(rkey) {
        None => Err(Rejection::MalformedKey),
        Some(halves) => {
            if !tid_is_valid(halves.before.as_str()) {
                Err(Rejection::InvalidTid)
            } else if !cid_is_valid(halves.after.as_str()) {
                Err(Rejection::InvalidCid)
            } else {
                Ok(halves.after)
            }
        },
    }
}

/// Decides about a post that was created or updated. The key must be a
/// timestamp identifier, a colon and the content identifier of the blob;
/// the blob must be a GIF or WebP image and not of the size
/// [`POST_BLOB_LIMIT`]. An empty list of tags or languages is stored as
/// none.
pub fn handle_post_create(record_data: RecordData, data: Post) -> (verdict: Verdict)
    ensures
        verdict == post_create_verdict(record_data, data),
{
    match check_post_key(record_data.rkey.as_str()) {
        Err(rejection) => {
            return Verdict::Reject(rejection);
        },
        Ok(cid) => {
            if *cid.as_str() != *data.blob.cid.as_str() {
                return Verdict::Reject(Rejection::CidMismatch);
            }
        },
    }
    if !(*data.blob.mime_type.as_str() == *"image/gif" || *data.blob.mime_type.as_str()
        == *"image/webp") {
        return Verdict::Reject(Rejection::InvalidMimeType);
    }
    if data.blob.size == POST_BLOB_LIMIT {
        return Verdict::Reject(Rejection::BlobTooLarge);
    }
    let tags = if data.tags.len() == 0 {
        None
    } else {
        Some(data.tags)
    };
    let languages = match data.languages {
        Some(languages) => if languages.len() > 0 {
            Some(languages)
        } else {
            None
        },
        None => None,
    };
    Verdict::Store(
        StoreAction::UpsertPost {
            did: record_data.did,
            rkey: record_data.rkey,
            blob_cid: data.blob.cid,
            blob_mime_type: data.blob.mime_type,
            title: data.title,
            blob_alt_text: data.alt,
            tags,
            languages,
            created_at: data.created_at,
        },
    )
}

/// Decides about a post that was deleted: it is removed from the store.
pub fn handle_post_delete(record_data: RecordData) -> (verdict: Verdict)
    ensures
        verdict == Verdict::Store(
            StoreAction::DeletePost { did: record_data.did, rkey: record_data.rkey },
        ),
{
    Verdict::Store(StoreAction::DeletePost { did: record_data.did, rkey: record_data.rkey })
}

/// Why the key of a favourite's subject is refused, if it is: the key must
/// be a timestamp identifier, a colon and a text that is no content
/// identifier.
pub open spec fn subject_key_rejection(rkey: Seq<char>) -> Option<Rejection> {
    if !has_colon(rkey) {
        Some(Rejection::MalformedKey)
    } else if !is_tid(before_colon(rkey)) {
        Some(Rejection::InvalidTid)
    } else if is_cid(after_colon(rkey)) {
        Some(Rejection::InvalidCid)
    } else {
        None
    }
}

/// Why a favourite is passed over, if it is.
pub open spec fn favourite_rejection(rkey: Seq<char>, data: Favourite) -> Option<Rejection> {
    if !is_tid(rkey) {
        Some(Rejection::InvalidTid)
    } else {
        match (data.subject.collection, data.subject.rkey) {
            (Some(collection), Some(subject_rkey)) => {
                if subject_key_rejection(subject_rkey@) is Some {
                    subject_key_rejection(subject_rkey@)
                } else if collection@ != POST_NSID@ {
                    Some(Rejection::SubjectNotAPost)
                } else {
                    None
                }
            },
            _ => Some(Rejection::IncompleteSubject),
        }
    }
}

/// What to do about a favourite that was created or updated.
pub open spec fn favourite_create_verdict(record_data: RecordData, data: Favourite) -> Verdict {
    match favourite_rejection(record_data.rkey@, data) {
        Some(rejection) => Verdict::Reject(rejection),
        None => Verdict::Store(
            StoreAction::UpsertFavourite {
                did: record_data.did,
                rkey: record_data.rkey,
                post_did: data.subject.authority,
                post_rkey: data.subject.rkey->0,
                created_at: data.created_at,
            },
        ),
    }
}

/// Decides about a favourite that was created or updated. The key must be
/// a timestamp identifier; the subject must name a collection and a key,
/// the key must pass [`subject_key_rejection`], and the collection must be
/// that of posts.
pub fn handle_favourite_create_event(record_data: RecordData, data: Favourite) -> (verdict:
    Verdict)
    ensures
        verdict == favourite_create_verdict(record_data, data),
{
    if !tid_is_valid(record_data.rkey.as_str()) {
        return Verdict::Reject(Rejection::InvalidTid);
    }
    let (collection, subject_rkey) = match (data.subject.collection, data.subject.rkey) {
        (Some(collection), Some(subject_rkey)) => (collection, subject_rkey),
        _ => {
            return Verdict::Reject(Rejection::IncompleteSubject);
        },
    };
    match split_at_colon(subject_rkey.as_str()) {
        None => {
            return Verdict::Reject(Rejection::MalformedKey);
        },
        Some(halves) => {
            if !tid_is_valid(halves.before.as_str()) {
                return Verdict::Reject(Rejection::InvalidTid);
            }
            if cid_is_valid(halves.after.as_str()) {
                return Verdict::Reject(Rejection::InvalidCid);
            }
        },
    }
    if *collection.as_str() != *POST_NSID {
        return Verdict::Reject(Rejection::SubjectNotAPost);
    }
    Verdict::Store(
        StoreAction::UpsertFavourite {
            did: record_data.did,
            rkey: record_data.rkey,
            post_did: data.subject.authority,
            post_rkey: subject_rkey,
            created_at: data.created_at,
        },
    )
}

/// Decides about a favourite that was deleted: it is removed from the store.
pub fn handle_favourite_delete_event(record_data: RecordData) -> (verdict: Verdict)
    ensures
        verdict == Verdict::Store(
            StoreAction::DeleteFavourite { did: record_data.did, rkey: record_data.rkey },
        ),
{
    Verdict::Store(StoreAction::DeleteFavourite { did: record_data.did, rkey: record_data.rkey })
}

/// Whether a blob may be an avatar by its type.
pub open spec fn is_avatar_mime(mime: Seq<char>) -> bool {
    mime == "image/png"@ || mime == "image/jpeg"@
}

/// Why an avatar is refused, if it is.
pub open spec fn avatar_rejection(avatar: Blob) -> Option<Rejection> {
    if !is_cid(avatar.cid@) {
        Some(Rejection::InvalidCid)
    } else if !is_avatar_mime(avatar.mime_type@) {
        Some(Rejection::InvalidMimeType)
    } else if avatar.size == AVATAR_BLOB_LIMIT {
        Some(Rejection::BlobTooLarge)
    } else {
        None
    }
}

/// Why a profile is passed over, if it is.
pub open spec fn profile_rejection(rkey: Seq<char>, data: Profile) -> Option<Rejection> {
    if rkey != PROFILE_RKEY@ {
        Some(Rejection::NotSelfKey)
    } else {
        match data.avatar {
            Some(avatar) => avatar_rejection(avatar),
            None => None,
        }
    }
}

/// What to do about a profile that was created or updated.
pub open spec fn profile_create_verdict(record_data: RecordData, data: Profile) -> Verdict {
    match profile_rejection(record_data.rkey@, data) {
        Some(rejection) => Verdict::Reject(rejection),
        None => Verdict::Store(
            StoreAction::UpsertProfile {
                did: record_data.did,
                display_name: data.display_name,
                description: data.description,
                pronouns: data.pronouns,
                avatar_blob_cid: match data.avatar {
                    Some(avatar) => Some(avatar.cid),
                    None => None,
                },
            },
        ),
    }
}

/// Decides about a profile that was created or updated. The key must be
/// `self`; an avatar must have a valid content identifier, be a PNG or
/// JPEG image and not of the size [`AVATAR_BLOB_LIMIT`].
pub fn handle_profile_create_event(record_data: RecordData, data: Profile) -> (verdict: Verdict)
    ensures
        verdict == profile_create_verdict(record_data, data),
{
    if *record_data.rkey.as_str() != *PROFILE_RKEY {
        return Verdict::Reject(Rejection::NotSelfKey);
    }
    let avatar_blob_cid = match data.avatar {
        Some(avatar) => {
            if !cid_is_valid(avatar.cid.as_str()) {
                return Verdict::Reject(Rejection::InvalidCid);
            }
            if !(*avatar.mime_type.as_str() == *"image/png" || *avatar.mime_type.as_str()
                == *"image/jpeg") {
                return Verdict::Reject(Rejection::InvalidMimeType);
            }
            if avatar.size == AVATAR_BLOB_LIMIT {
                return Verdict::Reject(Rejection::BlobTooLarge);
            }
            Some(avatar.cid)
        },
        None => None,
    };
    Verdict::Store(
        StoreAction::UpsertProfile {
            did: record_data.did,
            display_name: data.display_name,
            description: data.description,
            pronouns: data.pronouns,
            avatar_blob_cid,
        },
    )
}

/// What to do about a profile that was deleted.
pub open spec fn profile_delete_verdict(record_data: RecordData) -> Verdict {
    if record_data.rkey@ != PROFILE_RKEY@ {
        Verdict::Reject(Rejection::NotSelfKey)
    } else {
        Verdict::Store(StoreAction::ClearProfile { did: record_data.did })
    }
}

/// Decides about a profile that was deleted: under the key `self`, the
/// profile fields of the account are cleared.
pub fn handle_profile_delete_event(record_data: RecordData) -> (verdict: Verdict)
    ensures
        verdict == profile_delete_verdict(record_data),
{
    if *record_data.rkey.as_str() != *PROFILE_RKEY {
        return Verdict::Reject(Rejection::NotSelfKey);
    }
    Verdict::Store(StoreAction::ClearProfile { did: record_data.did })
}

/// Whether an account is among those that moderate.
pub open spec fn moderates(moderators: Seq<String>, did: Seq<char>) -> bool {
    exists|i: int| 0 <= i < moderators.len() && (#[trigger] moderators[i])@ == did
}

/// Whether an account is among those that moderate.
pub fn is_moderator(moderators: &Vec<String>, did: &str) -> (found: bool)
    ensures
        found == moderates(moderators@, did@),
{
    let mut i: usize = 0;
    while i < moderators.len()
        invariant
            i <= moderators.len(),
            forall|k: int| 0 <= k < i ==> (#[trigger] moderators@[k])@ != did@,
        decreases moderators.len() - i,
    {
        if *moderators[i].as_str() == *did {
            return true;
        }
        i += 1;
    }
    false
}

/// What to do about a label that was created or updated.
pub open spec fn label_create_verdict(moderators: Seq<String>, record_data: RecordData, data: Label)
    -> Verdict {
    if !moderates(moderators, record_data.did@) {
        Verdict::Reject(Rejection::NotModerator)
    } else {
        Verdict::Store(
            StoreAction::UpsertLabel {
                subject: data.subject,
                rkey: record_data.rkey,
                value: data.value,
                reason: data.reason,
                actor: record_data.did,
                expires_at: data.expires_at,
                created_at: data.created_at,
            },
        )
    }
}

/// Decides about a label that was created or updated: the label of an
/// account that moderates is stored, any other is passed over.
pub fn handle_label_create_event(moderators: &Vec<String>, record_data: RecordData, data: Label)
    -> (verdict: Verdict)
    ensures
        verdict == label_create_verdict(moderators@, record_data, data),
{
    if !is_moderator(moderators, record_data.did.as_str()) {
        return Verdict::Reject(Rejection::NotModerator);
    }
    Verdict::Store(
        StoreAction::UpsertLabel {
            subject: data.subject,
            rkey: record_data.rkey,
            value: data.value,
            reason: data.reason,
            actor: record_data.did,
            expires_at: data.expires_at,
            created_at: data.created_at,
        },
    )
}

/// What to do about a label that was deleted.
pub open spec fn label_delete_verdict(moderators: Seq<String>, record_data: RecordData)
    -> Verdict {
    if !moderates(moderators, record_data.did@) {
        Verdict::Reject(Rejection::NotModerator)
    } else {
        Verdict::Store(StoreAction::DeleteLabel { rkey: record_data.rkey })
    }
}

/// Decides about a label that was deleted: the label of an account that
/// moderates is removed, any other is passed over.
pub fn handle_label_delete_event(moderators: &Vec<String>, record_data: RecordData) -> (verdict:
    Verdict)
    ensures
        verdict == label_delete_verdict(moderators@, record_data),
{
    if !is_moderator(moderators, record_data.did.as_str()) {
        return Verdict::Reject(Rejection::NotModerator);
    }
    Verdict::Store(StoreAction::DeleteLabel { rkey: record_data.rkey })
}

/// What to do about a record that was created or updated, given the record
/// as it was read for the kind of its collection.
pub open spec fn create_verdict(
    moderators: Seq<String>,
    record_data: RecordData,
    payload: Option<AtprotoRecord>,
) -> Verdict {
    match record_kind_of(record_data.collection@) {
        None => Verdict::Fail(Failure::NoHandler),
        Some(kind) => match (kind, payload) {
            (RecordKind::Post, Some(AtprotoRecord::FeedPost(data))) => post_create_verdict(
                record_data,
                data,
            ),
            (
                RecordKind::Favourite,
                Some(AtprotoRecord::FeedFavourite(data)),
            ) => favourite_create_verdict(record_data, data),
            (RecordKind::Profile, Some(AtprotoRecord::ActorProfile(data))) => profile_create_verdict(
                record_data,
                data,
            ),
            (RecordKind::Label, Some(AtprotoRecord::ModerationLabel(data))) => label_create_verdict(
                moderators,
                record_data,
                data,
            ),
            _ => Verdict::Fail(Failure::BadPayload),
        },
    }
}

/// What to do about a record that was deleted.
pub open spec fn delete_verdict(moderators: Seq<String>, record_data: RecordData) -> Verdict {
    match record_kind_of(record_data.collection@) {
        None => Verdict::Fail(Failure::NoHandler),
        Some(RecordKind::Post) => Verdict::Store(
            StoreAction::DeletePost { did: record_data.did, rkey: record_data.rkey },
        ),
        Some(RecordKind::Favourite) => Verdict::Store(
            StoreAction::DeleteFavourite { did: record_data.did, rkey: record_data.rkey },
        ),
        Some(RecordKind::Profile) => profile_delete_verdict(record_data),
        Some(RecordKind::Label) => label_delete_verdict(moderators, record_data),
    }
}

/// What to do about an event.
pub open spec fn event_verdict(
    moderators: Seq<String>,
    data: TapIngestPayload,
    payload: Option<AtprotoRecord>,
) -> Verdict {
    match data {
        TapIngestPayload::Identity { identity, .. } => identity_verdict(identity),
        TapIngestPayload::Record { record, .. } => match record.action {
            RecordAction::Delete => delete_verdict(moderators, record),
            _ => create_verdict(moderators, record, payload),
        },
    }
}

/// Decides about an event.
///
/// An identity event goes to [`handle_identity`]. A record event goes by
/// its collection to the rule for posts, favourites, profiles or labels,
/// for creation and update or for deletion; a collection without a rule
/// fails. `payload` is the record of a create or update event, read as
/// [`payload_kind`] says; where it is missing or of another kind, the event
/// fails.
pub fn handle_event(
    moderators: &Vec<String>,
    data: TapIngestPayload,
    payload: Option<AtprotoRecord>,
) -> (verdict: Verdict)
    ensures
        verdict == event_verdict(moderators@, data, payload),
{
    match data {
        TapIngestPayload::Identity { identity, .. } => handle_identity(identity),
        TapIngestPayload::Record { record, .. } => {
            let kind = match record_kind(record.collection.as_str()) {
                Some(kind) => kind,
                None => {
                    return Verdict::Fail(Failure::NoHandler);
                },
            };
            match record.action {
                RecordAction::Delete => match kind {
                    RecordKind::Post => handle_post_delete(record),
                    RecordKind::Favourite => handle_favourite_delete_event(record),
                    RecordKind::Profile => handle_profile_delete_event(record),
                    RecordKind::Label => handle_label_delete_event(moderators, record),
                },
                _ => match (kind, payload) {
                    (RecordKind::Post, Some(AtprotoRecord::FeedPost(post))) => handle_post_create(
                        record,
                        post,
                    ),
                    (
                        RecordKind::Favourite,
                        Some(AtprotoRecord::FeedFavourite(favourite)),
                    ) => handle_favourite_create_event(record, favourite),
                    (
                        RecordKind::Profile,
                        Some(AtprotoRecord::ActorProfile(profile)),
                    ) => handle_profile_create_event(record, profile),
                    (
                        RecordKind::Label,
                        Some(AtprotoRecord::ModerationLabel(label)),
                    ) => handle_label_create_event(moderators, record, label),
                    _ => Verdict::Fail(Failure::BadPayload),
                },
            }
        },
    }
}

/// An event is acknowledged exactly where its verdict settles: a change
/// that the store took, or a record passed over.
pub proof fn lemma_settles(verdict: Verdict, stored: bool)
    ensures
        verdict.spec_settles(stored) <==> (verdict is Reject || (verdict is Store && stored)),
        verdict is Fail ==> !verdict.spec_settles(stored),
{
}

} // verus!
