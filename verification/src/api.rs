//! The events of the channel and their framing.
//!
//! An event arrives as one JSON object in a text frame. The JSON grammar
//! belongs to `serde_json`; which members an event must have, and of what
//! kind, is decided here.

use crate::decimal::{decimal_u64, parse_decimal};
use vstd::prelude::*;

verus! {

/// The state of an account as the upstream service reports it.
#[derive(Debug, Clone)]
pub struct IdentityData {
    /// The identifier of the account.
    pub did: String,
    pub handle: String,
    pub is_active: bool,
    pub status: String,
}

/// What happened to a record.
#[derive(Debug, Clone)]
pub enum RecordAction {
    Create {
        /// The record, as compact JSON text of an object.
        record: String,
        /// The content identifier of the record, where the event carries one.
        cid: Option<String>,
    },
    Update {
        /// The record, as compact JSON text of an object.
        record: String,
        /// The content identifier of the record, where the event carries one.
        cid: Option<String>,
    },
    Delete,
}

/// A change to one record of a repository.
#[derive(Debug, Clone)]
pub struct RecordData {
    /// Whether the event is live rather than replayed.
    pub live: bool,
    /// The identifier of the account that owns the repository.
    pub did: String,
    /// The revision of the repository, where the event carries one.
    pub rev: Option<String>,
    /// The name of the collection.
    pub collection: String,
    /// The key of the record in its collection.
    pub rkey: String,
    pub action: RecordAction,
}

/// One event of the channel. The `id` is what an acknowledgment names.
#[derive(Debug, Clone)]
pub enum TapIngestPayload {
    Record { id: u64, record: RecordData },
    Identity { id: u64, identity: IdentityData },
}

/// A member value of a JSON object, as far as the framing reads it.
#[derive(Debug)]
pub enum JsonValue {
    Bool(bool),
    /// A number, in the notation `serde_json` prints it in.
    Number(String),
    Text(String),
    /// An object, as compact JSON text.
    Object(String),
    /// Null or an array, as compact JSON text.
    Other(String),
}

/// A member of a JSON object.
#[derive(Debug)]
pub struct Member {
    pub key: String,
    pub value: JsonValue,
}

pub enum JsonValueView {
    Bool(bool),
    Number(Seq<char>),
    Text(Seq<char>),
    Object(Seq<char>),
    Other(Seq<char>),
}

pub struct MemberView {
    pub key: Seq<char>,
    pub value: JsonValueView,
}

impl DeepView for JsonValue {
    type V = JsonValueView;

    open spec fn deep_view(&self) -> JsonValueView {
        match self {
            JsonValue::Bool(flag) => JsonValueView::Bool(*flag),
            JsonValue::Number(text) => JsonValueView::Number(text@),
            JsonValue::Text(text) => JsonValueView::Text(text@),
            JsonValue::Object(text) => JsonValueView::Object(text@),
            JsonValue::Other(text) => JsonValueView::Other(text@),
        }
    }
}

impl DeepView for Member {
    type V = MemberView;

    open spec fn deep_view(&self) -> MemberView {
        MemberView { key: self.key@, value: self.value.deep_view() }
    }
}

/// The members of the JSON object that a text denotes, `None` where the text
/// is not JSON or denotes no object.
pub uninterp spec fn json_object_members(text: Seq<char>) -> Option<Seq<MemberView>>;

/// `serde_json::from_str` to a `serde_json::Value`, with the members of the
/// object moved out one by one: a number by `Number::to_string`, an object,
/// an array or null by `Value::to_string`. The contract names the result; it
/// claims nothing of the JSON grammar.
#[verifier::external_body]
fn json_members(text: &str) -> (members: Option<Vec<Member>>)
    ensures
        members.deep_view() == json_object_members(text@),
{
    let map = match serde_json::from_str::<serde_json::Value>(text) {
        Ok(serde_json::Value::Object(map)) => map,
        _ => return None,
    };
    let mut members = Vec::new();
    for (key, value) in map {
        members.push(Member { key, value: match value {
            serde_json::Value::Bool(flag) => JsonValue::Bool(flag),
            serde_json::Value::Number(number) => JsonValue::Number(number.to_string()),
            serde_json::Value::String(text) => JsonValue::Text(text),
            serde_json::Value::Object(map) => JsonValue::Object(serde_json::Value::Object(map).to_string()),
            other => JsonValue::Other(other.to_string()),
        } });
    }
    Some(members)
}

/// The value of the first member with the given key, from an index on.
pub open spec fn member_from(members: Seq<MemberView>, key: Seq<char>, from: int) -> Option<
    JsonValueView,
>
    decreases members.len() - from,
{
    if from < 0 || from >= members.len() {
        None
    } else if members[from].key == key {
        Some(members[from].value)
    } else {
        member_from(members, key, from + 1)
    }
}

/// The value of the first member with the given key.
pub open spec fn member_of(members: Seq<MemberView>, key: Seq<char>) -> Option<JsonValueView> {
    member_from(members, key, 0)
}

/// The member with the given key, where it is a string.
pub open spec fn text_member_of(members: Seq<MemberView>, key: Seq<char>) -> Option<Seq<char>> {
    match member_of(members, key) {
        Some(JsonValueView::Text(text)) => Some(text),
        _ => None,
    }
}

/// The member with the given key, where it is a boolean.
pub open spec fn flag_member_of(members: Seq<MemberView>, key: Seq<char>) -> Option<bool> {
    match member_of(members, key) {
        Some(JsonValueView::Bool(flag)) => Some(flag),
        _ => None,
    }
}

/// The member with the given key, where it is an integer from zero to the
/// largest of 64 bits.
pub open spec fn number_member_of(members: Seq<MemberView>, key: Seq<char>) -> Option<u64> {
    match member_of(members, key) {
        Some(JsonValueView::Number(text)) => decimal_u64(text),
        _ => None,
    }
}

/// The member with the given key, where it is an object.
pub open spec fn object_member_of(members: Seq<MemberView>, key: Seq<char>) -> Option<Seq<char>> {
    match member_of(members, key) {
        Some(JsonValueView::Object(text)) => Some(text),
        _ => None,
    }
}

/// The members of a JSON object, `None` where the text denotes none.
pub fn object_members(text: &str) -> (members: Option<Vec<Member>>)
    ensures
        members.deep_view() == json_object_members(text@),
{
    json_members(text)
}

/// The value of the first member with the given key.
pub fn member<'a>(members: &'a Vec<Member>, key: &str) -> (found: Option<&'a JsonValue>)
    ensures
        found.deep_view() == member_of(members.deep_view(), key@),
{
    let mut i: usize = 0;
    while i < members.len()
        invariant
            i <= members.len(),
            member_of(members.deep_view(), key@) == member_from(
                members.deep_view(),
                key@,
                i as int,
            ),
        decreases members.len() - i,
    {
        assert(members.deep_view()[i as int] == members[i as int].deep_view());
        if *members[i].key.as_str() == *key {
            return Some(&members[i].value);
        }
        i += 1;
    }
    None
}

/// The member with the given key, where it is a string.
pub fn text_member(members: &Vec<Member>, key: &str) -> (found: Option<String>)
    ensures
        found.deep_view() == text_member_of(members.deep_view(), key@),
{
    match member(members, key) {
        Some(JsonValue::Text(text)) => Some(text.clone()),
        _ => None,
    }
}

/// The member with the given key, where it is a boolean.
pub fn flag_member(members: &Vec<Member>, key: &str) -> (found: Option<bool>)
    ensures
        found == flag_member_of(members.deep_view(), key@),
{
    match member(members, key) {
        Some(JsonValue::Bool(flag)) => Some(*flag),
        _ => None,
    }
}

/// The member with the given key, where it is an integer from zero to the
/// largest of 64 bits.
pub fn number_member(members: &Vec<Member>, key: &str) -> (found: Option<u64>)
    ensures
        found == number_member_of(members.deep_view(), key@),
{
    match member(members, key) {
        Some(JsonValue::Number(text)) => parse_decimal(text.as_str()),
        _ => None,
    }
}

/// The member with the given key, where it is an object.
pub fn object_member(members: &Vec<Member>, key: &str) -> (found: Option<String>)
    ensures
        found.deep_view() == object_member_of(members.deep_view(), key@),
{
    match member(members, key) {
        Some(JsonValue::Object(text)) => Some(text.clone()),
        _ => None,
    }
}

/// Whether the members of an object are those of an account's state: a
/// string `did`, a string `handle`, a boolean `is_active`, a string `status`.
pub open spec fn is_identity(members: Seq<MemberView>) -> bool {
    &&& text_member_of(members, "did"@) is Some
    &&& text_member_of(members, "handle"@) is Some
    &&& flag_member_of(members, "is_active"@) is Some
    &&& text_member_of(members, "status"@) is Some
}

/// Whether an account's state is the one that the members of an object give.
pub open spec fn identity_matches(identity: IdentityData, members: Seq<MemberView>) -> bool {
    &&& Some(identity.did@) == text_member_of(members, "did"@)
    &&& Some(identity.handle@) == text_member_of(members, "handle"@)
    &&& Some(identity.is_active) == flag_member_of(members, "is_active"@)
    &&& Some(identity.status@) == text_member_of(members, "status"@)
}

/// Reads an account's state from the members of an object.
pub fn decode_identity(members: &Vec<Member>) -> (decoded: Option<IdentityData>)
    ensures
        decoded is Some <==> is_identity(members.deep_view()),
        decoded matches Some(identity) ==> identity_matches(identity, members.deep_view()),
{
    let did = text_member(members, "did");
    let handle = text_member(members, "handle");
    let is_active = flag_member(members, "is_active");
    let status = text_member(members, "status");
    match (did, handle, is_active, status) {
        (Some(did), Some(handle), Some(is_active), Some(status)) => Some(
            IdentityData { did, handle, is_active, status },
        ),
        _ => None,
    }
}

/// What an object says happened to a record.
pub enum ActionKind {
    Create,
    Update,
    Delete,
}

/// The action that the members of an object name: the string `action` is
/// one of `create`, `update`, `delete`.
pub open spec fn action_kind_of(members: Seq<MemberView>) -> Option<ActionKind> {
    match text_member_of(members, "action"@) {
        Some(name) => if name == "create"@ {
            Some(ActionKind::Create)
        } else if name == "update"@ {
            Some(ActionKind::Update)
        } else if name == "delete"@ {
            Some(ActionKind::Delete)
        } else {
            None
        },
        None => None,
    }
}

/// Whether the members of an object give an action: `create` and `update`
/// come with an object `record`.
pub open spec fn is_action(members: Seq<MemberView>) -> bool {
    match action_kind_of(members) {
        Some(ActionKind::Delete) => true,
        Some(_) => object_member_of(members, "record"@) is Some,
        None => false,
    }
}

/// Whether an action is the one that the members of an object give.
pub open spec fn action_matches(action: RecordAction, members: Seq<MemberView>) -> bool {
    match action {
        RecordAction::Create { record, cid } => {
            &&& action_kind_of(members) is Some
            &&& action_kind_of(members)->0 is Create
            &&& Some(record@) == object_member_of(members, "record"@)
            &&& cid.deep_view() == text_member_of(members, "cid"@)
        },
        RecordAction::Update { record, cid } => {
            &&& action_kind_of(members) is Some
            &&& action_kind_of(members)->0 is Update
            &&& Some(record@) == object_member_of(members, "record"@)
            &&& cid.deep_view() == text_member_of(members, "cid"@)
        },
        RecordAction::Delete => {
            &&& action_kind_of(members) is Some
            &&& action_kind_of(members)->0 is Delete
        },
    }
}

/// Reads what happened to a record from the members of an object.
pub fn decode_action(members: &Vec<Member>) -> (decoded: Option<RecordAction>)
    ensures
        decoded is Some <==> is_action(members.deep_view()),
        decoded matches Some(action) ==> action_matches(action, members.deep_view()),
{
    let name = match text_member(members, "action") {
        Some(name) => name,
        None => {
            return None;
        },
    };
    if *name.as_str() == *"create" {
        match object_member(members, "record") {
            Some(record) => Some(RecordAction::Create { record, cid: text_member(members, "cid") }),
            None => None,
        }
    } else if *name.as_str() == *"update" {
        match object_member(members, "record") {
            Some(record) => Some(RecordAction::Update { record, cid: text_member(members, "cid") }),
            None => None,
        }
    } else if *name.as_str() == *"delete" {
        Some(RecordAction::Delete)
    } else {
        None
    }
}

/// Whether the members of an object are those of a change to a record: a
/// boolean `live`, the strings `did`, `collection` and `rkey`, and an action.
pub open spec fn is_record(members: Seq<MemberView>) -> bool {
    &&& flag_member_of(members, "live"@) is Some
    &&& text_member_of(members, "did"@) is Some
    &&& text_member_of(members, "collection"@) is Some
    &&& text_member_of(members, "rkey"@) is Some
    &&& is_action(members)
}

/// Whether a change is the one that the members of an object give.
pub open spec fn record_matches(record: RecordData, members: Seq<MemberView>) -> bool {
    &&& Some(record.live) == flag_member_of(members, "live"@)
    &&& Some(record.did@) == text_member_of(members, "did"@)
    &&& record.rev.deep_view() == text_member_of(members, "rev"@)
    &&& Some(record.collection@) == text_member_of(members, "collection"@)
    &&& Some(record.rkey@) == text_member_of(members, "rkey"@)
    &&& action_matches(record.action, members)
}

/// Reads a change to a record from the members of an object.
pub fn decode_record(members: &Vec<Member>) -> (decoded: Option<RecordData>)
    ensures
        decoded is Some <==> is_record(members.deep_view()),
        decoded matches Some(record) ==> record_matches(record, members.deep_view()),
{
    let live = flag_member(members, "live");
    let did = text_member(members, "did");
    let collection = text_member(members, "collection");
    let rkey = text_member(members, "rkey");
    let action = decode_action(members);
    match (live, did, collection, rkey, action) {
        (Some(live), Some(did), Some(collection), Some(rkey), Some(action)) => Some(
            RecordData { live, did, rev: text_member(members, "rev"), collection, rkey, action },
        ),
        _ => None,
    }
}

/// The kind of an event.
pub enum EventKind {
    Record,
    Identity,
}

/// The kind that the members of an object name: the string `type` is
/// `record` or `identity`.
pub open spec fn event_kind_of(members: Seq<MemberView>) -> Option<EventKind> {
    match text_member_of(members, "type"@) {
        Some(name) => if name == "record"@ {
            Some(EventKind::Record)
        } else if name == "identity"@ {
            Some(EventKind::Identity)
        } else {
            None
        },
        None => None,
    }
}

/// The members of the body of an event: of the object under `record` for a
/// record event, under `identity` for an identity event.
pub open spec fn event_body_of(members: Seq<MemberView>) -> Option<Seq<MemberView>> {
    match event_kind_of(members) {
        Some(EventKind::Record) => match object_member_of(members, "record"@) {
            Some(body) => json_object_members(body),
            None => None,
        },
        Some(EventKind::Identity) => match object_member_of(members, "identity"@) {
            Some(body) => json_object_members(body),
            None => None,
        },
        None => None,
    }
}

/// Whether a text frames an event: a JSON object with a kind, a numeric
/// `id`, and the body of that kind.
pub open spec fn is_event_text(text: Seq<char>) -> bool {
    match json_object_members(text) {
        Some(members) => {
            &&& number_member_of(members, "id"@) is Some
            &&& match (event_kind_of(members), event_body_of(members)) {
                (Some(EventKind::Record), Some(body)) => is_record(body),
                (Some(EventKind::Identity), Some(body)) => is_identity(body),
                _ => false,
            }
        },
        None => false,
    }
}

/// Whether an event is the one that a text frames.
pub open spec fn event_matches(event: TapIngestPayload, text: Seq<char>) -> bool {
    &&& is_event_text(text)
    &&& {
        let members = json_object_members(text)->0;
        let body = event_body_of(members)->0;
        match event {
            TapIngestPayload::Record { id, record } => {
                &&& event_kind_of(members)->0 is Record
                &&& Some(id) == number_member_of(members, "id"@)
                &&& record_matches(record, body)
            },
            TapIngestPayload::Identity { id, identity } => {
                &&& event_kind_of(members)->0 is Identity
                &&& Some(id) == number_member_of(members, "id"@)
                &&& identity_matches(identity, body)
            },
        }
    }
}

/// Reads the kind of an event from the members of its object.
pub fn event_kind(members: &Vec<Member>) -> (kind: Option<EventKind>)
    ensures
        kind == event_kind_of(members.deep_view()),
{
    match text_member(members, "type") {
        Some(name) => {
            if *name.as_str() == *"record" {
                Some(EventKind::Record)
            } else if *name.as_str() == *"identity" {
                Some(EventKind::Identity)
            } else {
                None
            }
        },
        None => None,
    }
}

/// Puts an event together from the members of its object and the members of
/// its body.
pub fn assemble_event(members: &Vec<Member>, body: &Vec<Member>) -> (event: Option<
    TapIngestPayload,
>)
    ensures
        event is Some <==> {
            &&& number_member_of(members.deep_view(), "id"@) is Some
            &&& match event_kind_of(members.deep_view()) {
                Some(EventKind::Record) => is_record(body.deep_view()),
                Some(EventKind::Identity) => is_identity(body.deep_view()),
                None => false,
            }
        },
        event matches Some(TapIngestPayload::Record { id, record }) ==> {
            &&& event_kind_of(members.deep_view()) == Some(EventKind::Record)
            &&& Some(id) == number_member_of(members.deep_view(), "id"@)
            &&& record_matches(record, body.deep_view())
        },
        event matches Some(TapIngestPayload::Identity { id, identity }) ==> {
            &&& event_kind_of(members.deep_view()) == Some(EventKind::Identity)
            &&& Some(id) == number_member_of(members.deep_view(), "id"@)
            &&& identity_matches(identity, body.deep_view())
        },
{
    let id = match number_member(members, "id") {
        Some(id) => id,
        None => {
            return None;
        },
    };
    match event_kind(members) {
        Some(EventKind::Record) => match decode_record(body) {
            Some(record) => Some(TapIngestPayload::Record { id, record }),
            None => None,
        },
        Some(EventKind::Identity) => match decode_identity(body) {
            Some(identity) => Some(TapIngestPayload::Identity { id, identity }),
            None => None,
        },
        None => None,
    }
}

/// Reads the event that a text frame holds, `None` where the text frames
/// none.
pub fn parse_event(text: &str) -> (event: Option<TapIngestPayload>)
    ensures
        event is Some <==> is_event_text(text@),
        event matches Some(parsed) ==> event_matches(parsed, text@),
{
    let members = match json_members(text) {
        Some(members) => members,
        None => {
            return None;
        },
    };
    let body_text = match event_kind(&members) {
        Some(EventKind::Record) => object_member(&members, "record"),
        Some(EventKind::Identity) => object_member(&members, "identity"),
        None => None,
    };
    let body = match body_text {
        Some(body_text) => match json_members(body_text.as_str()) {
            Some(body) => body,
            None => {
                return None;
            },
        },
        None => {
            return None;
        },
    };
    assemble_event(&members, &body)
}

impl TapIngestPayload {
    /// The identifier that an acknowledgment of the event names.
    pub open spec fn spec_id(self) -> u64 {
        match self {
            TapIngestPayload::Record { id, .. } => id,
            TapIngestPayload::Identity { id, .. } => id,
        }
    }

    /// The identifier that an acknowledgment of the event names.
    pub fn id(&self) -> (id: u64)
        ensures
            id == self.spec_id(),
    {
        match self {
            TapIngestPayload::Record { id, .. } => *id,
            TapIngestPayload::Identity { id, .. } => *id,
        }
    }
}

} // verus!
