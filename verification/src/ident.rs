//! The identifiers that the rules read: timestamp identifiers, account
//! identifiers, content identifiers, and record keys made of two of them.

use crate::text::{byte_len, chars_of, text_of_range};
use vstd::prelude::*;
use vstd::string::StringExecFns;

verus! {

/// A character of the sortable base32 alphabet.
pub open spec fn is_tid_char(c: char) -> bool {
    ('2' <= c && c <= '7') || ('a' <= c && c <= 'z')
}

/// A character that a timestamp identifier may begin with.
pub open spec fn is_tid_first_char(c: char) -> bool {
    ('2' <= c && c <= '7') || ('a' <= c && c <= 'j')
}

/// Whether a text is a timestamp identifier: thirteen characters of the
/// sortable base32 alphabet, the first of its lower half.
pub open spec fn is_tid(text: Seq<char>) -> bool {
    &&& text.len() == 13
    &&& is_tid_first_char(text[0])
    &&& forall|i: int| 1 <= i < 13 ==> is_tid_char(#[trigger] text[i])
}

fn tid_char(c: char) -> (ok: bool)
    ensures
        ok == is_tid_char(c),
{
    ('2' <= c && c <= '7') || ('a' <= c && c <= 'z')
}

/// Whether a text is a timestamp identifier.
pub fn tid_is_valid(text: &str) -> (valid: bool)
    ensures
        valid == is_tid(text@),
{
    let chars = chars_of(text);
    if chars.len() != 13 {
        return false;
    }
    let first = chars[0];
    if !(('2' <= first && first <= '7') || ('a' <= first && first <= 'j')) {
        return false;
    }
    let mut i: usize = 1;
    while i < 13
        invariant
            1 <= i <= 13,
            chars@ == text@,
            chars@.len() == 13,
            forall|k: int| 1 <= k < i ==> is_tid_char(#[trigger] chars@[k]),
        decreases 13 - i,
    {
        if !tid_char(chars[i]) {
            return false;
        }
        i += 1;
    }
    true
}

/// A letter or a digit of ASCII.
pub open spec fn is_alphanumeric(c: char) -> bool {
    ('a' <= c && c <= 'z') || ('A' <= c && c <= 'Z') || ('0' <= c && c <= '9')
}

/// A character that the method-specific part of an account identifier may
/// end with.
pub open spec fn is_did_end_char(c: char) -> bool {
    is_alphanumeric(c) || c == '.' || c == '_' || c == '-'
}

/// A character of the method-specific part of an account identifier.
pub open spec fn is_did_char(c: char) -> bool {
    is_did_end_char(c) || c == ':' || c == '%'
}

/// The most bytes an account identifier may have.
pub const DID_MAX_BYTES: usize = 2048;

/// Whether a text is an account identifier with its method name ending
/// before index `colon`: `did:`, lower-case letters, a colon, and a part of
/// identifier characters that does not end in a colon or percent sign.
pub open spec fn is_did_split_at(text: Seq<char>, colon: int) -> bool {
    &&& 4 < colon < text.len() - 1
    &&& text[0] == 'd' && text[1] == 'i' && text[2] == 'd' && text[3] == ':'
    &&& forall|i: int| 4 <= i < colon ==> 'a' <= #[trigger] text[i] <= 'z'
    &&& text[colon] == ':'
    &&& forall|i: int| colon < i < text.len() ==> is_did_char(#[trigger] text[i])
    &&& is_did_end_char(text.last())
}

/// Whether a text is an account identifier, of at most [`DID_MAX_BYTES`]
/// bytes.
pub open spec fn is_did(text: Seq<char>) -> bool {
    byte_len(text) <= DID_MAX_BYTES && exists|colon: int| is_did_split_at(text, colon)
}

fn did_char(c: char) -> (ok: bool)
    ensures
        ok == is_did_char(c),
{
    did_end_char(c) || c == ':' || c == '%'
}

fn did_end_char(c: char) -> (ok: bool)
    ensures
        ok == is_did_end_char(c),
{
    ('a' <= c && c <= 'z') || ('A' <= c && c <= 'Z') || ('0' <= c && c <= '9') || c == '.' || c
        == '_' || c == '-'
}

/// Whether a text is an account identifier.
pub fn did_is_valid(text: &str) -> (valid: bool)
    ensures
        valid == is_did(text@),
{
    if text.as_bytes().len() > DID_MAX_BYTES {
        return false;
    }
    let chars = chars_of(text);
    let n = chars.len();
    if n < 7 {
        assert forall|colon: int| !is_did_split_at(text@, colon) by {}
        return false;
    }
    if chars[0] != 'd' || chars[1] != 'i' || chars[2] != 'd' || chars[3] != ':' {
        return false;
    }
    let mut colon: usize = 4;
    while colon < n && 'a' <= chars[colon] && chars[colon] <= 'z'
        invariant
            4 <= colon <= n,
            n == chars@.len(),
            chars@ == text@,
            forall|i: int| 4 <= i < colon ==> 'a' <= #[trigger] chars@[i] <= 'z',
        decreases n - colon,
    {
        colon += 1;
    }
    if colon == 4 || colon >= n - 1 || chars[colon] != ':' {
        assert forall|other: int| !is_did_split_at(text@, other) by {
            if is_did_split_at(text@, other) {
                if other < colon {
                    assert('a' <= chars@[other] <= 'z');
                } else if other > colon {
                    assert('a' <= chars@[colon as int] <= 'z');
                }
            }
        }
        return false;
    }
    let mut i: usize = colon + 1;
    while i < n
        invariant
            4 < colon < i <= n,
            n == chars@.len(),
            chars@ == text@,
            chars@[colon as int] == ':',
            forall|k: int| 4 <= k < colon ==> 'a' <= #[trigger] chars@[k] <= 'z',
            forall|k: int| colon < k < i ==> is_did_char(#[trigger] chars@[k]),
        decreases n - i,
    {
        if !did_char(chars[i]) {
            assert forall|other: int| !is_did_split_at(text@, other) by {
                if is_did_split_at(text@, other) {
                    if other < colon {
                        assert('a' <= chars@[other] <= 'z');
                    } else if other > colon {
                        assert('a' <= chars@[colon as int] <= 'z');
                    } else {
                        assert(is_did_char(chars@[i as int]));
                    }
                }
            }
            return false;
        }
        i += 1;
    }
    if !did_end_char(chars[n - 1]) {
        assert(!is_did_end_char(text@.last()));
        return false;
    }
    assert(is_did_split_at(text@, colon as int));
    true
}

/// An account identifier.
#[derive(Debug)]
pub struct Did {
    text: String,
}

impl View for Did {
    type V = Seq<char>;

    closed spec fn view(&self) -> Seq<char> {
        self.text@
    }
}

impl Did {
    #[verifier::type_invariant]
    spec fn valid(self) -> bool {
        is_did(self.text@)
    }

    /// Reads an account identifier, `None` where the text is none.
    pub fn new(text: &str) -> (did: Option<Did>)
        ensures
            did is Some <==> is_did(text@),
            did matches Some(d) ==> d@ == text@,
    {
        if did_is_valid(text) {
            Some(Did { text: String::from_str(text) })
        } else {
            None
        }
    }

    /// The text of the identifier.
    pub fn as_str(&self) -> (text: &str)
        ensures
            text@ == self@,
            is_did(text@),
    {
        proof {
            use_type_invariant(self);
        }
        self.text.as_str()
    }
}

/// The index of the first colon in a text from an index on; the length of
/// the text where there is none.
pub open spec fn colon_from(text: Seq<char>, from: int) -> int
    decreases text.len() - from,
{
    if from < 0 || from >= text.len() {
        text.len() as int
    } else if text[from] == ':' {
        from
    } else {
        colon_from(text, from + 1)
    }
}

/// Whether a text holds a colon.
pub open spec fn has_colon(text: Seq<char>) -> bool {
    colon_from(text, 0) < text.len()
}

/// What stands before the first colon of a text.
pub open spec fn before_colon(text: Seq<char>) -> Seq<char> {
    text.take(colon_from(text, 0))
}

/// What stands after the first colon of a text.
pub open spec fn after_colon(text: Seq<char>) -> Seq<char> {
    text.skip(colon_from(text, 0) + 1)
}

/// The two parts of a text around its first colon.
#[derive(Debug)]
pub struct Halves {
    /// What stands before the first colon.
    pub before: String,
    /// What stands after the first colon.
    pub after: String,
}

/// Splits a text at its first colon, `None` where it holds none.
pub fn split_at_colon(text: &str) -> (halves: Option<Halves>)
    ensures
        halves is Some <==> has_colon(text@),
        halves matches Some(parts) ==> parts.before@ == before_colon(text@) && parts.after@
            == after_colon(text@),
{
    let chars = chars_of(text);
    let mut at: usize = 0;
    while at < chars.len()
        invariant
            at <= chars.len(),
            chars@ == text@,
            colon_from(text@, 0) == colon_from(text@, at as int),
        decreases chars.len() - at,
    {
        if chars[at] == ':' {
            let before = text_of_range(&chars, 0, at);
            let after = text_of_range(&chars, at + 1, chars.len());
            assert(chars@.subrange(0, at as int) =~= text@.take(at as int));
            assert(chars@.subrange(at as int + 1, chars@.len() as int) =~= text@.skip(
                at as int + 1,
            ));
            return Some(Halves { before, after });
        }
        at += 1;
    }
    None
}

/// What the rules read of a reference to a record or repository.
pub struct ReferenceView {
    pub authority: Seq<char>,
    pub collection: Option<Seq<char>>,
    pub rkey: Option<Seq<char>>,
}

/// A reference of the form `at://authority/collection/rkey`, held as its
/// parts.
#[derive(Debug)]
pub struct Reference {
    /// The account that the reference points into.
    pub authority: String,
    /// The collection, where the reference names one.
    pub collection: Option<String>,
    /// The record key, where the reference names one.
    pub rkey: Option<String>,
}

impl View for Reference {
    type V = ReferenceView;

    open spec fn view(&self) -> ReferenceView {
        ReferenceView {
            authority: self.authority@,
            collection: self.collection.deep_view(),
            rkey: self.rkey.deep_view(),
        }
    }
}

impl DeepView for Reference {
    type V = ReferenceView;

    open spec fn deep_view(&self) -> ReferenceView {
        self@
    }
}

/// The most bytes of a reference: its parts are found by 16-bit indices.
pub const REFERENCE_MAX_BYTES: usize = 0xffff;

/// The reference that a text denotes, `None` where it denotes none.
pub uninterp spec fn parsed_reference(text: Seq<char>) -> Option<ReferenceView>;

/// What [`Reference::parse`] gives: the reference that a text of at most
/// [`REFERENCE_MAX_BYTES`] bytes denotes.
pub open spec fn reference_of(text: Seq<char>) -> Option<ReferenceView> {
    if byte_len(text) <= REFERENCE_MAX_BYTES {
        parsed_reference(text)
    } else {
        None
    }
}

/// `jacquard_common::types::aturi::AtUri::new`, with the `authority`, the
/// `collection` and the `rkey` of the result moved into a [`Reference`].
/// The contract names the result. The accessors index the text by 16 bits;
/// the `requires` leaves longer texts out.
#[verifier::external_body]
fn reference_parse(text: &str) -> (parsed: Option<Reference>)
    requires
        byte_len(text@) <= REFERENCE_MAX_BYTES,
    ensures
        parsed.deep_view() == parsed_reference(text@),
{
    match jacquard_common::types::aturi::AtUri::new(text) {
        Ok(uri) => Some(Reference {
            authority: uri.authority().as_str().to_string(),
            collection: match uri.collection() { Some(nsid) => Some(nsid.as_str().to_string()), None => None },
            rkey: match uri.rkey() { Some(rkey) => Some(rkey.as_str().to_string()), None => None },
        }),
        Err(_) => None,
    }
}

impl Reference {
    /// Reads a reference.
    pub fn parse(text: &str) -> (parsed: Option<Reference>)
        ensures
            parsed.deep_view() == reference_of(text@),
    {
        if text.as_bytes().len() > REFERENCE_MAX_BYTES {
            return None;
        }
        reference_parse(text)
    }
}

/// What the rules read of a content identifier.
pub struct ContentIdView {
    pub canonical: Seq<char>,
    pub hash_code: u64,
}

/// A content identifier, held as its canonical text and the code of its
/// hash function.
#[derive(Debug)]
pub struct ContentId {
    canonical: String,
    hash_code: u64,
}

impl View for ContentId {
    type V = ContentIdView;

    closed spec fn view(&self) -> ContentIdView {
        ContentIdView { canonical: self.canonical@, hash_code: self.hash_code }
    }
}

impl DeepView for ContentId {
    type V = ContentIdView;

    open spec fn deep_view(&self) -> ContentIdView {
        self@
    }
}

/// The content identifier that a text denotes, `None` where it denotes none.
pub uninterp spec fn parsed_cid(text: Seq<char>) -> Option<ContentIdView>;

/// Whether a text denotes a content identifier.
pub open spec fn is_cid(text: Seq<char>) -> bool {
    parsed_cid(text) is Some
}

/// `cid::Cid::try_from` on a string, with the result's `to_string` and the
/// `code` of its `hash` moved into a [`ContentId`]. The contract names the
/// result.
#[verifier::external_body]
fn cid_parse(text: &str) -> (parsed: Option<ContentId>)
    ensures
        parsed.deep_view() == parsed_cid(text@),
{
    match cid::Cid::try_from(text) {
        Ok(cid) => Some(ContentId { canonical: cid.to_string(), hash_code: cid.hash().code() }),
        Err(_) => None,
    }
}

impl ContentId {
    /// Reads a content identifier.
    pub fn parse(text: &str) -> (parsed: Option<ContentId>)
        ensures
            parsed.deep_view() == parsed_cid(text@),
    {
        cid_parse(text)
    }

    /// The canonical text of the identifier.
    pub fn as_str(&self) -> (canonical: &str)
        ensures
            canonical@ == self@.canonical,
    {
        self.canonical.as_str()
    }

    /// The code of the hash function of the identifier.
    pub fn hash_code(&self) -> (code: u64)
        ensures
            code == self@.hash_code,
    {
        self.hash_code
    }
}

/// Whether a text denotes a content identifier.
pub fn cid_is_valid(text: &str) -> (valid: bool)
    ensures
        valid == is_cid(text@),
{
    cid_parse(text).is_some()
}

} // verus!
