//! The rules of the media gateway: which requests it takes, where it
//! fetches a blob, how much of it, and what it answers.

use crate::client::{is_success, status_is_success, TapRequestError};
use crate::endpoint::{url_joined, with_query_of, Endpoint, EndpointView};
use crate::ident::{
    before_colon, has_colon, is_did, is_tid, parsed_cid, split_at_colon, tid_is_valid, ContentId,
    ContentIdView, Did,
};
use crate::identity::{document_host, repository_host_of, DidDocument};
use crate::text::concat2;
use multihash_codetable::MultihashDigest;
use vstd::prelude::*;
use vstd::string::StringExecFns;

verus! {

/// The status for a path that is not taken.
pub const BAD_REQUEST: u16 = 400;

/// The status for a blob that the store does not know.
pub const NOT_FOUND: u16 = 404;

/// The status for a blob that is larger than its medium allows.
pub const PAYLOAD_TOO_LARGE: u16 = 413;

/// The status for a blob or an identifier that cannot be served.
pub const UNPROCESSABLE_ENTITY: u16 = 422;

/// The status for a failure of the gateway itself.
pub const INTERNAL_SERVER_ERROR: u16 = 500;

/// The status for a failure of the upstream service or a repository host.
pub const BAD_GATEWAY: u16 = 502;

/// The most bytes of an avatar.
pub const MAX_AVATAR_SIZE: usize = 3 * 1024 * 1024;

/// The most bytes of an animation.
pub const MAX_BLOB_SIZE: usize = 10 * 1024 * 1024;

/// The path that a repository host serves blobs under.
pub const GET_BLOB_PATH: &'static str = "/xrpc/com.atproto.sync.getBlob";

/// The code of the SHA-256 hash function.
pub const SHA2_256: u64 = 0x12;

/// The codec of raw content.
pub const RAW_CODEC: u64 = 0x55;

/// What stands for the host of a repository that has none.
pub const UNKNOWN_HOST: &'static str = "unknown";

/// An answer that refuses a request.
#[derive(Debug)]
pub struct Refusal {
    /// The HTTP status of the answer.
    pub status: u16,
    /// The body of the answer.
    pub message: &'static str,
}

/// Whether a refusal has the given status and body.
pub open spec fn refuses_with(refusal: Refusal, status: u16, message: Seq<char>) -> bool {
    refusal.status == status && refusal.message@ == message
}

/// What a lookup in the store gave.
#[derive(Debug)]
pub enum Lookup {
    /// The store holds the row, with this content identifier of the blob.
    Found(String),
    /// The store holds no such row.
    Missing,
    /// The store failed.
    Failed,
}

/// What the resolution of an account gave.
#[derive(Debug)]
pub enum Resolution {
    /// The identity document names this repository host.
    Host(Endpoint),
    /// The identity document names no repository host.
    NoHost,
    /// The identity document could not be had.
    Failed,
}

/// How the fetch of a blob began.
#[derive(Debug, Clone, Copy)]
pub enum Fetch {
    /// The repository host answered with this status.
    Answered(u16),
    /// The repository host could not be reached.
    Failed,
}

/// The two media that the gateway serves.
#[derive(Debug, Clone, Copy, PartialEq, Eq, Structural)]
pub enum Medium {
    Gif,
    Avatar,
}

/// The file type that the first bytes of a blob show, `None` where they
/// show none that is known.
pub uninterp spec fn sniffed_mime(bytes: Seq<u8>) -> Option<Seq<char>>;

/// The text of the content identifier, version 1, of the SHA-256 hash of a
/// byte string under a codec.
pub uninterp spec fn sha256_cid(codec: u64, bytes: Seq<u8>) -> Seq<char>;

/// `infer::get`, with the `mime_type` of the result. The contract names the
/// result.
#[verifier::external_body]
fn sniff_mime(bytes: &[u8]) -> (mime: Option<&'static str>)
    ensures
        mime.deep_view() == sniffed_mime(bytes@),
{
    match infer::get(bytes) {
        Some(kind) => Some(kind.mime_type()),
        None => None,
    }
}

/// `multihash_codetable::Code::Sha2_256.digest`, made a content identifier
/// by `cid::Cid::new_v1` and a text by its `to_string`. The contract names
/// the result.
#[verifier::external_body]
fn sha256_cid_text(codec: u64, bytes: &[u8]) -> (text: String)
    ensures
        text@ == sha256_cid(codec, bytes@),
{
    cid::Cid::new_v1(codec, multihash_codetable::Code::Sha2_256.digest(bytes)).to_string()
}

/// The file type that the first bytes of a blob show.
pub fn mime_of(bytes: &[u8]) -> (mime: Option<&'static str>)
    ensures
        mime.deep_view() == sniffed_mime(bytes@),
{
    sniff_mime(bytes)
}

/// The text of the content identifier of raw content.
pub fn raw_cid_of(bytes: &[u8]) -> (text: String)
    ensures
        text@ == sha256_cid(RAW_CODEC, bytes@),
{
    sha256_cid_text(RAW_CODEC, bytes)
}

/// Whether the path of a request for an animation is taken: the account
/// must be an account identifier, and the key a timestamp identifier, a
/// colon and more.
pub open spec fn is_gif_path(did: Seq<char>, rkey: Seq<char>) -> bool {
    is_did(did) && has_colon(rkey) && is_tid(before_colon(rkey))
}

/// Checks the path of a request for an animation.
pub fn gif_request(did: &str, rkey: &str) -> (checked: Result<Did, Refusal>)
    ensures
        checked is Ok <==> is_gif_path(did@, rkey@),
        checked matches Ok(account) ==> account@ == did@,
        checked matches Err(refusal) ==> refuses_with(refusal, BAD_REQUEST, ""@),
{
    let account = match Did::new(did) {
        Some(account) => account,
        None => {
            return Err(Refusal { status: BAD_REQUEST, message: "" });
        },
    };
    match split_at_colon(rkey) {
        Some(halves) => {
            if tid_is_valid(halves.before.as_str()) {
                Ok(account)
            } else {
                Err(Refusal { status: BAD_REQUEST, message: "" })
            }
        },
        None => Err(Refusal { status: BAD_REQUEST, message: "" }),
    }
}

/// The path of a request for an avatar, as it was read.
#[derive(Debug)]
pub struct AvatarPath {
    pub did: Did,
    pub cid: ContentId,
}

/// Checks the path of a request for an avatar: the account must be an
/// account identifier and the rest a content identifier.
pub fn avatar_request(did: &str, cid: &str) -> (checked: Result<AvatarPath, Refusal>)
    ensures
        checked is Ok <==> (is_did(did@) && parsed_cid(cid@) is Some),
        checked matches Ok(path) ==> path.did@ == did@ && Some(path.cid@) == parsed_cid(cid@),
        checked matches Err(refusal) ==> refuses_with(
            refusal,
            UNPROCESSABLE_ENTITY,
            if is_did(did@) {
                "Invalid or unprocessable CID"@
            } else {
                "Invalid or unprocessable DID"@
            },
        ),
{
    let account = match Did::new(did) {
        Some(account) => account,
        None => {
            return Err(
                Refusal { status: UNPROCESSABLE_ENTITY, message: "Invalid or unprocessable DID" },
            );
        },
    };
    match ContentId::parse(cid) {
        Some(cid) => Ok(AvatarPath { did: account, cid }),
        None => Err(
            Refusal { status: UNPROCESSABLE_ENTITY, message: "Invalid or unprocessable CID" },
        ),
    }
}

/// What a lookup in the store means for a request: the content identifier
/// of the blob where the row is there, `404` where it is not, `500` where
/// the store failed.
pub fn stored_blob(medium: Medium, lookup: Lookup) -> (found: Result<String, Refusal>)
    ensures
        match lookup {
            Lookup::Found(cid) => found == Ok::<String, Refusal>(cid),
            Lookup::Missing => found matches Err(refusal) && refuses_with(
                refusal,
                NOT_FOUND,
                match medium {
                    Medium::Gif => ""@,
                    Medium::Avatar => "Blob CID does not match account record blog CID"@,
                },
            ),
            Lookup::Failed => found matches Err(refusal) && refuses_with(
                refusal,
                INTERNAL_SERVER_ERROR,
                ""@,
            ),
        },
{
    match lookup {
        Lookup::Found(cid) => Ok(cid),
        Lookup::Missing => Err(
            Refusal {
                status: NOT_FOUND,
                message: match medium {
                    Medium::Gif => "",
                    Medium::Avatar => "Blob CID does not match account record blog CID",
                },
            },
        ),
        Lookup::Failed => Err(Refusal { status: INTERNAL_SERVER_ERROR, message: "" }),
    }
}

/// What the resolution of an account gave, by what came of the request for
/// its identity document.
pub open spec fn resolution_of(resolved: Result<DidDocument, TapRequestError>) -> Option<
    EndpointView,
> {
    match resolved {
        Ok(document) => repository_host_of(document@),
        Err(_) => None,
    }
}

/// Sorts out what came of the request for an identity document: the
/// repository host where the document names one, no host where it names
/// none, a failure where there is no document.
pub fn resolve(resolved: Result<DidDocument, TapRequestError>) -> (resolution: Resolution)
    ensures
        match resolution {
            Resolution::Host(endpoint) => resolved is Ok && resolution_of(resolved) == Some(
                endpoint@,
            ),
            Resolution::NoHost => resolved is Ok && resolution_of(resolved) is None,
            Resolution::Failed => resolved is Err,
        },
{
    match resolved {
        Ok(document) => match document_host(&document) {
            Some(endpoint) => Resolution::Host(endpoint),
            None => Resolution::NoHost,
        },
        Err(_) => Resolution::Failed,
    }
}

/// The status for an account whose identity document names no repository
/// host: `502` for an animation, `404` for an avatar.
pub open spec fn no_host_status(medium: Medium) -> u16 {
    match medium {
        Medium::Gif => BAD_GATEWAY,
        Medium::Avatar => NOT_FOUND,
    }
}

/// What the resolution of an account means for a request: the repository
/// host where there is one, `502` where the document could not be had, and
/// [`no_host_status`] where it names no host.
pub fn repository_host(medium: Medium, resolution: Resolution) -> (host: Result<Endpoint, Refusal>)
    ensures
        match resolution {
            Resolution::Host(endpoint) => host == Ok::<Endpoint, Refusal>(endpoint),
            Resolution::NoHost => host matches Err(refusal) && refuses_with(
                refusal,
                no_host_status(medium),
                match medium {
                    Medium::Gif => ""@,
                    Medium::Avatar => "No AtprotoPersonalDataServer service endpoint found in resolved DID document"@,
                },
            ),
            Resolution::Failed => host matches Err(refusal) && refuses_with(
                refusal,
                BAD_GATEWAY,
                match medium {
                    Medium::Gif => ""@,
                    Medium::Avatar => "Failed to resolve DID"@,
                },
            ),
        },
{
    match resolution {
        Resolution::Host(endpoint) => Ok(endpoint),
        Resolution::NoHost => match medium {
            Medium::Gif => Err(Refusal { status: BAD_GATEWAY, message: "" }),
            Medium::Avatar => Err(
                Refusal {
                    status: NOT_FOUND,
                    message: "No AtprotoPersonalDataServer service endpoint found in resolved DID document",
                },
            ),
        },
        Resolution::Failed => match medium {
            Medium::Gif => Err(Refusal { status: BAD_GATEWAY, message: "" }),
            Medium::Avatar => Err(
                Refusal { status: BAD_GATEWAY, message: "Failed to resolve DID" },
            ),
        },
    }
}

/// The query of a request for a blob.
pub open spec fn blob_query_of(did: Seq<char>, cid: Seq<char>) -> Seq<char> {
    "did="@ + did + "&cid="@ + cid
}

/// The address that a blob is fetched from: [`GET_BLOB_PATH`] on the
/// repository host, with the account and the content identifier as query.
pub open spec fn blob_url_of(host: EndpointView, did: Seq<char>, cid: Seq<char>) -> Option<
    EndpointView,
> {
    match url_joined(host.href, GET_BLOB_PATH@) {
        Some(url) => with_query_of(url.href, blob_query_of(did, cid)),
        None => None,
    }
}

/// The address that a blob is fetched from; `500` where there is none.
pub fn blob_url(host: &Endpoint, did: &Did, cid: &str) -> (url: Result<Endpoint, Refusal>)
    ensures
        url is Ok <==> blob_url_of(host@, did@, cid@) is Some,
        url matches Ok(address) ==> Some(address@) == blob_url_of(host@, did@, cid@),
        url matches Err(refusal) ==> refuses_with(refusal, INTERNAL_SERVER_ERROR, ""@),
{
    let base = match host.join(GET_BLOB_PATH) {
        Some(base) => base,
        None => {
            return Err(Refusal { status: INTERNAL_SERVER_ERROR, message: "" });
        },
    };
    let mut query = concat2("did=", did.as_str());
    query.append("&cid=");
    query.append(cid);
    match base.with_query(query.as_str()) {
        Some(address) => Ok(address),
        None => Err(Refusal { status: INTERNAL_SERVER_ERROR, message: "" }),
    }
}

/// Whether the fetch of a blob goes on: the repository host must have
/// answered with a status of the 2xx class.
pub open spec fn fetch_goes_on(fetch: Fetch) -> bool {
    match fetch {
        Fetch::Answered(status) => is_success(status),
        Fetch::Failed => false,
    }
}

/// What the beginning of a fetch means for a request: `502` unless the
/// repository host answered with a status of the 2xx class.
pub fn fetched(medium: Medium, fetch: Fetch) -> (checked: Result<(), Refusal>)
    ensures
        checked is Ok <==> fetch_goes_on(fetch),
        checked matches Err(refusal) ==> refuses_with(
            refusal,
            BAD_GATEWAY,
            match medium {
                Medium::Gif => ""@,
                Medium::Avatar => "Failed to fetch blob from upstream PDS"@,
            },
        ),
{
    let goes_on = match fetch {
        Fetch::Answered(status) => status_is_success(status),
        Fetch::Failed => false,
    };
    if goes_on {
        Ok(())
    } else {
        Err(
            Refusal {
                status: BAD_GATEWAY,
                message: match medium {
                    Medium::Gif => "",
                    Medium::Avatar => "Failed to fetch blob from upstream PDS",
                },
            },
        )
    }
}

/// The bytes of a blob as they arrive, never more than a limit.
#[derive(Debug)]
pub struct BlobBuffer {
    bytes: Vec<u8>,
    limit: usize,
}

impl BlobBuffer {
    #[verifier::type_invariant]
    spec fn valid(self) -> bool {
        self.bytes@.len() <= self.limit
    }

    /// The bytes that have arrived.
    pub closed spec fn bytes(self) -> Seq<u8> {
        self.bytes@
    }

    /// The most bytes that may arrive.
    pub closed spec fn limit(self) -> usize {
        self.limit
    }

    /// An empty buffer for the given limit.
    pub fn new(limit: usize) -> (buffer: Self)
        ensures
            buffer.bytes().len() == 0,
            buffer.limit() == limit,
    {
        BlobBuffer { bytes: Vec::new(), limit }
    }

    /// An empty buffer with the limit of a medium.
    pub fn for_medium(medium: Medium) -> (buffer: Self)
        ensures
            buffer.bytes().len() == 0,
            buffer.limit() == match medium {
                Medium::Gif => MAX_BLOB_SIZE,
                Medium::Avatar => MAX_AVATAR_SIZE,
            },
    {
        match medium {
            Medium::Gif => BlobBuffer::new(MAX_BLOB_SIZE),
            Medium::Avatar => BlobBuffer::new(MAX_AVATAR_SIZE),
        }
    }

    /// The number of bytes that have arrived; never more than the limit.
    pub fn len(&self) -> (len: usize)
        ensures
            len == self.bytes().len(),
            len <= self.limit(),
    {
        proof {
            use_type_invariant(self);
        }
        self.bytes.len()
    }

    /// Takes the next chunk: appended where the whole stays within the
    /// limit; otherwise nothing changes and the request is refused with
    /// `413`.
    pub fn push(&mut self, chunk: &[u8]) -> (taken: Result<(), Refusal>)
        ensures
            final(self).limit() == old(self).limit(),
            taken is Ok <==> old(self).bytes().len() + chunk@.len() <= old(self).limit(),
            taken is Ok ==> final(self).bytes() == old(self).bytes() + chunk@,
            taken matches Err(refusal) ==> refuses_with(refusal, PAYLOAD_TOO_LARGE, ""@),
            taken is Err ==> final(self).bytes() == old(self).bytes(),
    {
        proof {
            use_type_invariant(&*self);
        }
        if chunk.len() > self.limit - self.bytes.len() {
            return Err(Refusal { status: PAYLOAD_TOO_LARGE, message: "" });
        }
        let mut bytes: Vec<u8> = Vec::new();
        std::mem::swap(&mut bytes, &mut self.bytes);
        let ghost before = bytes@;
        let mut i: usize = 0;
        while i < chunk.len()
            invariant
                i <= chunk@.len(),
                bytes@ == before + chunk@.take(i as int),
                before.len() + chunk@.len() <= self.limit,
                self.bytes@.len() == 0,
            decreases chunk@.len() - i,
        {
            bytes.push(chunk[i]);
            proof {
                assert(chunk@.take(i as int + 1) =~= chunk@.take(i as int).push(chunk@[i as int]));
                assert(before + chunk@.take(i as int + 1) =~= (before + chunk@.take(
                    i as int,
                )).push(chunk@[i as int]));
            }
            i += 1;
        }
        proof {
            assert(chunk@.take(chunk@.len() as int) =~= chunk@);
        }
        *self = BlobBuffer { bytes, limit: self.limit };
        Ok(())
    }

    /// The bytes that have arrived.
    pub fn into_bytes(self) -> (bytes: Vec<u8>)
        ensures
            bytes@ == self.bytes(),
    {
        self.bytes
    }
}

/// Whether a blob is served as an animation: its first bytes must show a
/// GIF image.
pub open spec fn is_gif(bytes: Seq<u8>) -> bool {
    sniffed_mime(bytes) == Some("image/gif"@)
}

/// Checks a blob that is to be served as an animation; `422` where it is
/// none.
pub fn gif_body(bytes: &[u8]) -> (checked: Result<&'static str, Refusal>)
    ensures
        checked is Ok <==> is_gif(bytes@),
        checked matches Ok(mime) ==> mime@ == "image/gif"@,
        checked matches Err(refusal) ==> refuses_with(refusal, UNPROCESSABLE_ENTITY, ""@),
{
    match sniff_mime(bytes) {
        Some(mime) => {
            if *mime == *"image/gif" {
                Ok("image/gif")
            } else {
                Err(Refusal { status: UNPROCESSABLE_ENTITY, message: "" })
            }
        },
        None => Err(Refusal { status: UNPROCESSABLE_ENTITY, message: "" }),
    }
}

/// Whether a file type is one of an avatar.
pub open spec fn is_avatar_type(mime: Seq<char>) -> bool {
    mime == "image/png"@ || mime == "image/jpeg"@ || mime == "image/webp"@
}

/// What a blob that was fetched as an avatar is answered with: `422` where
/// the content identifier asked for is not one of SHA-256, `502` where it is
/// not that of the blob, `422` where the blob is no PNG, JPEG or WebP
/// image, and the file type otherwise.
pub open spec fn avatar_answer(cid: ContentIdView, bytes: Seq<u8>) -> Result<Seq<char>, u16> {
    if cid.hash_code != SHA2_256 {
        Err(UNPROCESSABLE_ENTITY)
    } else if sha256_cid(RAW_CODEC, bytes) != cid.canonical {
        Err(BAD_GATEWAY)
    } else {
        match sniffed_mime(bytes) {
            Some(mime) if is_avatar_type(mime) => Ok(mime),
            _ => Err(UNPROCESSABLE_ENTITY),
        }
    }
}

/// Checks a blob that is to be served as an avatar.
pub fn avatar_body(cid: &ContentId, bytes: &[u8]) -> (checked: Result<&'static str, Refusal>)
    ensures
        match checked {
            Ok(mime) => avatar_answer(cid@, bytes@) == Ok::<Seq<char>, u16>(mime@),
            Err(refusal) => avatar_answer(cid@, bytes@) == Err::<Seq<char>, u16>(refusal.status)
                && refusal.message@ == if cid@.hash_code != SHA2_256 {
                "Unsupported CID hash algorithm"@
            } else {
                ""@
            },
        },
{
    if cid.hash_code() != SHA2_256 {
        return Err(
            Refusal { status: UNPROCESSABLE_ENTITY, message: "Unsupported CID hash algorithm" },
        );
    }
    let computed = raw_cid_of(bytes);
    if *computed.as_str() != *cid.as_str() {
        return Err(Refusal { status: BAD_GATEWAY, message: "" });
    }
    match sniff_mime(bytes) {
        Some(mime) => {
            if *mime == *"image/png" || *mime == *"image/jpeg" || *mime == *"image/webp" {
                Ok(mime)
            } else {
                Err(Refusal { status: UNPROCESSABLE_ENTITY, message: "" })
            }
        },
        None => Err(Refusal { status: UNPROCESSABLE_ENTITY, message: "" }),
    }
}

/// The name of the header that names the repository host.
pub open spec fn upstream_header_of(medium: Medium) -> Seq<char> {
    match medium {
        Medium::Gif => "Upstream-Pds"@,
        Medium::Avatar => "Upstream-PDS"@,
    }
}

/// The value of the header that names the repository host: the host, or
/// [`UNKNOWN_HOST`]; for an avatar, after a space.
pub open spec fn upstream_value_of(medium: Medium, host: Option<Seq<char>>) -> Seq<char> {
    let name = match host {
        Some(name) => name,
        None => UNKNOWN_HOST@,
    };
    match medium {
        Medium::Gif => name,
        Medium::Avatar => " "@ + name,
    }
}

/// A header of an answer.
#[derive(Debug)]
pub struct Header {
    pub name: &'static str,
    pub value: String,
}

/// The headers of an answer that serves a blob: its type, a policy that
/// lets the blob load nothing, no sniffing of the type, a week in caches,
/// and the repository host it came from.
pub fn blob_headers(medium: Medium, mime: &str, host: &Endpoint) -> (headers: Vec<Header>)
    ensures
        headers@.len() == 5,
        headers@[0].name@ == "Content-Type"@ && headers@[0].value@ == mime@,
        headers@[1].name@ == "Content-Security-Policy"@ && headers@[1].value@
            == "default-src 'none'; sandbox"@,
        headers@[2].name@ == "X-Content-Type-Options"@ && headers@[2].value@ == "nosniff"@,
        headers@[3].name@ == "Cache-Control"@ && headers@[3].value@ == "public, max-age=604800"@,
        headers@[4].name@ == upstream_header_of(medium) && headers@[4].value@ == upstream_value_of(
            medium,
            host@.host,
        ),
{
    let name = match host.host() {
        Some(name) => name.as_str(),
        None => UNKNOWN_HOST,
    };
    let upstream = match medium {
        Medium::Gif => Header { name: "Upstream-Pds", value: String::from_str(name) },
        Medium::Avatar => Header { name: "Upstream-PDS", value: concat2(" ", name) },
    };
    let mut headers: Vec<Header> = Vec::new();
    headers.push(Header { name: "Content-Type", value: String::from_str(mime) });
    headers.push(
        Header {
            name: "Content-Security-Policy",
            value: String::from_str("default-src 'none'; sandbox"),
        },
    );
    headers.push(Header { name: "X-Content-Type-Options", value: String::from_str("nosniff") });
    headers.push(
        Header { name: "Cache-Control", value: String::from_str("public, max-age=604800") },
    );
    headers.push(upstream);
    headers
}

} // verus!
