//! The rules of the read interface: how many posts a page holds, where the
//! next page begins, and the addresses that a view names.

use crate::decimal::{decimal_i64, parse_signed, render_signed, signed_decimal};
use crate::text::concat2;
use vstd::prelude::*;
use vstd::string::StringExecFns;

verus! {

/// The posts of a page where the request names no number.
pub const DEFAULT_PAGE_LIMIT: u64 = 50;

/// The most posts of a page.
pub const MAX_PAGE_LIMIT: u64 = 100;

/// What the address of every avatar begins with.
pub const AVATAR_URL_PREFIX: &'static str = "https://cdn.gifdex.net/avatar/";

/// What the address of every animation begins with.
pub const MEDIA_URL_PREFIX: &'static str = "https://cdn.gifdex.net/media/";

/// What stands between the account and the key in the reference to a post.
pub const POST_URI_INFIX: &'static str = "/net.gifdex.feed.post/";

/// The posts of a page: the number asked for, or [`DEFAULT_PAGE_LIMIT`], and
/// never more than [`MAX_PAGE_LIMIT`].
pub open spec fn page_limit_of(requested: Option<u64>) -> u64 {
    let wanted = match requested {
        Some(limit) => limit,
        None => DEFAULT_PAGE_LIMIT,
    };
    if wanted < MAX_PAGE_LIMIT {
        wanted
    } else {
        MAX_PAGE_LIMIT
    }
}

/// The posts of a page.
pub fn page_limit(requested: Option<u64>) -> (limit: u64)
    ensures
        limit == page_limit_of(requested),
        limit <= MAX_PAGE_LIMIT,
{
    let wanted = match requested {
        Some(limit) => limit,
        None => DEFAULT_PAGE_LIMIT,
    };
    if wanted < MAX_PAGE_LIMIT {
        wanted
    } else {
        MAX_PAGE_LIMIT
    }
}

/// The time before which the posts of a page were created: the number that
/// the cursor denotes, none where there is no cursor or it denotes none.
pub open spec fn page_start_of(cursor: Option<Seq<char>>) -> Option<i64> {
    match cursor {
        Some(text) => decimal_i64(text),
        None => None,
    }
}

/// The time before which the posts of a page were created.
pub fn page_start(cursor: Option<&str>) -> (start: Option<i64>)
    ensures
        start == page_start_of(cursor.deep_view()),
{
    match cursor {
        Some(text) => parse_signed(text),
        None => None,
    }
}

/// The cursor of the next page: the time of creation of the last post of
/// a full page, none for a page that is not full or has no post.
pub open spec fn next_cursor_of(count: nat, limit: u64, last_created_at: Option<i64>) -> Option<
    Seq<char>,
> {
    match last_created_at {
        Some(created_at) if count == limit => Some(signed_decimal(created_at as int)),
        _ => None,
    }
}

/// The cursor of the next page.
pub fn next_cursor(count: usize, limit: u64, last_created_at: Option<i64>) -> (cursor: Option<
    String,
>)
    ensures
        cursor.deep_view() == next_cursor_of(count as nat, limit, last_created_at),
{
    match last_created_at {
        Some(created_at) => {
            if count as u64 == limit {
                Some(render_signed(created_at))
            } else {
                None
            }
        },
        None => None,
    }
}

/// The address of an avatar.
pub fn avatar_url(did: &str, blob_cid: &str) -> (url: String)
    ensures
        url@ == AVATAR_URL_PREFIX@ + did@ + "/"@ + blob_cid@,
{
    let mut url = concat2(AVATAR_URL_PREFIX, did);
    url.append("/");
    url.append(blob_cid);
    url
}

/// The address of an animation.
pub fn media_url(did: &str, blob_cid: &str) -> (url: String)
    ensures
        url@ == MEDIA_URL_PREFIX@ + did@ + "/"@ + blob_cid@,
{
    let mut url = concat2(MEDIA_URL_PREFIX, did);
    url.append("/");
    url.append(blob_cid);
    url
}

/// The reference to a post.
pub fn post_uri(did: &str, rkey: &str) -> (uri: String)
    ensures
        uri@ == "at://"@ + did@ + POST_URI_INFIX@ + rkey@,
{
    let mut uri = concat2("at://", did);
    uri.append(POST_URI_INFIX);
    uri.append(rkey);
    uri
}

} // verus!
