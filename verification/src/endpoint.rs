//! Addresses of the upstream service.
//!
//! The URL grammar belongs to the `url` crate. The library keeps of an address
//! what its rules read, the serialization, the scheme and the host, and calls
//! the `url` crate for every change to an address.

use crate::text::byte_len;
use vstd::prelude::*;

verus! {

/// What the rules read of an address: its serialization, its scheme and its
/// host.
pub struct EndpointView {
    pub href: Seq<char>,
    pub scheme: Seq<char>,
    pub host: Option<Seq<char>>,
}

/// An absolute URL, held as the serialization, the scheme and the host that
/// the `url` crate gave for it.
#[derive(Debug)]
pub struct Endpoint {
    href: String,
    scheme: String,
    host: Option<String>,
}

impl View for Endpoint {
    type V = EndpointView;

    open spec fn view(&self) -> EndpointView {
        EndpointView {
            href: self.spec_href()@,
            scheme: self.spec_scheme()@,
            host: self.spec_host().deep_view(),
        }
    }
}

impl Clone for Endpoint {
    fn clone(&self) -> (copy: Self)
        ensures
            copy == *self,
    {
        Endpoint {
            href: self.href.clone(),
            scheme: self.scheme.clone(),
            host: match &self.host {
                Some(host) => Some(host.clone()),
                None => None,
            },
        }
    }
}

impl DeepView for Endpoint {
    type V = EndpointView;

    open spec fn deep_view(&self) -> EndpointView {
        self@
    }
}

/// Whether a text is short enough for a setter of the `url` crate.
pub open spec fn fits_url(text: Seq<char>) -> bool {
    byte_len(text) <= URL_TEXT_MAX
}

/// What [`Endpoint::with_scheme`] gives.
pub open spec fn with_scheme_of(href: Seq<char>, scheme: Seq<char>) -> Option<EndpointView> {
    if fits_url(href) && fits_url(scheme) {
        url_with_scheme(href, scheme)
    } else {
        None
    }
}

/// What [`Endpoint::with_query`] gives.
pub open spec fn with_query_of(href: Seq<char>, query: Seq<char>) -> Option<EndpointView> {
    if fits_url(href) && fits_url(query) {
        url_with_query(href, query)
    } else {
        None
    }
}

/// What [`Endpoint::with_path`] gives.
pub open spec fn with_path_of(href: Seq<char>, path: Seq<char>) -> Option<EndpointView> {
    if fits_url(href) && fits_url(path) {
        url_with_path(href, path)
    } else {
        None
    }
}

/// The URL that `text` denotes, `None` where `text` is no absolute URL.
pub uninterp spec fn parsed_url(text: Seq<char>) -> Option<EndpointView>;

/// The URL with serialization `href` after its scheme was set to `scheme`,
/// `None` where the change is refused.
pub uninterp spec fn url_with_scheme(href: Seq<char>, scheme: Seq<char>) -> Option<EndpointView>;

/// The URL with serialization `href` after its path was set to `path`.
pub uninterp spec fn url_with_path(href: Seq<char>, path: Seq<char>) -> Option<EndpointView>;

/// The URL that `input` denotes relative to the URL with serialization `href`.
pub uninterp spec fn url_joined(href: Seq<char>, input: Seq<char>) -> Option<EndpointView>;

/// The URL with serialization `href` after its query was set to `query`.
pub uninterp spec fn url_with_query(href: Seq<char>, query: Seq<char>) -> Option<EndpointView>;

/// The longest text, in bytes, that is handed to a setter of the `url` crate,
/// which counts a serialization in 32 bits.
pub const URL_TEXT_MAX: usize = 0x0fff_ffff;

/// `url::Url::parse`, with the result's `as_str`, `scheme` and `host_str`
/// moved into an [`Endpoint`]. The contract names the result; it claims nothing of the URL
/// grammar.
#[verifier::external_body]
fn url_parse(text: &str) -> (parsed: Option<Endpoint>)
    ensures
        parsed.deep_view() == parsed_url(text@),
{
    match url::Url::parse(text) {
        Ok(url) => Some(Endpoint { href: url.as_str().to_string(), scheme: url.scheme().to_string(), host: url.host_str().map(str::to_string) }),
        Err(_) => None,
    }
}

/// `url::Url::set_scheme` on the URL that `href` serializes, `None` where the
/// setter refuses. The contract names the result.
#[verifier::external_body]
fn url_set_scheme(href: &str, scheme: &str) -> (changed: Option<Endpoint>)
    requires
        byte_len(href@) <= URL_TEXT_MAX,
        byte_len(scheme@) <= URL_TEXT_MAX,
    ensures
        changed.deep_view() == url_with_scheme(href@, scheme@),
{
    match url::Url::parse(href) {
        Ok(mut url) => match url.set_scheme(scheme) {
            Ok(()) => Some(Endpoint { href: url.as_str().to_string(), scheme: url.scheme().to_string(), host: url.host_str().map(str::to_string) }),
            Err(()) => None,
        },
        Err(_) => None,
    }
}

/// `url::Url::set_path` on the URL that `href` serializes. The contract names
/// the result.
#[verifier::external_body]
fn url_set_path(href: &str, path: &str) -> (changed: Option<Endpoint>)
    requires
        byte_len(href@) <= URL_TEXT_MAX,
        byte_len(path@) <= URL_TEXT_MAX,
    ensures
        changed.deep_view() == url_with_path(href@, path@),
{
    match url::Url::parse(href) {
        Ok(mut url) => {
            url.set_path(path);
            Some(Endpoint { href: url.as_str().to_string(), scheme: url.scheme().to_string(), host: url.host_str().map(str::to_string) })
        },
        Err(_) => None,
    }
}

/// `url::Url::set_query` on the URL that `href` serializes. The contract
/// names the result.
#[verifier::external_body]
fn url_set_query(href: &str, query: &str) -> (changed: Option<Endpoint>)
    requires
        byte_len(href@) <= URL_TEXT_MAX,
        byte_len(query@) <= URL_TEXT_MAX,
    ensures
        changed.deep_view() == url_with_query(href@, query@),
{
    match url::Url::parse(href) {
        Ok(mut url) => {
            url.set_query(Some(query));
            Some(Endpoint { href: url.as_str().to_string(), scheme: url.scheme().to_string(), host: url.host_str().map(str::to_string) })
        },
        Err(_) => None,
    }
}

/// `url::Url::join` on the URL that `href` serializes. The contract names the
/// result.
#[verifier::external_body]
fn url_join(href: &str, input: &str) -> (joined: Option<Endpoint>)
    ensures
        joined.deep_view() == url_joined(href@, input@),
{
    match url::Url::parse(href) {
        Ok(url) => match url.join(input) {
            Ok(url) => Some(Endpoint { href: url.as_str().to_string(), scheme: url.scheme().to_string(), host: url.host_str().map(str::to_string) }),
            Err(_) => None,
        },
        Err(_) => None,
    }
}

impl Endpoint {
    pub closed spec fn spec_href(&self) -> String {
        self.href
    }

    pub closed spec fn spec_scheme(&self) -> String {
        self.scheme
    }

    pub closed spec fn spec_host(&self) -> Option<String> {
        self.host
    }

    /// Reads an absolute URL.
    pub fn parse(text: &str) -> (parsed: Option<Endpoint>)
        ensures
            parsed.deep_view() == parsed_url(text@),
    {
        url_parse(text)
    }

    /// The serialization of the URL.
    pub fn as_str(&self) -> (href: &str)
        ensures
            href@ == self@.href,
    {
        self.href.as_str()
    }

    /// The scheme, without the colon.
    pub fn scheme(&self) -> (scheme: &str)
        ensures
            scheme@ == self@.scheme,
    {
        self.scheme.as_str()
    }

    /// The host, where the URL has one.
    pub fn host(&self) -> (host: &Option<String>)
        ensures
            host.deep_view() == self@.host,
    {
        &self.host
    }

    /// The same URL with its query replaced: `None` where the `url` crate
    /// gives none or a text is longer than [`URL_TEXT_MAX`].
    pub fn with_query(&self, query: &str) -> (changed: Option<Endpoint>)
        ensures
            changed.deep_view() == with_query_of(self@.href, query@),
    {
        if self.href.as_str().as_bytes().len() > URL_TEXT_MAX || query.as_bytes().len()
            > URL_TEXT_MAX {
            return None;
        }
        url_set_query(self.href.as_str(), query)
    }

    /// The same URL under another scheme: `None` where the `url` crate refuses
    /// the change or a text is longer than [`URL_TEXT_MAX`].
    pub fn with_scheme(&self, scheme: &str) -> (changed: Option<Endpoint>)
        ensures
            changed.deep_view() == with_scheme_of(self@.href, scheme@),
    {
        if self.href.as_str().as_bytes().len() > URL_TEXT_MAX || scheme.as_bytes().len()
            > URL_TEXT_MAX {
            return None;
        }
        url_set_scheme(self.href.as_str(), scheme)
    }

    /// The same URL with its path replaced: `None` where the `url` crate
    /// gives none or a text is longer than [`URL_TEXT_MAX`].
    pub fn with_path(&self, path: &str) -> (changed: Option<Endpoint>)
        ensures
            changed.deep_view() == with_path_of(self@.href, path@),
    {
        if self.href.as_str().as_bytes().len() > URL_TEXT_MAX || path.as_bytes().len()
            > URL_TEXT_MAX {
            return None;
        }
        url_set_path(self.href.as_str(), path)
    }

    /// Resolves `input` against this URL.
    pub fn join(&self, input: &str) -> (joined: Option<Endpoint>)
        ensures
            joined.deep_view() == url_joined(self@.href, input@),
    {
        url_join(self.href.as_str(), input)
    }
}

} // verus!
