//! The configuration of an event channel and the handshake that opens one.

use crate::auth::{basic_authorization, basic_authorization_of, credential_line, encodable};
use crate::dispatch::ChannelConnectionHandle;
use crate::endpoint::{with_path_of, with_scheme_of, Endpoint, EndpointView};
use crate::text::concat3;
use vstd::prelude::*;
use vstd::string::StringExecFns;

verus! {

/// The path of the channel endpoint on the upstream service.
pub const CHANNEL_PATH: &'static str = "/channel";

/// The product token sent with every handshake.
pub const USER_AGENT: &'static str = "floodgate/0.1.0";

/// The concurrency limit of a builder that was given none.
pub const DEFAULT_MAX_CONCURRENT: usize = 100;

/// The WebSocket scheme that a base address with the given scheme is reached
/// under: `ws` for `http` and `ws`, `wss` for `https` and `wss`, none for any
/// other scheme.
pub open spec fn websocket_scheme_of(scheme: Seq<char>) -> Option<Seq<char>> {
    if scheme == "http"@ || scheme == "ws"@ {
        Some("ws"@)
    } else if scheme == "https"@ || scheme == "wss"@ {
        Some("wss"@)
    } else {
        None
    }
}

/// The address that a connection to `base` is opened on: the scheme replaced
/// by its WebSocket equivalent where it is not one already, and the path
/// replaced by [`CHANNEL_PATH`]. `None` where the scheme is not supported,
/// where the `url` crate gives no such address, or where the address it gives
/// has another scheme than asked for.
pub open spec fn websocket_target_of(base: EndpointView) -> Option<EndpointView> {
    match websocket_scheme_of(base.scheme) {
        None => None,
        Some(scheme) => {
            let switched = if base.scheme == scheme {
                Some(base)
            } else {
                with_scheme_of(base.href, scheme)
            };
            match switched {
                None => None,
                Some(url) => match with_path_of(url.href, CHANNEL_PATH@) {
                    Some(target) if target.scheme == scheme => Some(target),
                    _ => None,
                },
            }
        },
    }
}

/// The WebSocket scheme for the scheme of a base address.
pub fn websocket_scheme(scheme: &str) -> (ws: Option<&'static str>)
    ensures
        ws.deep_view() == websocket_scheme_of(scheme@),
{
    if *scheme == *"http" || *scheme == *"ws" {
        Some("ws")
    } else if *scheme == *"https" || *scheme == *"wss" {
        Some("wss")
    } else {
        None
    }
}

/// Why a channel could not be configured.
#[derive(Debug)]
pub enum ChannelBuildError {
    /// The base address has a scheme other than `http`, `https`, `ws`, `wss`.
    InvalidUrlScheme(String),
    /// The credential cannot be turned into an authorization value.
    InvalidPassword,
}

impl ChannelBuildError {
    /// The message of the error.
    pub fn message(&self) -> (text: String)
        ensures
            text@ == match self {
                ChannelBuildError::InvalidUrlScheme(scheme) => "Invalid URL scheme: "@ + scheme@
                    + ". Must be http, https, ws, or wss"@,
                ChannelBuildError::InvalidPassword => "password could not be turned"@,
            },
    {
        match self {
            ChannelBuildError::InvalidUrlScheme(scheme) => concat3(
                "Invalid URL scheme: ",
                scheme.as_str(),
                ". Must be http, https, ws, or wss",
            ),
            ChannelBuildError::InvalidPassword => String::from_str("password could not be turned"),
        }
    }
}

/// Collects the parameters of a channel.
#[derive(Debug)]
pub struct ChannelBuilder {
    base_url: Endpoint,
    password: Option<String>,
    max_concurrent: usize,
}

/// The validated parameters of a channel: where to connect, what to
/// authorize with, and how many handlers may run at once.
#[derive(Debug)]
pub struct Channel {
    base_url: Endpoint,
    auth_header: Option<String>,
    max_concurrent: usize,
}

/// What a handshake sends.
#[derive(Debug)]
pub struct HandshakeRequest {
    /// The serialization of the connection target.
    pub url: String,
    /// The value of the user-agent header.
    pub user_agent: String,
    /// The value of the authorization header, where a credential is configured.
    pub authorization: Option<String>,
}

/// What the upstream service answered to a handshake.
#[derive(Debug)]
pub struct HandshakeResponse {
    /// The HTTP status of the answer.
    pub status: u16,
    /// The headers of the answer, name and value.
    pub headers: Vec<(String, String)>,
}

/// How an attempt at the handshake ended.
#[derive(Debug)]
pub enum HandshakeOutcome {
    /// The network or the protocol failed before an answer was read.
    Failed(String),
    /// The upstream service answered.
    Answered(HandshakeResponse),
}

/// Why a connection could not be opened.
#[derive(Debug)]
pub enum ConnectionError {
    /// The network or the protocol failed.
    WebSocketError(String),
    /// The upstream service answered the handshake with a failure.
    WebSocketHttpResponseFailure(HandshakeResponse),
}

/// Whether an HTTP status answers a handshake with success: the protocol
/// switch (101) or any status of the 2xx class.
pub open spec fn handshake_status_ok(status: u16) -> bool {
    status == 101 || (200 <= status && status < 300)
}

/// Whether an HTTP status answers a handshake with success.
pub fn handshake_accepted(status: u16) -> (accepted: bool)
    ensures
        accepted == handshake_status_ok(status),
{
    status == 101 || (status >= 200 && status < 300)
}

impl Clone for ChannelBuilder {
    fn clone(&self) -> (copy: Self)
        ensures
            copy == *self,
    {
        proof {
            use_type_invariant(self);
        }
        ChannelBuilder {
            base_url: self.base_url.clone(),
            password: match &self.password {
                Some(password) => Some(password.clone()),
                None => None,
            },
            max_concurrent: self.max_concurrent,
        }
    }
}

impl Clone for Channel {
    fn clone(&self) -> (copy: Self)
        ensures
            copy == *self,
    {
        proof {
            use_type_invariant(self);
        }
        Channel {
            base_url: self.base_url.clone(),
            auth_header: match &self.auth_header {
                Some(auth_header) => Some(auth_header.clone()),
                None => None,
            },
            max_concurrent: self.max_concurrent,
        }
    }
}

impl ChannelBuilder {
    #[verifier::type_invariant]
    spec fn valid(self) -> bool {
        self.max_concurrent >= 1
    }

    pub closed spec fn spec_base_url(self) -> Endpoint {
        self.base_url
    }

    pub closed spec fn spec_password(self) -> Option<String> {
        self.password
    }

    pub closed spec fn spec_max_concurrent(self) -> usize {
        self.max_concurrent
    }

    /// A builder for the given base address, with no credential and the
    /// default concurrency limit.
    pub fn new(base_url: Endpoint) -> (builder: Self)
        ensures
            builder.spec_base_url() == base_url,
            builder.spec_password() is None,
            builder.spec_max_concurrent() == DEFAULT_MAX_CONCURRENT,
    {
        ChannelBuilder { base_url, password: None, max_concurrent: DEFAULT_MAX_CONCURRENT }
    }

    /// Sets the credential.
    pub fn password(self, password: String) -> (builder: Self)
        ensures
            builder.spec_base_url() == self.spec_base_url(),
            builder.spec_password() == Some(password),
            builder.spec_max_concurrent() == self.spec_max_concurrent(),
    {
        proof {
            use_type_invariant(&self);
        }
        ChannelBuilder {
            base_url: self.base_url,
            password: Some(password),
            max_concurrent: self.max_concurrent,
        }
    }

    /// Sets the number of handlers that may run at once.
    pub fn max_concurrent(self, max: usize) -> (builder: Self)
        requires
            max >= 1,
        ensures
            builder.spec_base_url() == self.spec_base_url(),
            builder.spec_password() == self.spec_password(),
            builder.spec_max_concurrent() == max,
    {
        ChannelBuilder { base_url: self.base_url, password: self.password, max_concurrent: max }
    }

    /// Validates the parameters. No connection is made.
    ///
    /// The scheme of the base address must be one of `http`, `https`, `ws`,
    /// `wss`; the error names any other. A credential becomes the value of
    /// the authorization header, unless it is too long to encode.
    pub fn build(self) -> (built: Result<Channel, ChannelBuildError>)
        ensures
            match built {
                Ok(channel) => {
                    &&& websocket_scheme_of(self.spec_base_url()@.scheme) is Some
                    &&& channel.spec_base_url() == self.spec_base_url()
                    &&& channel.spec_max_concurrent() == self.spec_max_concurrent()
                    &&& match self.spec_password() {
                        None => channel.spec_auth_header() is None,
                        Some(password) => {
                            &&& encodable(vstd::utf8::encode_utf8(credential_line(password@)))
                            &&& channel.spec_auth_header() is Some
                            &&& channel.spec_auth_header()->0@ == basic_authorization_of(
                                password@,
                            )
                        },
                    }
                },
                Err(ChannelBuildError::InvalidUrlScheme(scheme)) => {
                    &&& websocket_scheme_of(self.spec_base_url()@.scheme) is None
                    &&& scheme@ == self.spec_base_url()@.scheme
                },
                Err(ChannelBuildError::InvalidPassword) => {
                    &&& websocket_scheme_of(self.spec_base_url()@.scheme) is Some
                    &&& self.spec_password() matches Some(password)
                    &&& !encodable(vstd::utf8::encode_utf8(credential_line(password@)))
                },
            },
    {
        proof {
            use_type_invariant(&self);
        }
        if websocket_scheme(self.base_url.scheme()).is_none() {
            return Err(
                ChannelBuildError::InvalidUrlScheme(String::from_str(self.base_url.scheme())),
            );
        }
        let auth_header = match &self.password {
            Some(password) => match basic_authorization(password.as_str()) {
                Some(value) => Some(value),
                None => {
                    return Err(ChannelBuildError::InvalidPassword);
                },
            },
            None => None,
        };
        Ok(Channel { base_url: self.base_url, auth_header, max_concurrent: self.max_concurrent })
    }
}

impl Channel {
    #[verifier::type_invariant]
    spec fn valid(self) -> bool {
        self.max_concurrent >= 1
    }

    pub closed spec fn spec_base_url(self) -> Endpoint {
        self.base_url
    }

    pub closed spec fn spec_auth_header(self) -> Option<String> {
        self.auth_header
    }

    pub closed spec fn spec_max_concurrent(self) -> usize {
        self.max_concurrent
    }

    /// A builder for a channel to the given base address.
    pub fn builder(base_url: Endpoint) -> (builder: ChannelBuilder)
        ensures
            builder.spec_base_url() == base_url,
            builder.spec_password() is None,
            builder.spec_max_concurrent() == DEFAULT_MAX_CONCURRENT,
    {
        ChannelBuilder::new(base_url)
    }

    /// The base address.
    pub fn base_url(&self) -> (base_url: &Endpoint)
        ensures
            *base_url == self.spec_base_url(),
    {
        &self.base_url
    }

    /// The value of the authorization header, where a credential is configured.
    pub fn auth_header(&self) -> (auth_header: &Option<String>)
        ensures
            *auth_header == self.spec_auth_header(),
    {
        &self.auth_header
    }

    /// The number of handlers that may run at once; at least one.
    pub fn max_concurrent(&self) -> (max: usize)
        ensures
            max == self.spec_max_concurrent(),
            max >= 1,
    {
        proof {
            use_type_invariant(self);
        }
        self.max_concurrent
    }

    /// The address that a connection is opened on.
    pub fn target(&self) -> (target: Option<Endpoint>)
        ensures
            target.deep_view() == websocket_target_of(self.spec_base_url()@),
            target matches Some(url) ==> websocket_scheme_of(self.spec_base_url()@.scheme) == Some(
                url@.scheme,
            ),
    {
        let scheme = match websocket_scheme(self.base_url.scheme()) {
            Some(scheme) => scheme,
            None => {
                return None;
            },
        };
        let switched = if *self.base_url.scheme() == *scheme {
            self.base_url.clone()
        } else {
            match self.base_url.with_scheme(scheme) {
                Some(url) => url,
                None => {
                    return None;
                },
            }
        };
        match switched.with_path(CHANNEL_PATH) {
            Some(target) => {
                if *target.scheme() == *scheme {
                    Some(target)
                } else {
                    None
                }
            },
            None => None,
        }
    }

    /// What the handshake of a connection sends: the target, the product
    /// token, and the authorization value where a credential is configured.
    /// `None` where there is no target.
    pub fn request(&self) -> (request: Option<HandshakeRequest>)
        ensures
            request is Some <==> websocket_target_of(self.spec_base_url()@) is Some,
            request matches Some(sent) ==> {
                &&& sent.url@ == websocket_target_of(self.spec_base_url()@)->0.href
                &&& sent.user_agent@ == USER_AGENT@
                &&& sent.authorization == self.spec_auth_header()
            },
    {
        match self.target() {
            Some(target) => Some(
                HandshakeRequest {
                    url: String::from_str(target.as_str()),
                    user_agent: String::from_str(USER_AGENT),
                    authorization: match &self.auth_header {
                        Some(auth_header) => Some(auth_header.clone()),
                        None => None,
                    },
                },
            ),
            None => None,
        }
    }

    /// Opens the connection that a handshake led to.
    ///
    /// A failure of the network is reported as such. An answer opens a
    /// connection where its status is 101 or of the 2xx class; any other
    /// answer is handed back in the error, and no connection exists.
    pub fn connect(&self, outcome: HandshakeOutcome) -> (opened: Result<
        ChannelConnectionHandle,
        ConnectionError,
    >)
        ensures
            match outcome {
                HandshakeOutcome::Failed(reason) => opened == Err::<
                    ChannelConnectionHandle,
                    ConnectionError,
                >(ConnectionError::WebSocketError(reason)),
                HandshakeOutcome::Answered(response) => if handshake_status_ok(response.status) {
                    &&& opened is Ok
                    &&& opened->Ok_0@ == crate::dispatch::opened_connection(
                        self.spec_max_concurrent() as nat,
                    )
                } else {
                    opened == Err::<ChannelConnectionHandle, ConnectionError>(
                        ConnectionError::WebSocketHttpResponseFailure(response),
                    )
                },
            },
    {
        proof {
            use_type_invariant(self);
        }
        match outcome {
            HandshakeOutcome::Failed(reason) => Err(ConnectionError::WebSocketError(reason)),
            HandshakeOutcome::Answered(response) => {
                if handshake_accepted(response.status) {
                    Ok(ChannelConnectionHandle::open(self.max_concurrent))
                } else {
                    Err(ConnectionError::WebSocketHttpResponseFailure(response))
                }
            },
        }
    }
}

/// A configuration is built exactly for the four supported schemes.
pub proof fn lemma_build_accepts_supported_schemes(scheme: Seq<char>)
    ensures
        websocket_scheme_of(scheme) is Some <==> (scheme == "http"@ || scheme == "https"@ || scheme
            == "ws"@ || scheme == "wss"@),
        scheme == "http"@ ==> websocket_scheme_of(scheme) == Some("ws"@),
        scheme == "https"@ ==> websocket_scheme_of(scheme) == Some("wss"@),
        scheme == "ws"@ ==> websocket_scheme_of(scheme) == Some("ws"@),
        scheme == "wss"@ ==> websocket_scheme_of(scheme) == Some("wss"@),
{
    reveal_strlit("http");
    reveal_strlit("https");
    reveal_strlit("ws");
    reveal_strlit("wss");
    assert("http"@.len() == 4 && "https"@.len() == 5 && "ws"@.len() == 2 && "wss"@.len() == 3);
}

/// Scheme rewriting: whenever a base address has a connection target, the
/// target's scheme is `ws` for a base of `http` or `ws` and `wss` for a base
/// of `https` or `wss`; a base of any other scheme has no target.
pub proof fn lemma_target_scheme(base: EndpointView)
    ensures
        websocket_target_of(base) matches Some(target) ==> websocket_scheme_of(base.scheme) == Some(
            target.scheme,
        ),
        websocket_scheme_of(base.scheme) is None ==> websocket_target_of(base) is None,
{
}

} // verus!
