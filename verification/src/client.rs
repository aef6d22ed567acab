//! The requests of the upstream service's HTTP interface: what each one
//! sends, and what an answer means.

use crate::auth::{basic_authorization, basic_authorization_of, credential_line, encodable};
use crate::channel::{Channel, ChannelBuilder, DEFAULT_MAX_CONCURRENT};
use crate::endpoint::{url_joined, Endpoint};
use crate::ident::Did;
use crate::text::{concat2, concat3};
use vstd::prelude::*;
use vstd::string::StringExecFns;

verus! {

/// The seconds after which a request is given up.
pub const REQUEST_TIMEOUT_SECS: u64 = 30;

/// The method of a request.
#[derive(Debug, Clone, Copy, PartialEq, Eq, Structural)]
pub enum Method {
    Get,
    Post,
}

/// A request to the upstream service.
#[derive(Debug)]
pub struct TapRequest {
    pub method: Method,
    /// The serialization of the address.
    pub url: String,
    /// The body, as JSON text, where the request has one.
    pub body: Option<String>,
}

/// An answer of the upstream service.
#[derive(Debug)]
pub struct TapResponse {
    /// The HTTP status of the answer.
    pub status: u16,
    pub body: Vec<u8>,
}

/// How a request ended.
#[derive(Debug)]
pub enum TapOutcome {
    /// The network failed before an answer was read.
    Failed(String),
    /// The upstream service answered.
    Answered(TapResponse),
}

/// Why a request gave no result.
#[derive(Debug)]
pub enum TapRequestError {
    /// The network failed.
    NetworkError(String),
    /// The upstream service answered with a status outside the 2xx class.
    ErrorResponse(TapResponse),
    /// The body of the answer is not what the request asks for.
    InvalidResponseBody(String),
}

/// Why a client could not be configured.
#[derive(Debug)]
pub enum TapClientBuildError {
    /// The base address has a scheme other than `http` and `https`.
    InvalidUrlScheme(String),
    /// The credential cannot be turned into an authorization value.
    InvalidPassword,
    /// The HTTP client could not be set up.
    CouldntConstructHttpClient(String),
}

impl TapClientBuildError {
    /// The message of the error.
    pub fn message(&self) -> (text: String)
        ensures
            text@ == match self {
                TapClientBuildError::InvalidUrlScheme(scheme) => "invalid url scheme: "@ + scheme@
                    + ". must be either http or https"@,
                TapClientBuildError::InvalidPassword => "invalid password. failed to convert password to an authorization header"@,
                TapClientBuildError::CouldntConstructHttpClient(
                    reason,
                ) => "failed to construct the internal http client due to: "@ + reason@,
            },
    {
        match self {
            TapClientBuildError::InvalidUrlScheme(scheme) => concat3(
                "invalid url scheme: ",
                scheme.as_str(),
                ". must be either http or https",
            ),
            TapClientBuildError::InvalidPassword => String::from_str(
                "invalid password. failed to convert password to an authorization header",
            ),
            TapClientBuildError::CouldntConstructHttpClient(reason) => concat2(
                "failed to construct the internal http client due to: ",
                reason.as_str(),
            ),
        }
    }
}

/// Whether a scheme is one that requests go over.
pub open spec fn is_http_scheme(scheme: Seq<char>) -> bool {
    scheme == "http"@ || scheme == "https"@
}

/// Whether an HTTP status is of the 2xx class.
pub open spec fn is_success(status: u16) -> bool {
    200 <= status && status < 300
}

/// Whether an HTTP status is of the 2xx class.
pub fn status_is_success(status: u16) -> (success: bool)
    ensures
        success == is_success(status),
{
    200 <= status && status < 300
}

/// What a request gives, by how it ended: the answer where its status is of
/// the 2xx class, the error otherwise.
pub fn receive(outcome: TapOutcome) -> (received: Result<TapResponse, TapRequestError>)
    ensures
        received == match outcome {
            TapOutcome::Failed(reason) => Err::<TapResponse, TapRequestError>(
                TapRequestError::NetworkError(reason),
            ),
            TapOutcome::Answered(response) => if is_success(response.status) {
                Ok::<TapResponse, TapRequestError>(response)
            } else {
                Err::<TapResponse, TapRequestError>(TapRequestError::ErrorResponse(response))
            },
        },
{
    match outcome {
        TapOutcome::Failed(reason) => Err(TapRequestError::NetworkError(reason)),
        TapOutcome::Answered(response) => {
            if status_is_success(response.status) {
                Ok(response)
            } else {
                Err(TapRequestError::ErrorResponse(response))
            }
        },
    }
}

/// The JSON text of a list of account identifiers: each in double quotes,
/// with commas between.
pub open spec fn quoted_list(dids: Seq<Did>) -> Seq<char>
    decreases dids.len(),
{
    if dids.len() == 0 {
        Seq::empty()
    } else if dids.len() == 1 {
        "\""@ + dids[0]@ + "\""@
    } else {
        quoted_list(dids.drop_last()) + ",\""@ + dids.last()@ + "\""@
    }
}

/// The body of a request that names repositories: a JSON object with the
/// list of account identifiers under `dids`.
pub open spec fn repos_body_of(dids: Seq<Did>) -> Seq<char> {
    "{\"dids\":["@ + quoted_list(dids) + "]}"@
}

/// The body of a request that names repositories.
pub fn repos_body(dids: &Vec<Did>) -> (body: String)
    ensures
        body@ == repos_body_of(dids@),
{
    let mut list = String::new();
    let mut i: usize = 0;
    while i < dids.len()
        invariant
            i <= dids.len(),
            list@ == quoted_list(dids@.take(i as int)),
        decreases dids.len() - i,
    {
        proof {
            assert(dids@.take(i as int + 1).drop_last() =~= dids@.take(i as int));
            assert(dids@.take(i as int + 1).last() == dids@[i as int]);
        }
        if i == 0 {
            list.append("\"");
            proof {
                assert(Seq::<char>::empty() + "\""@ =~= "\""@);
            }
        } else {
            list.append(",\"");
        }
        list.append(dids[i].as_str());
        list.append("\"");
        i += 1;
    }
    proof {
        assert(dids@.take(dids@.len() as int) =~= dids@);
    }
    concat3("{\"dids\":[", list.as_str(), "]}")
}

/// Collects the parameters of a client.
#[derive(Debug)]
pub struct TapClientBuilder {
    base_url: Endpoint,
    password: Option<String>,
}

/// The validated parameters of a client of the upstream service.
#[derive(Debug)]
pub struct TapClient {
    base_url: Endpoint,
    password: Option<String>,
    auth_header: Option<String>,
}

impl TapClientBuilder {
    pub closed spec fn spec_base_url(self) -> Endpoint {
        self.base_url
    }

    pub closed spec fn spec_password(self) -> Option<String> {
        self.password
    }

    /// Sets the credential, or takes it away.
    pub fn password(self, password: Option<String>) -> (builder: Self)
        ensures
            builder.spec_base_url() == self.spec_base_url(),
            builder.spec_password() == password,
    {
        TapClientBuilder { base_url: self.base_url, password }
    }

    /// Validates the parameters. No request is made.
    ///
    /// The scheme of the base address must be `http` or `https`; the error
    /// names any other. A credential becomes the value of the authorization
    /// header, unless it is too long to encode.
    pub fn build(self) -> (built: Result<TapClient, TapClientBuildError>)
        ensures
            match built {
                Ok(client) => {
                    &&& is_http_scheme(self.spec_base_url()@.scheme)
                    &&& client.spec_base_url() == self.spec_base_url()
                    &&& client.spec_password() == self.spec_password()
                    &&& match self.spec_password() {
                        None => client.spec_auth_header() is None,
                        Some(password) => {
                            &&& encodable(vstd::utf8::encode_utf8(credential_line(password@)))
                            &&& client.spec_auth_header() is Some
                            &&& client.spec_auth_header()->0@ == basic_authorization_of(password@)
                        },
                    }
                },
                Err(TapClientBuildError::InvalidUrlScheme(scheme)) => {
                    &&& !is_http_scheme(self.spec_base_url()@.scheme)
                    &&& scheme@ == self.spec_base_url()@.scheme
                },
                Err(TapClientBuildError::InvalidPassword) => {
                    &&& is_http_scheme(self.spec_base_url()@.scheme)
                    &&& self.spec_password() matches Some(password)
                    &&& !encodable(vstd::utf8::encode_utf8(credential_line(password@)))
                },
                Err(TapClientBuildError::CouldntConstructHttpClient(_)) => false,
            },
    {
        if !(*self.base_url.scheme() == *"http" || *self.base_url.scheme() == *"https") {
            return Err(
                TapClientBuildError::InvalidUrlScheme(String::from_str(self.base_url.scheme())),
            );
        }
        let auth_header = match &self.password {
            Some(password) => match basic_authorization(password.as_str()) {
                Some(value) => Some(value),
                None => {
                    return Err(TapClientBuildError::InvalidPassword);
                },
            },
            None => None,
        };
        Ok(TapClient { base_url: self.base_url, password: self.password, auth_header })
    }
}

/// The address of a request: the given path, resolved against the base
/// address.
pub open spec fn request_url_of(base: Seq<char>, path: Seq<char>) -> Option<Seq<char>> {
    match url_joined(base, path) {
        Some(url) => Some(url.href),
        None => None,
    }
}

/// Whether a request is the one with the given method, path and body to a
/// base address, where the path resolves; none where it does not.
pub open spec fn is_request_to(
    request: Option<TapRequest>,
    base: Seq<char>,
    method: Method,
    path: Seq<char>,
    body: Option<Seq<char>>,
) -> bool {
    match request {
        Some(sent) => {
            &&& request_url_of(base, path) == Some(sent.url@)
            &&& sent.method == method
            &&& sent.body.deep_view() == body
        },
        None => request_url_of(base, path) is None,
    }
}

impl TapClient {
    pub closed spec fn spec_base_url(self) -> Endpoint {
        self.base_url
    }

    pub closed spec fn spec_password(self) -> Option<String> {
        self.password
    }

    pub closed spec fn spec_auth_header(self) -> Option<String> {
        self.auth_header
    }

    /// A client of the upstream service at the given base address, without
    /// a credential.
    pub fn new(base_url: Endpoint) -> (built: Result<TapClient, TapClientBuildError>)
        ensures
            match built {
                Ok(client) => {
                    &&& is_http_scheme(base_url@.scheme)
                    &&& client.spec_base_url() == base_url
                    &&& client.spec_password() is None
                    &&& client.spec_auth_header() is None
                },
                Err(TapClientBuildError::InvalidUrlScheme(scheme)) => {
                    &&& !is_http_scheme(base_url@.scheme)
                    &&& scheme@ == base_url@.scheme
                },
                Err(_) => false,
            },
    {
        TapClient::builder(base_url).build()
    }

    /// A builder for a client of the upstream service at the given base
    /// address.
    pub fn builder(base_url: Endpoint) -> (builder: TapClientBuilder)
        ensures
            builder.spec_base_url() == base_url,
            builder.spec_password() is None,
    {
        TapClientBuilder { base_url, password: None }
    }

    /// The base address.
    pub fn url(&self) -> (base_url: &Endpoint)
        ensures
            *base_url == self.spec_base_url(),
    {
        &self.base_url
    }

    /// The value of the authorization header of every request, where a
    /// credential is configured.
    pub fn auth_header(&self) -> (auth_header: &Option<String>)
        ensures
            *auth_header == self.spec_auth_header(),
    {
        &self.auth_header
    }

    fn request(&self, method: Method, path: &str, body: Option<String>) -> (request: Option<
        TapRequest,
    >)
        ensures
            is_request_to(request, self.spec_base_url()@.href, method, path@, body.deep_view()),
    {
        match self.base_url.join(path) {
            Some(url) => Some(TapRequest { method, url: String::from_str(url.as_str()), body }),
            None => None,
        }
    }

    /// Asks whether the upstream service is healthy.
    pub fn health(&self) -> (request: Option<TapRequest>)
        ensures
            is_request_to(request, self.spec_base_url()@.href, Method::Get, "/health"@, None),
    {
        self.request(Method::Get, "/health", None)
    }

    /// Asks for the identity document of an account.
    pub fn resolve_did(&self, did: &Did) -> (request: Option<TapRequest>)
        ensures
            is_request_to(
                request,
                self.spec_base_url()@.href,
                Method::Get,
                "/resolve/"@ + did@,
                None,
            ),
    {
        let path = concat2("/resolve/", did.as_str());
        self.request(Method::Get, path.as_str(), None)
    }

    /// Asks what the upstream service knows of a repository.
    pub fn repo_info(&self, did: &Did) -> (request: Option<TapRequest>)
        ensures
            is_request_to(
                request,
                self.spec_base_url()@.href,
                Method::Get,
                "/info/"@ + did@,
                None,
            ),
    {
        let path = concat2("/info/", did.as_str());
        self.request(Method::Get, path.as_str(), None)
    }

    /// Asks the upstream service to track repositories.
    pub fn add_repos(&self, dids: &Vec<Did>) -> (request: Option<TapRequest>)
        ensures
            is_request_to(
                request,
                self.spec_base_url()@.href,
                Method::Post,
                "/repos/add"@,
                Some(repos_body_of(dids@)),
            ),
    {
        self.request(Method::Post, "/repos/add", Some(repos_body(dids)))
    }

    /// Asks the upstream service to track repositories no longer.
    pub fn remove_repos(&self, dids: &Vec<Did>) -> (request: Option<TapRequest>)
        ensures
            is_request_to(
                request,
                self.spec_base_url()@.href,
                Method::Post,
                "/repos/remove"@,
                Some(repos_body_of(dids@)),
            ),
    {
        self.request(Method::Post, "/repos/remove", Some(repos_body(dids)))
    }

    /// Asks how many repositories are tracked.
    pub fn repo_count(&self) -> (request: Option<TapRequest>)
        ensures
            is_request_to(
                request,
                self.spec_base_url()@.href,
                Method::Get,
                "/stats/repo-count"@,
                None,
            ),
    {
        self.request(Method::Get, "/stats/repo-count", None)
    }

    /// Asks how many records are tracked.
    pub fn record_count(&self) -> (request: Option<TapRequest>)
        ensures
            is_request_to(
                request,
                self.spec_base_url()@.href,
                Method::Get,
                "/stats/record-count"@,
                None,
            ),
    {
        self.request(Method::Get, "/stats/record-count", None)
    }

    /// Asks how many events wait in the outbox.
    pub fn outbox_buffer(&self) -> (request: Option<TapRequest>)
        ensures
            is_request_to(
                request,
                self.spec_base_url()@.href,
                Method::Get,
                "/stats/outbox-buffer"@,
                None,
            ),
    {
        self.request(Method::Get, "/stats/outbox-buffer", None)
    }

    /// Asks how many events wait to be synchronized again.
    pub fn resync_buffer(&self) -> (request: Option<TapRequest>)
        ensures
            is_request_to(
                request,
                self.spec_base_url()@.href,
                Method::Get,
                "/stats/resync-buffer"@,
                None,
            ),
    {
        self.request(Method::Get, "/stats/resync-buffer", None)
    }

    /// Asks where the cursors of the upstream service stand.
    pub fn cursors(&self) -> (request: Option<TapRequest>)
        ensures
            is_request_to(
                request,
                self.spec_base_url()@.href,
                Method::Get,
                "/stats/cursors"@,
                None,
            ),
    {
        self.request(Method::Get, "/stats/cursors", None)
    }

    /// A builder for the event channel of the same upstream service, with
    /// the credential of this client where it has one.
    pub fn channel(&self) -> (builder: ChannelBuilder)
        ensures
            builder.spec_base_url() == self.spec_base_url(),
            builder.spec_password() == self.spec_password(),
            builder.spec_max_concurrent() == DEFAULT_MAX_CONCURRENT,
    {
        let builder = Channel::builder(self.base_url.clone());
        match &self.password {
            Some(password) => builder.password(password.clone()),
            None => builder,
        }
    }
}

} // verus!
