//! Identity documents, as far as the gateway reads them.

use crate::client::{TapRequestError, TapResponse};
use crate::endpoint::{parsed_url, Endpoint, EndpointView};
use vstd::prelude::*;

verus! {

/// What the rules read of an identity document.
pub struct DidDocumentView {
    pub id: Seq<char>,
    pub pds_endpoint: Option<Seq<char>>,
}

/// An identity document, held as the identifier it is about and the
/// address of the repository host it names.
#[derive(Debug)]
pub struct DidDocument {
    /// The account that the document is about.
    pub id: String,
    /// The address of the repository host, where the document names one.
    pub pds_endpoint: Option<String>,
}

impl View for DidDocument {
    type V = DidDocumentView;

    open spec fn view(&self) -> DidDocumentView {
        DidDocumentView { id: self.id@, pds_endpoint: self.pds_endpoint.deep_view() }
    }
}

/// The identity document that a JSON text denotes, or why it denotes none.
pub uninterp spec fn parsed_did_document(body: Seq<u8>) -> Result<DidDocumentView, Seq<char>>;

/// `serde_json::from_slice` to a `jacquard_common::types::did_doc::DidDocument`,
/// with the `id` and the `pds_endpoint` of the result moved out, and the
/// error as its text. The contract names the result.
#[verifier::external_body]
fn did_document_parse(body: &[u8]) -> (parsed: Result<DidDocument, String>)
    ensures
        match parsed {
            Ok(document) => parsed_did_document(body@) == Ok::<DidDocumentView, Seq<char>>(
                document@,
            ),
            Err(reason) => parsed_did_document(body@) == Err::<DidDocumentView, Seq<char>>(
                reason@,
            ),
        },
{
    match serde_json::from_slice::<jacquard_common::types::did_doc::DidDocument>(body) {
        Ok(document) => Ok(DidDocument {
            id: document.id.as_str().to_string(),
            pds_endpoint: match document.pds_endpoint() {
                Some(uri) => Some(uri.as_str().to_string()),
                None => None,
            },
        }),
        Err(error) => Err(error.to_string()),
    }
}

/// Reads the identity document that an answer holds.
pub fn read_did_document(response: &TapResponse) -> (read: Result<DidDocument, TapRequestError>)
    ensures
        match read {
            Ok(document) => parsed_did_document(response.body@) == Ok::<
                DidDocumentView,
                Seq<char>,
            >(document@),
            Err(TapRequestError::InvalidResponseBody(reason)) => parsed_did_document(
                response.body@,
            ) == Err::<DidDocumentView, Seq<char>>(reason@),
            Err(_) => false,
        },
{
    match did_document_parse(response.body.as_slice()) {
        Ok(document) => Ok(document),
        Err(reason) => Err(TapRequestError::InvalidResponseBody(reason)),
    }
}

/// The repository host that an identity document names: the address it
/// gives, where that is an absolute URL.
pub open spec fn repository_host_of(document: DidDocumentView) -> Option<EndpointView> {
    match document.pds_endpoint {
        Some(address) => parsed_url(address),
        None => None,
    }
}

/// The repository host that an identity document names.
pub fn document_host(document: &DidDocument) -> (host: Option<Endpoint>)
    ensures
        host.deep_view() == repository_host_of(document@),
{
    match &document.pds_endpoint {
        Some(address) => Endpoint::parse(address.as_str()),
        None => None,
    }
}

} // verus!
