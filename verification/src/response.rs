//! The response path: from the codec's answer for a value to the response
//! that carries it.

use crate::body::{canonical_media_type, CONTENT_TYPE};
use crate::codec::encoded;
use crate::error::{default_status, ErrorResponse, FaultKind};
use vstd::prelude::*;

verus! {

/// A response, as the parts that a framework builds it from.
#[derive(Debug, PartialEq, Eq)]
pub struct CborResponse {
    /// HTTP status code.
    pub status: u16,
    /// Value of the `Content-Type` header; `None` where the header is not set.
    pub content_type: Option<&'static str>,
    /// The body.
    pub body: Vec<u8>,
}

/// What a response builder does when it is asked for a CBOR body.
#[derive(Debug, PartialEq, Eq)]
pub enum BuilderBody {
    /// Set the `Content-Type` header to `content_type` and finish the
    /// builder with `body`; its status and other headers stay.
    Send {
        /// Value of the `Content-Type` header.
        content_type: &'static str,
        /// The body.
        body: Vec<u8>,
    },
    /// Leave the builder and answer with this response instead.
    Refuse(ErrorResponse),
}

impl CborResponse {
    /// Whether this response carries `body` as CBOR, with status 200.
    pub open spec fn carries(&self, body: Seq<u8>) -> bool {
        &&& self.status == 200
        &&& self.content_type is Some
        &&& self.content_type->0@ == canonical_media_type()
        &&& self.body@ == body
    }

    /// Whether this response reports that a value could not be encoded: a
    /// server error without media type or body.
    pub open spec fn reports_failure(&self) -> bool {
        &&& self.status == default_status(FaultKind::Serialize)
        &&& self.content_type is None
        &&& self.body@ == Seq::<u8>::empty()
    }
}

/// The response for a value, given the codec's answer for it: status 200
/// with the encoding as body and the canonical media type, or, where the
/// value could not be encoded, status 500 with nothing more. No handler has a
/// say here.
pub fn respond_to(answer: Result<Vec<u8>, serde_cbor::Error>) -> (response: CborResponse)
    ensures
        match answer {
            Ok(bytes) => response.carries(bytes@),
            Err(_) => response.reports_failure(),
        },
{
    match encoded(answer) {
        Ok(body) => CborResponse { status: 200, content_type: Some(CONTENT_TYPE), body },
        Err(fault) => CborResponse {
            status: fault.kind().status_code(),
            content_type: None,
            body: Vec::new(),
        },
    }
}

/// Decides what a response builder does with the codec's answer for a value:
/// it sends the encoding under the canonical media type, or, where the value
/// could not be encoded, answers with the default response of an encoding
/// fault: status 500 and no reason of its own, so that nothing about the
/// failure reaches the caller.
pub fn cbor_body(answer: Result<Vec<u8>, serde_cbor::Error>) -> (out: BuilderBody)
    ensures
        match answer {
            Ok(bytes) => {
                &&& out matches BuilderBody::Send { content_type, body }
                &&& content_type@ == canonical_media_type()
                &&& body == bytes
            },
            Err(_) => {
                &&& out matches BuilderBody::Refuse(response)
                &&& response.is_default_for(FaultKind::Serialize)
            },
        },
{
    match encoded(answer) {
        Ok(body) => BuilderBody::Send { content_type: CONTENT_TYPE, body },
        Err(fault) => BuilderBody::Refuse(fault.error_response()),
    }
}

} // verus!
