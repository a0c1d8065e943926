//! Faults of the body codec and the responses they map to when nothing overrides them.

use actix_web::error::PayloadError;
use vstd::prelude::*;

verus! {

/// `serde_cbor::Error`, the codec's own error. It is carried through unopened:
/// nothing is claimed about what it holds.
#[verifier::external_type_specification]
#[verifier::external_body]
pub struct ExCodecError(serde_cbor::Error);

/// `actix_web::error::PayloadError`, the fault a chunk source reports. It is
/// carried through unopened: nothing is claimed about what it holds.
#[verifier::external_type_specification]
#[verifier::external_body]
pub struct ExPayloadError(actix_web::error::PayloadError);

/// The kind of a fault, without the underlying cause.
#[derive(Clone, Copy, Debug, PartialEq, Eq, Structural)]
pub enum FaultKind {
    /// The declared media type is absent or not accepted.
    ContentType,
    /// The payload is larger than the limit allows.
    Overflow,
    /// The chunk source reported a fault.
    Payload,
    /// The completed body does not decode into the target type.
    Deserialize,
    /// The value could not be encoded (response path only).
    Serialize,
}

/// What went wrong while reading or writing a CBOR body.
#[derive(Debug)]
pub enum CborPayloadError {
    /// The payload is larger than the limit allows, going by the declared
    /// length or by the bytes received.
    Overflow,
    /// The declared media type is absent or not accepted.
    ContentType,
    /// The completed body does not decode into the target type.
    Deserialize(serde_cbor::Error),
    /// The chunk source reported a fault.
    Payload(PayloadError),
    /// The value could not be encoded (response path only).
    Serialize(serde_cbor::Error),
}

/// The status and reason sent for a fault when no handler overrides them.
#[derive(Clone, Copy, Debug, PartialEq, Eq)]
pub struct ErrorResponse {
    /// HTTP status code.
    pub status: u16,
    /// Human-readable reason, fixed per fault kind; `None` where no detail is given.
    pub reason: Option<&'static str>,
}

/// Status code of the default response for a fault kind.
pub open spec fn default_status(kind: FaultKind) -> u16 {
    match kind {
        FaultKind::Overflow => 413,
        FaultKind::ContentType => 400,
        FaultKind::Payload => 400,
        FaultKind::Deserialize => 400,
        FaultKind::Serialize => 500,
    }
}

/// Reason string of the default response for a fault kind. An encoding fault
/// carries none.
pub open spec fn default_reason(kind: FaultKind) -> Option<Seq<char>> {
    match kind {
        FaultKind::Overflow => Some("Cbor payload size is bigger than allowed"@),
        FaultKind::ContentType => Some("Content type error"@),
        FaultKind::Payload => Some("Error that occur during reading payload"@),
        FaultKind::Deserialize => Some("Cbor deserialize error"@),
        FaultKind::Serialize => None,
    }
}

/// Whether a fault kind can come out of extraction (all but `Serialize`).
pub open spec fn is_extraction_fault(kind: FaultKind) -> bool {
    kind != FaultKind::Serialize
}

impl ErrorResponse {
    /// Whether this is the default response for `kind`.
    pub open spec fn is_default_for(self, kind: FaultKind) -> bool {
        &&& self.status == default_status(kind)
        &&& match self.reason {
            Some(text) => default_reason(kind) == Some(text@),
            None => default_reason(kind) is None,
        }
    }
}

impl CborPayloadError {
    /// The kind of this fault.
    pub open spec fn spec_kind(&self) -> FaultKind {
        match self {
            CborPayloadError::Overflow => FaultKind::Overflow,
            CborPayloadError::ContentType => FaultKind::ContentType,
            CborPayloadError::Deserialize(_) => FaultKind::Deserialize,
            CborPayloadError::Payload(_) => FaultKind::Payload,
            CborPayloadError::Serialize(_) => FaultKind::Serialize,
        }
    }

    /// The kind of this fault.
    #[verifier::when_used_as_spec(spec_kind)]
    pub fn kind(&self) -> (kind: FaultKind)
        ensures
            kind == self.spec_kind(),
    {
        match self {
            CborPayloadError::Overflow => FaultKind::Overflow,
            CborPayloadError::ContentType => FaultKind::ContentType,
            CborPayloadError::Deserialize(_) => FaultKind::Deserialize,
            CborPayloadError::Payload(_) => FaultKind::Payload,
            CborPayloadError::Serialize(_) => FaultKind::Serialize,
        }
    }

    /// The response sent for this fault when no handler overrides it. It
    /// depends on the kind alone.
    pub fn error_response(&self) -> (response: ErrorResponse)
        ensures
            response.is_default_for(self.spec_kind()),
    {
        self.kind().error_response()
    }
}

impl FaultKind {
    /// Status code of the default response.
    pub fn status_code(self) -> (status: u16)
        ensures
            status == default_status(self),
    {
        match self {
            FaultKind::Overflow => 413,
            FaultKind::Serialize => 500,
            _ => 400,
        }
    }

    /// Reason string of the default response.
    pub fn reason(self) -> (reason: Option<&'static str>)
        ensures
            match reason {
                Some(text) => default_reason(self) == Some(text@),
                None => default_reason(self) is None,
            },
    {
        match self {
            FaultKind::Overflow => Some("Cbor payload size is bigger than allowed"),
            FaultKind::ContentType => Some("Content type error"),
            FaultKind::Payload => Some("Error that occur during reading payload"),
            FaultKind::Deserialize => Some("Cbor deserialize error"),
            FaultKind::Serialize => None,
        }
    }

    /// The default response for this kind of fault.
    pub fn error_response(self) -> (response: ErrorResponse)
        ensures
            response.is_default_for(self),
    {
        ErrorResponse { status: self.status_code(), reason: self.reason() }
    }
}

/// Two different fault kinds never share a default reason, so the reason
/// alone tells the kinds apart.
pub proof fn lemma_default_reasons_distinct(a: FaultKind, b: FaultKind)
    requires
        a != b,
    ensures
        default_reason(a) != default_reason(b),
{
    reveal_strlit("Cbor payload size is bigger than allowed");
    reveal_strlit("Content type error");
    reveal_strlit("Error that occur during reading payload");
    reveal_strlit("Cbor deserialize error");
    assert("Cbor payload size is bigger than allowed"@.len() == 40);
    assert("Content type error"@.len() == 18);
    assert("Error that occur during reading payload"@.len() == 39);
    assert("Cbor deserialize error"@.len() == 22);
}

/// Every fault that extraction can produce maps to a client error (4xx); only
/// an encoding fault maps to a server error (5xx).
pub proof fn lemma_default_status_class(kind: FaultKind)
    ensures
        is_extraction_fault(kind) ==> 400 <= default_status(kind) < 500,
        !is_extraction_fault(kind) ==> 500 <= default_status(kind) < 600,
        is_extraction_fault(kind) <==> default_reason(kind) is Some,
{
}

} // verus!
