//! The boundary to the codec: what its answers mean on the way in and on the
//! way out. The codec itself is not called here; these functions take what
//! it returned.

use crate::error::CborPayloadError;
use vstd::prelude::*;

verus! {

/// What the codec's answer for a completed body means: the decoded value, or
/// `Deserialize` carrying the codec's error.
pub open spec fn decoding<T>(answer: Result<T, serde_cbor::Error>) -> Result<
    T,
    CborPayloadError,
> {
    match answer {
        Ok(value) => Ok(value),
        Err(cause) => Err(CborPayloadError::Deserialize(cause)),
    }
}

/// What the codec's answer for a value to send means: the encoding, or
/// `Serialize` carrying the codec's error.
pub open spec fn encoding(answer: Result<Vec<u8>, serde_cbor::Error>) -> Result<
    Vec<u8>,
    CborPayloadError,
> {
    match answer {
        Ok(bytes) => Ok(bytes),
        Err(cause) => Err(CborPayloadError::Serialize(cause)),
    }
}

/// Takes the codec's answer for a completed body.
pub fn decoded<T>(answer: Result<T, serde_cbor::Error>) -> (read: Result<T, CborPayloadError>)
    ensures
        read == decoding(answer),
{
    match answer {
        Ok(value) => Ok(value),
        Err(cause) => Err(CborPayloadError::Deserialize(cause)),
    }
}

/// Takes the codec's answer for a value to send.
pub fn encoded(answer: Result<Vec<u8>, serde_cbor::Error>) -> (out: Result<
    Vec<u8>,
    CborPayloadError,
>)
    ensures
        out == encoding(answer),
{
    match answer {
        Ok(bytes) => Ok(bytes),
        Err(cause) => Err(CborPayloadError::Serialize(cause)),
    }
}

} // verus!
