//! Extraction from end to end: settings, content-type check, accumulator,
//! decoding, and what becomes of a fault.

use crate::body::{content_type_verdict, read_outcome, typed_outcome, CborBody, RequestHead};
use crate::config::{
    resolve, resolved_content_type, resolved_err_handler, resolved_limit, CborConfig,
};
use crate::error::{default_reason, lemma_default_reasons_distinct, CborPayloadError};
use crate::Cbor;
use actix_web::error::PayloadError;
use vstd::prelude::*;

verus! {

/// The error that extraction hands to the application.
#[derive(Debug)]
pub enum ExtractError<E> {
    /// The configured handler decided: this is what it returned.
    Handled(E),
    /// No handler is configured: the fault stands, to be answered with its
    /// default response.
    Fault(CborPayloadError),
}

/// Whether `out` is what extraction hands over for `read`: the value in its
/// carrier; or, for a fault, what the handler returned for that fault and
/// that request, or the fault itself where no handler is configured.
pub open spec fn surfacing<T, R, E, H: Fn(CborPayloadError, &R) -> E>(
    read: Result<T, CborPayloadError>,
    context: &R,
    handler: Option<&H>,
    out: Result<Cbor<T>, ExtractError<E>>,
) -> bool {
    match read {
        Ok(value) => out == Ok::<Cbor<T>, ExtractError<E>>(Cbor(value)),
        Err(fault) => match handler {
            Some(h) => {
                &&& out is Err
                &&& out->Err_0 is Handled
                &&& call_ensures(*h, (fault, context), out->Err_0->Handled_0)
            },
            None => out == Err::<Cbor<T>, _>(ExtractError::<E>::Fault(fault)),
        },
    }
}

/// Ends an extraction: wraps the value, or surfaces the fault. A configured
/// handler is called once, with the fault and the request, and what it
/// returns is the error; without one the fault itself is.
pub fn surface<T, R, E, H: Fn(CborPayloadError, &R) -> E>(
    read: Result<T, CborPayloadError>,
    context: &R,
    handler: Option<&H>,
) -> (out: Result<Cbor<T>, ExtractError<E>>)
    requires
        read is Err && handler is Some ==> call_requires(*handler->0, (read->Err_0, context)),
    ensures
        surfacing(read, context, handler, out),
{
    match read {
        Ok(value) => Ok(Cbor(value)),
        Err(fault) => match handler {
            Some(h) => Err(ExtractError::Handled(h(fault, context))),
            None => Err(ExtractError::Fault(fault)),
        },
    }
}

impl<E> ExtractError<E> {
    /// The fault behind this error, where no handler replaced it.
    pub fn fault(&self) -> (fault: Option<&CborPayloadError>)
        ensures
            match self {
                ExtractError::Handled(_) => fault is None,
                ExtractError::Fault(inner) => fault == Some(inner),
            },
    {
        match self {
            ExtractError::Handled(_) => None,
            ExtractError::Fault(inner) => Some(inner),
        }
    }
}

impl<T> Cbor<T> {
    /// Extracts a value from a request whose body is already in memory:
    /// `payload` holds what the chunk source yields, in order, and then ends.
    ///
    /// The settings are resolved from `route` and `fallback`. The declared
    /// media type passes the content-type check or the extraction fails with
    /// `ContentType`; a declared length over the limit fails it with
    /// `Overflow`; then the payload is read under the limit, and `decode`
    /// turns the completed buffer into the value. Any fault goes to the
    /// configured handler, together with `context`; without a handler it is
    /// returned as it is.
    pub fn from_request<P, H, R, E, D>(
        head: &RequestHead<'_>,
        payload: Vec<Result<Vec<u8>, PayloadError>>,
        route: Option<&CborConfig<P, H>>,
        fallback: &CborConfig<P, H>,
        context: &R,
        decode: D,
    ) -> (out: Result<Cbor<T>, ExtractError<E>>) where
        P: Fn(&str) -> bool,
        H: Fn(CborPayloadError, &R) -> E,
        D: FnOnce(&[u8]) -> Result<T, serde_cbor::Error>,

        requires
            head.content_type is Some && resolved_content_type(route, fallback) is Some
                ==> call_requires(
                *resolved_content_type(route, fallback)->0,
                (head.content_type->0,),
            ),
            resolved_err_handler(route, fallback) is Some ==> forall|fault: CborPayloadError|
                call_requires(*resolved_err_handler(route, fallback)->0, (fault, context)),
            forall|buffer: &[u8]| call_requires(decode, (buffer,)),
        ensures
            exists|accepted: bool, read: Result<T, CborPayloadError>|
                {
                    &&& #[trigger] content_type_verdict(
                        head.content_type,
                        resolved_content_type(route, fallback),
                        accepted,
                    )
                    &&& #[trigger] typed_outcome(
                        read_outcome(
                            accepted,
                            head.content_length,
                            resolved_limit(route, fallback),
                            payload@,
                        ),
                        decode,
                        read,
                    )
                    &&& surfacing(read, context, resolved_err_handler(route, fallback), out)
                },
    {
        let resolved = resolve(route, fallback);
        let body = CborBody::new(head, resolved.content_type).limit(resolved.limit);
        let ghost accepted = !body.spec_rejected();
        let read = body.read(payload, decode);
        let out = surface(read, context, resolved.err_handler);
        proof {
            assert(content_type_verdict(
                head.content_type,
                resolved_content_type(route, fallback),
                accepted,
            ));
            assert(typed_outcome(
                read_outcome(
                    accepted,
                    head.content_length,
                    resolved_limit(route, fallback),
                    payload@,
                ),
                decode,
                read,
            ));
        }
        out
    }
}

/// A configured handler decides alone: the error handed over is one that the
/// handler returns for exactly this fault and this request, and no default
/// response takes part.
pub proof fn lemma_handler_decides<T, R, E, H: Fn(CborPayloadError, &R) -> E>(
    fault: CborPayloadError,
    context: &R,
    handler: &H,
    out: Result<Cbor<T>, ExtractError<E>>,
)
    requires
        surfacing(Err::<T, _>(fault), context, Some(handler), out),
    ensures
        out is Err,
        out->Err_0 matches ExtractError::Handled(error) && call_ensures(
            *handler,
            (fault, context),
            error,
        ),
{
}

/// Without a handler the fault is handed over unchanged, so its default
/// response is the one fixed for its kind; and since the reasons of two
/// kinds differ, two faults of different kinds never get the same response.
pub proof fn lemma_unhandled_faults_differ<T, R, E, H: Fn(CborPayloadError, &R) -> E>(
    first: CborPayloadError,
    second: CborPayloadError,
    context: &R,
    out_first: Result<Cbor<T>, ExtractError<E>>,
    out_second: Result<Cbor<T>, ExtractError<E>>,
)
    requires
        surfacing(Err::<T, _>(first), context, None::<&H>, out_first),
        surfacing(Err::<T, _>(second), context, None::<&H>, out_second),
        first.spec_kind() != second.spec_kind(),
    ensures
        out_first == Err::<Cbor<T>, _>(ExtractError::<E>::Fault(first)),
        out_second == Err::<Cbor<T>, _>(ExtractError::<E>::Fault(second)),
        default_reason(first.spec_kind()) != default_reason(second.spec_kind()),
{
    lemma_default_reasons_distinct(first.spec_kind(), second.spec_kind());
}

} // verus!
