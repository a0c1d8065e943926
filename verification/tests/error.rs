use actix_cbor::codec::{decoded, encoded};
use actix_cbor::error::{CborPayloadError, ErrorResponse, FaultKind};
use actix_web::error::PayloadError;

fn codec_error() -> serde_cbor::Error {
    serde_cbor::from_slice::<u8>(&[]).unwrap_err()
}

fn all_kinds() -> Vec<FaultKind> {
    vec![
        FaultKind::ContentType,
        FaultKind::Overflow,
        FaultKind::Payload,
        FaultKind::Deserialize,
        FaultKind::Serialize,
    ]
}

#[test]
fn each_fault_has_its_kind() {
    assert_eq!(CborPayloadError::ContentType.kind(), FaultKind::ContentType);
    assert_eq!(CborPayloadError::Overflow.kind(), FaultKind::Overflow);
    assert_eq!(CborPayloadError::Payload(PayloadError::Overflow).kind(), FaultKind::Payload);
    assert_eq!(CborPayloadError::Deserialize(codec_error()).kind(), FaultKind::Deserialize);
    assert_eq!(CborPayloadError::Serialize(codec_error()).kind(), FaultKind::Serialize);
}

#[test]
fn default_responses_have_these_statuses_and_reasons() {
    assert_eq!(
        CborPayloadError::ContentType.error_response(),
        ErrorResponse { status: 400, reason: Some("Content type error") }
    );
    assert_eq!(
        CborPayloadError::Overflow.error_response(),
        ErrorResponse { status: 413, reason: Some("Cbor payload size is bigger than allowed") }
    );
    assert_eq!(
        CborPayloadError::Payload(PayloadError::EncodingCorrupted).error_response(),
        ErrorResponse { status: 400, reason: Some("Error that occur during reading payload") }
    );
    assert_eq!(
        CborPayloadError::Deserialize(codec_error()).error_response(),
        ErrorResponse { status: 400, reason: Some("Cbor deserialize error") }
    );
    assert_eq!(
        CborPayloadError::Serialize(codec_error()).error_response(),
        ErrorResponse { status: 500, reason: None }
    );
}

#[test]
fn response_depends_on_the_kind_alone() {
    assert_eq!(
        CborPayloadError::Payload(PayloadError::Overflow).error_response(),
        CborPayloadError::Payload(PayloadError::UnknownLength).error_response()
    );
    for kind in all_kinds() {
        let response = kind.error_response();
        assert_eq!(response.status, kind.status_code());
        assert_eq!(response.reason, kind.reason());
    }
}

#[test]
fn default_responses_of_different_kinds_differ() {
    let kinds = all_kinds();
    for a in &kinds {
        for b in &kinds {
            if a != b {
                assert_ne!(a.reason(), b.reason());
                assert_ne!(a.error_response(), b.error_response());
            }
        }
    }
}

#[test]
fn extraction_faults_are_client_errors() {
    for kind in all_kinds() {
        let status = kind.status_code();
        if kind == FaultKind::Serialize {
            assert_eq!(status, 500);
            assert!(kind.reason().is_none());
        } else {
            assert!((400..500).contains(&status));
            assert!(kind.reason().is_some());
        }
    }
}

#[test]
fn codec_answers_keep_the_value_or_wrap_the_error() {
    assert_eq!(decoded::<u8>(Ok(7)).unwrap(), 7);
    assert!(matches!(decoded::<u8>(Err(codec_error())), Err(CborPayloadError::Deserialize(_))));
    assert_eq!(encoded(Ok(vec![1, 2])).unwrap(), vec![1u8, 2]);
    assert!(matches!(encoded(Err(codec_error())), Err(CborPayloadError::Serialize(_))));
}
