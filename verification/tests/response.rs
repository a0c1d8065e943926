use std::collections::BTreeMap;

use actix_cbor::error::ErrorResponse;
use actix_cbor::response::{cbor_body, respond_to, BuilderBody, CborResponse};
use actix_cbor::Cbor;
use serde::ser::{Error, Serialize, Serializer};

/// A value that the codec cannot encode.
struct Unencodable;

impl Serialize for Unencodable {
    fn serialize<S: Serializer>(&self, _serializer: S) -> Result<S::Ok, S::Error> {
        Err(S::Error::custom("this value has no encoding"))
    }
}

#[test]
fn encodable_value_gives_200_with_the_encoding() {
    let mut value: BTreeMap<String, u32> = BTreeMap::new();
    value.insert("a".to_owned(), 1);
    let canonical = serde_cbor::to_vec(&value).unwrap();
    assert_eq!(canonical, vec![0xa1, 0x61, b'a', 0x01]);

    let response = respond_to(serde_cbor::to_vec(&value));
    assert_eq!(
        response,
        CborResponse {
            status: 200,
            content_type: Some("application/cbor"),
            body: canonical,
        }
    );
}

#[test]
fn unencodable_value_gives_500_with_nothing_more() {
    let response = respond_to(serde_cbor::to_vec(&Unencodable));
    assert_eq!(
        response,
        CborResponse { status: 500, content_type: None, body: Vec::new() }
    );
}

#[test]
fn builder_sends_the_encoding_under_the_canonical_type() {
    let out = cbor_body(serde_cbor::to_vec(&7u8));
    assert_eq!(out, BuilderBody::Send { content_type: "application/cbor", body: vec![0x07] });
}

#[test]
fn builder_answers_an_unencodable_value_with_a_bare_500() {
    let out = cbor_body(serde_cbor::to_vec(&Unencodable));
    assert_eq!(out, BuilderBody::Refuse(ErrorResponse { status: 500, reason: None }));
}

#[test]
fn carrier_gives_access_to_the_value() {
    let mut carried = Cbor(vec![1u8, 2]);
    assert_eq!(carried.len(), 2);
    carried.push(3);
    assert_eq!(*carried, vec![1u8, 2, 3]);
    let copy = carried.clone();
    assert_eq!(copy.0, vec![1u8, 2, 3]);
    assert_eq!(carried.into_inner(), vec![1u8, 2, 3]);

    let empty: Cbor<String> = Cbor::default();
    assert_eq!(empty.into_inner(), "");
}
