//! A codec for types that serialize through `serde_json`.

use vstd::prelude::*;

use crate::errors::CodecError;

verus! {

/// Describes a type that is serialized and deserialized as JSON through
/// `serde_json`.
///
/// What bytes a value maps to is decided by the type's own serde
/// implementation, outside this crate, so nothing is stated of the bytes
/// beyond the call's success or failure; this codec's round trip is
/// exercised by tests rather than proved.
pub struct SerdeJson<T>(core::marker::PhantomData<T>);

/// The error type of `serde_json`, declared so it can cross a wrapper's
/// signature; values of it are opaque here.
#[verifier::external_type_specification]
#[verifier::external_body]
pub struct ExJsonError(serde_json::Error);

/// Relies on `serde_json::to_vec`: serializes the value as JSON text.
#[verifier::external_body]
fn json_to_vec<T: serde::Serialize>(item: &T) -> Result<Vec<u8>, serde_json::Error> {
    serde_json::to_vec(item)
}

/// Relies on `serde_json::from_slice`: parses JSON text into a value.
#[verifier::external_body]
fn json_from_slice<T: serde::de::DeserializeOwned>(bytes: &[u8]) -> Result<
    T,
    serde_json::Error,
> {
    serde_json::from_slice(bytes)
}

impl<T> SerdeJson<T> {
    /// Encode the given item as JSON bytes. Mirrors
    /// [`crate::codec::BytesEncode::bytes_encode`], which this codec
    /// cannot implement as a trait because its bounds come from serde.
    pub fn bytes_encode(item: &T) -> (r: Result<Vec<u8>, CodecError>) where T: serde::Serialize
        ensures
            r matches Err(e) ==> e == CodecError::Serialization,
    {
        match json_to_vec(item) {
            Ok(bytes) => Ok(bytes),
            Err(_) => Err(CodecError::Serialization),
        }
    }

    /// Decode the given JSON bytes as a `T`. Mirrors
    /// [`crate::codec::BytesDecode::bytes_decode`].
    pub fn bytes_decode(bytes: &[u8]) -> (r: Result<T, CodecError>) where T: serde::de::DeserializeOwned
        ensures
            r matches Err(e) ==> e == CodecError::Serialization,
    {
        match json_from_slice(bytes) {
            Ok(item) => Ok(item),
            Err(_) => Err(CodecError::Serialization),
        }
    }
}

} // verus!
