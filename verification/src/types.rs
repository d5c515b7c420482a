//! The bundled codecs: raw bytes, fixed-size bytes, UTF-8 strings and the
//! unit type. Each decoder rejects malformed input with a [`CodecError`]
//! and each encode/decode pair round-trips over the codec's domain.

use vstd::prelude::*;

use vstd::string::StringSliceAdditionalSpecFns;

use crate::codec::{copy_bytes, BytesDecode, BytesEncode};
use crate::errors::{CodecError, NonEmptyError};

verus! {

/// Describes a byte slice `[u8]` that is totally owned by the caller and
/// doesn't depend on any memory alignment.
pub struct Bytes;

impl BytesEncode for Bytes {
    type EItem = [u8];

    fn bytes_encode(item: &[u8]) -> (r: Result<Vec<u8>, CodecError>)
        ensures
            r matches Ok(b) && b@ == item@,
    {
        Ok(copy_bytes(item))
    }
}

impl BytesDecode for Bytes {
    type DItem = Vec<u8>;

    fn bytes_decode(bytes: &[u8]) -> (r: Result<Vec<u8>, CodecError>)
        ensures
            r matches Ok(v) && v@ == bytes@,
    {
        Ok(copy_bytes(bytes))
    }
}

/// Round trip of the [`Bytes`] codec, for every byte buffer: whatever
/// `bytes_encode` returned for an item, `bytes_decode` of those bytes
/// succeeds and reproduces the item.
pub proof fn lemma_bytes_round_trip(
    item: &[u8],
    enc: Result<Vec<u8>, CodecError>,
    bytes: &[u8],
    dec: Result<Vec<u8>, CodecError>,
)
    requires
        call_ensures(<Bytes as BytesEncode>::bytes_encode, (item,), enc),
        enc matches Ok(b) && bytes@ == b@,
        call_ensures(<Bytes as BytesDecode>::bytes_decode, (bytes,), dec),
    ensures
        dec matches Ok(v) && v@ == item@,
{
}

/// Like [`Bytes`], but always contains exactly `N` (the generic parameter)
/// bytes.
pub struct FixedSizeBytes<const N: usize>;

impl<const N: usize> BytesEncode for FixedSizeBytes<N> {
    type EItem = [u8; N];

    fn bytes_encode(item: &[u8; N]) -> (r: Result<Vec<u8>, CodecError>)
        ensures
            r matches Ok(b) && b@ == item@,
    {
        Ok(copy_bytes(item.as_slice()))
    }
}

impl<const N: usize> BytesDecode for FixedSizeBytes<N> {
    type DItem = [u8; N];

    fn bytes_decode(bytes: &[u8]) -> (r: Result<[u8; N], CodecError>)
        ensures
            bytes@.len() == N ==> (r matches Ok(v) && v@ == bytes@),
            bytes@.len() != N ==> (r matches Err(e) && e == (CodecError::WrongLength {
                expected: N,
                found: bytes@.len() as usize,
            })),
    {
        if bytes.len() != N {
            return Err(CodecError::WrongLength { expected: N, found: bytes.len() });
        }
        let mut out: [u8; N] = [0; N];
        let mut i: usize = 0;
        while i < N
            invariant
                i <= N,
                bytes@.len() == N,
                out@.len() == N,
                forall|j: int| 0 <= j < i ==> out@[j] == bytes@[j],
            decreases N - i,
        {
            out[i] = bytes[i];
            i = i + 1;
        }
        proof {
            assert(out@ =~= bytes@);
        }
        Ok(out)
    }
}

/// Round trip of the [`FixedSizeBytes`] codec, for every item of the
/// fixed size: the encoded form holds exactly the item's `N` bytes, so
/// decoding it succeeds and reproduces the item.
pub proof fn lemma_fixed_size_round_trip<const N: usize>(
    item: [u8; N],
    enc: Result<Vec<u8>, CodecError>,
    bytes: &[u8],
    dec: Result<[u8; N], CodecError>,
)
    requires
        call_ensures(<FixedSizeBytes<N> as BytesEncode>::bytes_encode, (&item,), enc),
        enc matches Ok(b) && bytes@ == b@,
        call_ensures(<FixedSizeBytes<N> as BytesDecode>::bytes_decode, (bytes,), dec),
    ensures
        dec matches Ok(v) && v@ == item@,
{
    assert(bytes@.len() == N);
}

/// Describes a UTF-8 encoded string.
pub struct Str;

impl BytesEncode for Str {
    type EItem = str;

    fn bytes_encode(item: &str) -> (r: Result<Vec<u8>, CodecError>)
        ensures
            r matches Ok(b) && b@ == vstd::utf8::encode_utf8(item@),
    {
        Ok(copy_bytes(item.as_bytes()))
    }
}

/// Relies on `core::str::from_utf8`: it returns `Ok` exactly when the
/// input is valid UTF-8, and the returned string slice is backed by
/// exactly the input bytes.
#[verifier::external_body]
fn try_str_from_utf8(bytes: &[u8]) -> (r: Option<&str>)
    ensures
        r is Some <==> vstd::utf8::valid_utf8(bytes@),
        r matches Some(s) ==> s.spec_bytes() == bytes@,
{
    core::str::from_utf8(bytes).ok()
}

impl BytesDecode for Str {
    type DItem = String;

    fn bytes_decode(bytes: &[u8]) -> (r: Result<String, CodecError>)
        ensures
            vstd::utf8::valid_utf8(bytes@) ==> (r matches Ok(s) && s@ == vstd::utf8::decode_utf8(
                bytes@,
            )),
            !vstd::utf8::valid_utf8(bytes@) ==> (r matches Err(e) && e == CodecError::InvalidUtf8),
    {
        match try_str_from_utf8(bytes) {
            Some(s) => {
                proof {
                    vstd::utf8::encode_utf8_decode_utf8(s@);
                }
                Ok(s.to_owned())
            },
            None => Err(CodecError::InvalidUtf8),
        }
    }
}

/// Round trip of the [`Str`] codec at the level of byte sequences: the
/// UTF-8 encoding of a string is valid UTF-8 and decodes back to the same
/// string.
pub proof fn lemma_str_round_trip(s: Seq<char>)
    ensures
        vstd::utf8::valid_utf8(vstd::utf8::encode_utf8(s)),
        vstd::utf8::decode_utf8(vstd::utf8::encode_utf8(s)) == s,
{
    vstd::utf8::encode_utf8_valid_utf8(s);
    vstd::utf8::encode_utf8_decode_utf8(s);
}

/// Round trip of the [`Str`] codec, for every string: whatever
/// `bytes_encode` returned for a string, `bytes_decode` of those bytes
/// succeeds and reproduces the string.
pub proof fn lemma_str_codec_round_trip(
    item: &str,
    enc: Result<Vec<u8>, CodecError>,
    bytes: &[u8],
    dec: Result<String, CodecError>,
)
    requires
        call_ensures(<Str as BytesEncode>::bytes_encode, (item,), enc),
        enc matches Ok(b) && bytes@ == b@,
        call_ensures(<Str as BytesDecode>::bytes_decode, (bytes,), dec),
    ensures
        dec matches Ok(s) && s@ == item@,
{
    lemma_str_round_trip(item@);
}

/// Describes the unit `()` type.
pub struct Unit;

impl BytesEncode for Unit {
    type EItem = ();

    fn bytes_encode(item: &()) -> (r: Result<Vec<u8>, CodecError>)
        ensures
            r matches Ok(b) && b@ == Seq::<u8>::empty(),
    {
        let out: Vec<u8> = Vec::new();
        proof {
            assert(out@ =~= Seq::<u8>::empty());
        }
        Ok(out)
    }
}

impl BytesDecode for Unit {
    type DItem = ();

    fn bytes_decode(bytes: &[u8]) -> (r: Result<(), CodecError>)
        ensures
            bytes@.len() == 0 ==> r is Ok,
            bytes@.len() != 0 ==> (r matches Err(e) && e == CodecError::NonEmpty(NonEmptyError)),
    {
        if bytes.is_empty() {
            Ok(())
        } else {
            Err(CodecError::NonEmpty(NonEmptyError))
        }
    }
}

/// Round trip of the [`Unit`] codec: the unit value encodes to no bytes,
/// and decoding no bytes succeeds.
pub proof fn lemma_unit_round_trip(
    enc: Result<Vec<u8>, CodecError>,
    bytes: &[u8],
    dec: Result<(), CodecError>,
)
    requires
        call_ensures(<Unit as BytesEncode>::bytes_encode, (&(),), enc),
        enc matches Ok(b) && bytes@ == b@,
        call_ensures(<Unit as BytesDecode>::bytes_decode, (bytes,), dec),
    ensures
        dec is Ok,
{
}

} // verus!
