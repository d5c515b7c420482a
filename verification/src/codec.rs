//! The codec traits: [`BytesEncode`] maps an item to raw bytes and
//! [`BytesDecode`] maps raw bytes back to an item.
//!
//! The two operations are not required to be total inverses over all byte
//! sequences: only `bytes_decode(bytes_encode(x)) == x` is guaranteed by the
//! bundled codecs, while `bytes_decode` of arbitrary bytes may fail. Each
//! bundled implementation carries an exact contract saying which inputs it
//! accepts and what it returns for them.

use vstd::prelude::*;

use crate::errors::CodecError;

verus! {

/// A trait that represents an encoding structure.
pub trait BytesEncode {
    /// The type to encode.
    type EItem: ?Sized;

    /// Encode the given item as bytes.
    fn bytes_encode(item: &Self::EItem) -> Result<Vec<u8>, CodecError>;

    /// Encode the given item and append the encoded bytes to the given
    /// byte sink. Returns the amount of bytes that were written. This
    /// function by default forwards to
    /// [`bytes_encode`][BytesEncode::bytes_encode].
    fn bytes_encode_into_writer(item: &Self::EItem, writer: &mut Vec<u8>) -> (r: Result<
        usize,
        CodecError,
    >)
        default_ensures
            (r matches Err(e) ==> call_ensures(Self::bytes_encode, (item,), Err(e))
                && *final(writer) == *old(writer)),
            (r matches Ok(n) ==> exists|b: Vec<u8>|
                {
                    &&& #[trigger] call_ensures(Self::bytes_encode, (item,), Ok(b))
                    &&& final(writer)@ == old(writer)@ + b@
                    &&& n == b@.len()
                }),
    {
        match Self::bytes_encode(item) {
            Ok(bytes) => {
                let n = bytes.len();
                append_bytes(writer, bytes.as_slice());
                Ok(n)
            },
            Err(e) => Err(e),
        }
    }
}

/// A trait that represents a decoding structure.
pub trait BytesDecode {
    /// The type to decode.
    type DItem;

    /// Decode the given bytes as `DItem`.
    fn bytes_decode(bytes: &[u8]) -> Result<Self::DItem, CodecError>;
}

/// Append every byte of `src` to `out`.
pub fn append_bytes(out: &mut Vec<u8>, src: &[u8])
    ensures
        final(out)@ == old(out)@ + src@,
{
    let mut i: usize = 0;
    while i < src.len()
        invariant
            i <= src.len(),
            out@ == old(out)@ + src@.subrange(0, i as int),
        decreases src.len() - i,
    {
        out.push(src[i]);
        proof {
            assert(old(out)@ + src@.subrange(0, i + 1 as int) =~= (old(out)@ + src@.subrange(
                0,
                i as int,
            )).push(src@[i as int]));
        }
        i = i + 1;
    }
    proof {
        assert(src@.subrange(0, src@.len() as int) =~= src@);
    }
}

/// Copy the given byte slice into a fresh, owned byte buffer.
pub fn copy_bytes(src: &[u8]) -> (r: Vec<u8>)
    ensures
        r@ == src@,
{
    let mut out: Vec<u8> = Vec::new();
    append_bytes(&mut out, src);
    out
}

} // verus!
