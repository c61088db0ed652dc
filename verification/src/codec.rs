//! The serialization codec for the logical value.
//!
//! The logical value crosses process boundaries only in its serialized
//! form; this module delegates that form to the `bincode` codec. In its
//! default configuration bincode writes a `u64` as exactly its eight
//! little-endian bytes and reads one back from the first eight bytes of
//! the input, so the contracts here are stated over the little-endian
//! byte specifications of `vstd::bytes`, and the round trip is proved.

use vstd::bytes::lemma_auto_spec_u64_to_from_le_bytes;
use vstd::bytes::spec_u64_from_le_bytes;
use vstd::bytes::spec_u64_to_le_bytes;
use vstd::prelude::*;

use crate::error::Error;

verus! {

/// The number of bytes in the serialized form of a `u64`.
pub const VALUE_LEN: usize = 8;

/// The serialized form of a value: its eight little-endian bytes.
pub open spec fn encoded(v: u64) -> Seq<u8> {
    spec_u64_to_le_bytes(v)
}

/// The value read back from a serialized form of at least eight bytes.
pub open spec fn decoded(bytes: Seq<u8>) -> u64 {
    spec_u64_from_le_bytes(bytes.subrange(0, 8))
}

/// Relies on `bincode::serialize`: with the default configuration
/// (fixed-width integers, little endian, no byte limit) a `u64` is
/// written as exactly its eight little-endian bytes, and writing into a
/// vector cannot fail.
#[verifier::external_body]
pub fn encode_u64(v: u64) -> (r: Vec<u8>)
    ensures
        r@ == encoded(v),
{
    bincode::serialize(&v).unwrap()
}

/// Relies on `bincode::deserialize`: with the default configuration a
/// `u64` is read from the first eight little-endian bytes of the input,
/// trailing bytes are ignored, and fewer than eight bytes is an error.
#[verifier::external_body]
pub fn decode_u64(bytes: &[u8]) -> (r: Result<u64, Error>)
    ensures
        r is Ok <==> bytes@.len() >= 8,
        (r matches Ok(v) ==> v == decoded(bytes@)),
        (r matches Err(e) ==> e is CodecError),
{
    match bincode::deserialize::<u64>(bytes) {
        Ok(v) => Ok(v),
        Err(e) => Err(Error::CodecError(e.to_string())),
    }
}

/// The codec round-trips: decoding an encoded value yields the value
/// back, and the encoding is always eight bytes long.
pub proof fn lemma_codec_round_trip(v: u64)
    ensures
        encoded(v).len() == 8,
        decoded(encoded(v)) == v,
{
    lemma_auto_spec_u64_to_from_le_bytes();
    assert(encoded(v).subrange(0, 8) =~= encoded(v));
}

/// The encoding is injective: distinct values have distinct serialized
/// forms.
pub proof fn lemma_encoding_injective(a: u64, b: u64)
    ensures
        (encoded(a) == encoded(b)) <==> (a == b),
{
    lemma_codec_round_trip(a);
    lemma_codec_round_trip(b);
}

} // verus!
