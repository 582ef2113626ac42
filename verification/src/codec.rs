//! The binary form of a user record: a name and an age.
//!
//! The form is that of the `bincode` encoder for a string followed by a
//! 16-bit number. Both directions are done by that crate; this module says
//! what they return and proves that decoding inverts encoding.

use vstd::prelude::*;
use crate::error::{DecodingError, EncodingError};

verus! {

/// The two bytes of a 16-bit number, the high one first.
pub open spec fn be_u16(v: u16) -> Seq<u8> {
    seq![(v / 0x100) as u8, (v % 0x100) as u8]
}

/// The eight bytes of a 64-bit number, the highest first.
pub open spec fn be_u64(v: u64) -> Seq<u8> {
    seq![
        (v / 0x100_0000_0000_0000) as u8,
        (v / 0x1_0000_0000_0000 % 0x100) as u8,
        (v / 0x100_0000_0000 % 0x100) as u8,
        (v / 0x1_0000_0000 % 0x100) as u8,
        (v / 0x100_0000 % 0x100) as u8,
        (v / 0x1_0000 % 0x100) as u8,
        (v / 0x100 % 0x100) as u8,
        (v % 0x100) as u8,
    ]
}

/// The number that two bytes stand for, the high one first.
pub open spec fn be_u16_value(bytes: Seq<u8>) -> int {
    bytes[0] * 0x100 + bytes[1]
}

/// The number that eight bytes stand for, the highest first.
pub open spec fn be_u64_value(bytes: Seq<u8>) -> int {
    bytes[0] * 0x100_0000_0000_0000 + bytes[1] * 0x1_0000_0000_0000 + bytes[2] * 0x100_0000_0000
        + bytes[3] * 0x1_0000_0000 + bytes[4] * 0x100_0000 + bytes[5] * 0x1_0000 + bytes[6] * 0x100
        + bytes[7]
}

/// The encoding of a name and an age: the length of the name in bytes as a
/// 64-bit number, the name in UTF-8, and the age as a 16-bit number.
pub open spec fn encoding_of(name: Seq<char>, age: u16) -> Seq<u8> {
    be_u64(vstd::utf8::encode_utf8(name).len() as u64) + vstd::utf8::encode_utf8(name) + be_u16(age)
}

/// The length that the first eight bytes of an input announce for the name,
/// as the decoder takes it: cut down to the width of a machine word.
pub open spec fn announced_len(bytes: Seq<u8>) -> int {
    (be_u64_value(bytes.subrange(0, 8)) as usize) as int
}

/// What an input decodes to.
///
/// The decoder reads eight bytes for the length of the name and fails with
/// `Io` where there are fewer. It counts the bytes it is about to read and
/// fails with `SizeLimit` where the count leaves 64 bits. It takes as many
/// bytes for the name as are announced, or all that are left where those are
/// fewer, and fails with `InvalidEncoding` where they are no UTF-8. It then
/// reads two bytes for the age, after counting them in the same way, and
/// fails with `Io` where fewer than two are left. Bytes behind the age are
/// not looked at.
pub open spec fn decoding_of(bytes: Seq<u8>) -> Result<(Seq<char>, u16), DecodingError> {
    if bytes.len() < 8 {
        Err(DecodingError::Io)
    } else if 8 + announced_len(bytes) > u64::MAX {
        Err(DecodingError::SizeLimit)
    } else {
        let end = if 8 + announced_len(bytes) <= bytes.len() {
            8 + announced_len(bytes)
        } else {
            bytes.len() as int
        };
        if !vstd::utf8::valid_utf8(bytes.subrange(8, end)) {
            Err(DecodingError::InvalidEncoding)
        } else if 10 + announced_len(bytes) > u64::MAX {
            Err(DecodingError::SizeLimit)
        } else if end + 2 > bytes.len() {
            Err(DecodingError::Io)
        } else {
            Ok(
                (
                    vstd::utf8::decode_utf8(bytes.subrange(8, end)),
                    be_u16_value(bytes.subrange(end, end + 2)) as u16,
                ),
            )
        }
    }
}

/// Calls `bincode::rustc_serialize::encode` without a size limit on the
/// pair of a name and an age.
///
/// The encoder writes a string as its byte length in eight big-endian bytes
/// and then its bytes, a 16-bit number as two big-endian bytes, and nothing
/// for the pair itself. It writes into a vector, which takes every byte, and
/// no limit is set, so the contract claims that the call succeeds.
#[verifier::external_body]
pub(crate) fn encode_name_age(name: &str, age: u16) -> (out: Result<Vec<u8>, EncodingError>)
    ensures
        out is Ok,
        out->Ok_0@ == encoding_of(name@, age),
{
    match bincode::rustc_serialize::encode(&(name, age), bincode::SizeLimit::Infinite) {
        Ok(bytes) => Ok(bytes),
        Err(bincode::rustc_serialize::EncodingError::IoError(_)) => Err(EncodingError::Io),
        Err(bincode::rustc_serialize::EncodingError::SizeLimit) => Err(EncodingError::SizeLimit),
    }
}

/// Calls `bincode::rustc_serialize::decode` for the pair of a name and an
/// age. The contract claims that the call returns what `decoding_of` says,
/// step by step as the decoder's source reads the input.
#[verifier::external_body]
pub(crate) fn decode_name_age(bytes: &[u8]) -> (out: Result<(String, u16), DecodingError>)
    ensures
        match decoding_of(bytes@) {
            Ok(pair) => out is Ok && out->Ok_0.0@ == pair.0 && out->Ok_0.1 == pair.1,
            Err(error) => out == Err::<(String, u16), DecodingError>(error),
        },
{
    match bincode::rustc_serialize::decode::<(String, u16)>(bytes) {
        Ok(pair) => Ok(pair),
        Err(bincode::rustc_serialize::DecodingError::IoError(_)) => Err(DecodingError::Io),
        Err(bincode::rustc_serialize::DecodingError::InvalidEncoding(_)) => Err(
            DecodingError::InvalidEncoding,
        ),
        Err(bincode::rustc_serialize::DecodingError::SizeLimit) => Err(DecodingError::SizeLimit),
    }
}

/// Eight big-endian bytes stand for the number they were made from.
pub proof fn lemma_be_u64_value(v: u64)
    ensures
        be_u64(v).len() == 8,
        be_u64_value(be_u64(v)) == v,
{
    assert(v / 0x100_0000_0000_0000 < 0x100 && (v / 0x100_0000_0000_0000) * 0x100_0000_0000_0000
        + (v / 0x1_0000_0000_0000 % 0x100) * 0x1_0000_0000_0000 + (v / 0x100_0000_0000 % 0x100)
        * 0x100_0000_0000 + (v / 0x1_0000_0000 % 0x100) * 0x1_0000_0000 + (v / 0x100_0000 % 0x100)
        * 0x100_0000 + (v / 0x1_0000 % 0x100) * 0x1_0000 + (v / 0x100 % 0x100) * 0x100 + v % 0x100
        == v) by (bit_vector);
}

/// Two big-endian bytes stand for the number they were made from.
pub proof fn lemma_be_u16_value(v: u16)
    ensures
        be_u16(v).len() == 2,
        be_u16_value(be_u16(v)) == v,
{
}

/// Decoding inverts encoding: an encoding that fits in memory decodes to the
/// name and the age it was made from.
pub proof fn lemma_decoding_inverts_encoding(name: Seq<char>, age: u16)
    requires
        encoding_of(name, age).len() <= usize::MAX,
    ensures
        decoding_of(encoding_of(name, age)) == Ok::<(Seq<char>, u16), DecodingError>((name, age)),
{
    let text = vstd::utf8::encode_utf8(name);
    let bytes = encoding_of(name, age);
    let len = text.len() as u64;
    lemma_be_u64_value(len);
    lemma_be_u16_value(age);
    assert(bytes.len() == 10 + text.len());
    assert(len == text.len());
    assert(bytes.subrange(0, 8) =~= be_u64(len));
    assert(announced_len(bytes) == text.len());
    let end = 8 + text.len() as int;
    assert(bytes.subrange(8, end) =~= text);
    assert(bytes.subrange(end, end + 2) =~= be_u16(age));
    vstd::utf8::encode_utf8_valid_utf8(name);
    vstd::utf8::encode_utf8_decode_utf8(name);
}

} // verus!
