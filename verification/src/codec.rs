//! The canonical binary encoding of the values that cross the boundary to
//! the execution engine: what a call is given, and what a simulated call
//! hands back.
//!
//! Integers are fixed-width little-endian, a truth value is one byte, an
//! address is its 32 bytes, and a text is its UTF-8 bytes behind their
//! count in base-128 digits.

use vstd::prelude::*;
use vstd::utf8::encode_utf8;
use crate::error::{CanaryError, CanaryErrorView};
use crate::text::{decimal_digits, decimal_text, with_detail};
use crate::types::{Address, CallArgument, CallArgumentView, ADDRESS_LENGTH};

verus! {

/// The longest sequence that the encoding admits, in bytes.
pub const MAX_SEQUENCE_LENGTH: usize = 2147483647;

/// The number that the bytes stand for, least significant byte first.
pub open spec fn little_endian(bytes: Seq<u8>) -> nat
    decreases bytes.len(),
{
    if bytes.len() == 0 {
        0
    } else {
        bytes[0] as nat + 256 * little_endian(bytes.skip(1))
    }
}

/// A count in base-128 digits, least significant first; every digit but the
/// last has its high bit set.
pub open spec fn uleb128(n: nat) -> Seq<u8>
    decreases n,
{
    if n < 128 {
        seq![n as u8]
    } else {
        seq![(n % 128 + 128) as u8] + uleb128(n / 128)
    }
}

/// The encoding of a sequence of bytes: its length, then the bytes.
pub open spec fn sequence_encoding(bytes: Seq<u8>) -> Seq<u8> {
    uleb128(bytes.len()) + bytes
}

/// Whether `bytes` is the encoding of the text `s`.
pub open spec fn encodes_text(s: Seq<char>, bytes: Seq<u8>) -> bool {
    encode_utf8(s).len() <= MAX_SEQUENCE_LENGTH && bytes == sequence_encoding(encode_utf8(s))
}

/// No count in base-128 digits is the beginning of another: where two
/// counts, each followed by some bytes, give the same bytes, the counts are
/// the same and so is what follows them.
pub proof fn lemma_uleb128_prefix_free(n1: nat, n2: nat, tail1: Seq<u8>, tail2: Seq<u8>)
    requires
        uleb128(n1) + tail1 == uleb128(n2) + tail2,
    ensures
        n1 == n2,
        tail1 == tail2,
    decreases n1,
{
    let whole = uleb128(n1) + tail1;
    assert(whole[0] == uleb128(n1)[0]);
    assert(whole[0] == uleb128(n2)[0]);
    if n1 < 128 {
        assert(n2 < 128);
        assert(whole.skip(1) =~= tail1);
        assert(whole.skip(1) =~= tail2);
    } else {
        assert(n2 >= 128);
        assert(n1 % 128 == n2 % 128);
        assert(whole.skip(1) =~= uleb128(n1 / 128) + tail1);
        assert(whole.skip(1) =~= uleb128(n2 / 128) + tail2);
        lemma_uleb128_prefix_free(n1 / 128, n2 / 128, tail1, tail2);
    }
}

/// A buffer is the encoding of at most one text, so that what is decoded
/// from a buffer is determined by the buffer.
pub proof fn lemma_text_encoding_is_unique(s1: Seq<char>, s2: Seq<char>, bytes: Seq<u8>)
    requires
        encodes_text(s1, bytes),
        encodes_text(s2, bytes),
    ensures
        s1 == s2,
{
    lemma_uleb128_prefix_free(
        encode_utf8(s1).len(),
        encode_utf8(s2).len(),
        encode_utf8(s1),
        encode_utf8(s2),
    );
    vstd::utf8::encode_utf8_decode_utf8(s1);
    vstd::utf8::encode_utf8_decode_utf8(s2);
}

/// Every text that is short enough has an encoding, and that encoding
/// decodes to the text alone.
pub proof fn lemma_text_round_trip(text: Seq<char>, decoded: Seq<char>)
    requires
        encode_utf8(text).len() <= MAX_SEQUENCE_LENGTH,
        encodes_text(decoded, sequence_encoding(encode_utf8(text))),
    ensures
        encodes_text(text, sequence_encoding(encode_utf8(text))),
        decoded == text,
{
    lemma_text_encoding_is_unique(text, decoded, sequence_encoding(encode_utf8(text)));
}

/// The words with which a buffer is refused as a 64-bit integer.
pub open spec fn u64_failure(bytes: Seq<u8>) -> Seq<char> {
    if bytes.len() < 8 {
        "unexpected end of input"@
    } else {
        "remaining input"@
    }
}

/// Whether `bytes` is the encoding of a truth value: the byte 0 or the byte 1.
pub open spec fn is_bool_encoding(bytes: Seq<u8>) -> bool {
    bytes.len() == 1 && bytes[0] <= 1
}

/// The words with which a buffer is refused as a truth value.
pub open spec fn bool_failure(bytes: Seq<u8>) -> Seq<char> {
    if bytes.len() == 0 {
        "unexpected end of input"@
    } else if bytes[0] > 1 {
        "expected boolean"@
    } else {
        "remaining input"@
    }
}

/// The words with which `bcs::from_bytes` refuses a buffer as a text.
pub uninterp spec fn text_failure(bytes: Seq<u8>) -> Seq<char>;

/// `bcs::from_bytes` at `u64`: exactly eight bytes are read as a
/// little-endian number; fewer end the input early, more are left over.
#[verifier::external_body]
fn bcs_u64(bytes: &[u8]) -> (res: Result<u64, String>)
    ensures
        res is Ok <==> bytes@.len() == 8,
        res matches Ok(value) ==> value == little_endian(bytes@),
        res matches Err(text) ==> text@ == u64_failure(bytes@),
{
    match bcs::from_bytes::<u64>(bytes) {
        Ok(value) => Ok(value),
        Err(e) => Err(e.to_string()),
    }
}

/// `bcs::from_bytes` at `bool`: the one byte 0 is false and the one byte 1
/// is true; anything else is refused.
#[verifier::external_body]
fn bcs_bool(bytes: &[u8]) -> (res: Result<bool, String>)
    ensures
        res is Ok <==> is_bool_encoding(bytes@),
        res matches Ok(value) ==> value == (bytes@[0] == 1u8),
        res matches Err(text) ==> text@ == bool_failure(bytes@),
{
    match bcs::from_bytes::<bool>(bytes) {
        Ok(value) => Ok(value),
        Err(e) => Err(e.to_string()),
    }
}

/// `bcs::from_bytes` at `String`: a buffer is accepted exactly when it is
/// the encoding of a text, and then that text is returned.
#[verifier::external_body]
fn bcs_text(bytes: &[u8]) -> (res: Result<String, String>)
    ensures
        res matches Ok(value) ==> encodes_text(value@, bytes@),
        res is Err ==> forall|s: Seq<char>| !#[trigger] encodes_text(s, bytes@),
        res matches Err(text) ==> text@ == text_failure(bytes@),
{
    match bcs::from_bytes::<String>(bytes) {
        Ok(value) => Ok(value),
        Err(e) => Err(e.to_string()),
    }
}

/// `bcs::to_bytes` at `str`: the length of the UTF-8 bytes in base-128
/// digits, then the bytes; a text longer than the encoding admits is
/// refused with its length.
#[verifier::external_body]
fn bcs_text_bytes(text: &str) -> (res: Result<Vec<u8>, String>)
    ensures
        res is Ok <==> encode_utf8(text@).len() <= MAX_SEQUENCE_LENGTH,
        res matches Ok(bytes) ==> bytes@ == sequence_encoding(encode_utf8(text@)),
        res matches Err(words) ==> words@ == "exceeded max sequence length: "@ + decimal_digits(
            encode_utf8(text@).len(),
        ),
{
    match bcs::to_bytes::<str>(text) {
        Ok(bytes) => Ok(bytes),
        Err(e) => Err(e.to_string()),
    }
}

/// The eight bytes of a number, least significant first.
pub fn u64_bytes(value: u64) -> (res: Vec<u8>)
    ensures
        res@.len() == 8,
        little_endian(res@) == value,
{
    let b0: u8 = (value % 256) as u8;
    let r1: u64 = value / 256;
    let b1: u8 = (r1 % 256) as u8;
    let r2: u64 = r1 / 256;
    let b2: u8 = (r2 % 256) as u8;
    let r3: u64 = r2 / 256;
    let b3: u8 = (r3 % 256) as u8;
    let r4: u64 = r3 / 256;
    let b4: u8 = (r4 % 256) as u8;
    let r5: u64 = r4 / 256;
    let b5: u8 = (r5 % 256) as u8;
    let r6: u64 = r5 / 256;
    let b6: u8 = (r6 % 256) as u8;
    let r7: u64 = r6 / 256;
    let b7: u8 = (r7 % 256) as u8;
    let mut out: Vec<u8> = Vec::new();
    out.push(b0);
    out.push(b1);
    out.push(b2);
    out.push(b3);
    out.push(b4);
    out.push(b5);
    out.push(b6);
    out.push(b7);
    proof {
        assert(r7 < 256);
        let s0 = out@;
        let s1 = s0.skip(1);
        let s2 = s1.skip(1);
        let s3 = s2.skip(1);
        let s4 = s3.skip(1);
        let s5 = s4.skip(1);
        let s6 = s5.skip(1);
        let s7 = s6.skip(1);
        let s8 = s7.skip(1);
        assert(s8.len() == 0);
        assert(little_endian(s8) == 0);
        assert(s7[0] == b7);
        assert(little_endian(s7) == r7);
        assert(s6[0] == b6);
        assert(little_endian(s6) == r6);
        assert(s5[0] == b5);
        assert(little_endian(s5) == r5);
        assert(s4[0] == b4);
        assert(little_endian(s4) == r4);
        assert(s3[0] == b3);
        assert(little_endian(s3) == r3);
        assert(s2[0] == b2);
        assert(little_endian(s2) == r2);
        assert(s1[0] == b1);
        assert(little_endian(s1) == r1);
        assert(s0[0] == b0);
        assert(little_endian(s0) == value);
    }
    out
}

/// The failure of reading the named field of a result.
pub open spec fn decode_failure(field: Seq<char>, detail: Seq<char>) -> CanaryErrorView {
    CanaryErrorView::Registry("Failed to deserialize "@ + field + ": "@ + detail)
}

/// The failure of reading an address from a buffer of `len` bytes.
pub open spec fn address_failure(len: nat) -> CanaryErrorView {
    CanaryErrorView::Registry("Invalid address length: expected 32, got "@ + decimal_digits(len))
}

/// Names the field in a failed decoding; a value that was decoded passes
/// through.
pub fn decoded<T>(outcome: Result<T, String>, field: &str) -> (res: Result<T, CanaryError>)
    ensures
        match outcome {
            Ok(value) => res == Ok::<T, CanaryError>(value),
            Err(detail) => res matches Err(error) && error@ == decode_failure(field@, detail@),
        },
{
    match outcome {
        Ok(value) => Ok(value),
        Err(detail) => {
            let mut message = with_detail("Failed to deserialize ", field);
            message.append(": ");
            message.append(detail.as_str());
            assert(message@ =~= "Failed to deserialize "@ + field@ + ": "@ + detail@);
            Err(CanaryError::Registry(message))
        },
    }
}

/// Reads an address from a returned buffer.  A buffer of 32 bytes is the
/// address itself; any other length is refused, never cut or filled up.
pub fn decode_address(bytes: &[u8]) -> (res: Result<Address, CanaryError>)
    ensures
        bytes@.len() == ADDRESS_LENGTH ==> (res matches Ok(address) && address@ == bytes@),
        bytes@.len() != ADDRESS_LENGTH ==> (res matches Err(error) && error@ == address_failure(
            bytes@.len(),
        )),
{
    match Address::from_bytes(bytes) {
        Some(address) => Ok(address),
        None => {
            let count = decimal_text(bytes.len() as u64);
            Err(
                CanaryError::Registry(
                    with_detail("Invalid address length: expected 32, got ", count.as_str()),
                ),
            )
        },
    }
}

/// Reads a 64-bit integer from a returned buffer of exactly eight bytes.
pub fn decode_u64(bytes: &[u8], field: &str) -> (res: Result<u64, CanaryError>)
    ensures
        bytes@.len() == 8 ==> (res matches Ok(value) && value == little_endian(bytes@)),
        bytes@.len() != 8 ==> (res matches Err(error) && error@ == decode_failure(
            field@,
            u64_failure(bytes@),
        )),
{
    decoded(bcs_u64(bytes), field)
}

/// Reads a truth value from a returned buffer: the byte 0 or the byte 1.
pub fn decode_bool(bytes: &[u8], field: &str) -> (res: Result<bool, CanaryError>)
    ensures
        is_bool_encoding(bytes@) ==> (res matches Ok(value) && value == (bytes@[0] == 1u8)),
        !is_bool_encoding(bytes@) ==> (res matches Err(error) && error@ == decode_failure(
            field@,
            bool_failure(bytes@),
        )),
{
    decoded(bcs_bool(bytes), field)
}

/// Reads a text from a returned buffer.  The buffer must be the encoding of
/// a text, whole and nothing more.
pub fn decode_text(bytes: &[u8], field: &str) -> (res: Result<String, CanaryError>)
    ensures
        match res {
            Ok(value) => encodes_text(value@, bytes@),
            Err(error) => {
                &&& forall|s: Seq<char>| !#[trigger] encodes_text(s, bytes@)
                &&& error@ == decode_failure(field@, text_failure(bytes@))
            },
        },
{
    decoded(bcs_text(bytes), field)
}

/// The failure of encoding a text that is too long.
pub open spec fn encode_failure(len: nat) -> CanaryErrorView {
    CanaryErrorView::Registry(
        "Failed to serialize text: exceeded max sequence length: "@ + decimal_digits(len),
    )
}

impl CallArgument {
    /// A text as a call argument, in its length-prefixed encoding.
    pub fn pure_text(text: &str) -> (res: Result<CallArgument, CanaryError>)
        ensures
            encode_utf8(text@).len() <= MAX_SEQUENCE_LENGTH ==> (res matches Ok(argument)
                && argument@ == CallArgumentView::Pure(sequence_encoding(encode_utf8(text@)))),
            encode_utf8(text@).len() > MAX_SEQUENCE_LENGTH ==> (res matches Err(error) && error@
                == encode_failure(encode_utf8(text@).len())),
    {
        match bcs_text_bytes(text) {
            Ok(bytes) => Ok(CallArgument::Pure(bytes)),
            Err(words) => {
                let message = with_detail("Failed to serialize text: ", words.as_str());
                assert(message@ =~= "Failed to serialize text: exceeded max sequence length: "@
                    + decimal_digits(encode_utf8(text@).len())) by {
                    reveal_strlit("Failed to serialize text: ");
                    reveal_strlit("exceeded max sequence length: ");
                    reveal_strlit("Failed to serialize text: exceeded max sequence length: ");
                }
                Err(CanaryError::Registry(message))
            },
        }
    }

    /// An address as a call argument: its 32 bytes as they stand.
    pub fn pure_address(address: &Address) -> (res: CallArgument)
        ensures
            res@ == CallArgumentView::Pure(address@),
    {
        CallArgument::Pure(address.to_vec())
    }

    /// A 64-bit integer as a call argument: eight bytes, least significant
    /// first.
    pub fn pure_u64(value: u64) -> (res: CallArgument)
        ensures
            res@ matches CallArgumentView::Pure(bytes) && bytes.len() == 8 && little_endian(bytes)
                == value,
    {
        CallArgument::Pure(u64_bytes(value))
    }

    /// A truth value as a call argument: the byte 1 for true, 0 for false.
    pub fn pure_bool(value: bool) -> (res: CallArgument)
        ensures
            res@ == CallArgumentView::Pure(
                seq![if value {
                    1u8
                } else {
                    0u8
                }],
            ),
    {
        let mut bytes: Vec<u8> = Vec::new();
        bytes.push(if value { 1u8 } else { 0u8 });
        assert(bytes@ =~= seq![if value { 1u8 } else { 0u8 }]);
        CallArgument::Pure(bytes)
    }
}

} // verus!
