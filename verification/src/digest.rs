//! Digests written as hexadecimal text.
//!
//! A digest property holds 32 bytes as 64 hex digits. The digits are read by
//! the `hex` crate; what is done with its answer is decided here.

use vstd::prelude::*;
use vstd::utf8::*;

verus! {

/// The error of the `hex` crate's decoder. Nothing here looks inside it.
#[verifier::external_type_specification]
#[verifier::external_body]
pub struct ExFromHexError(hex::FromHexError);

/// The value of one hex digit, given as its ASCII byte; `None` for any other
/// byte. Both cases of the letters count.
pub open spec fn hex_digit(byte: u8) -> Option<int> {
    if 0x30 <= byte <= 0x39 {
        Some(byte - 0x30)
    } else if 0x41 <= byte <= 0x46 {
        Some(byte - 0x41 + 10)
    } else if 0x61 <= byte <= 0x66 {
        Some(byte - 0x61 + 10)
    } else {
        None
    }
}

/// Whether `text` is hex digits throughout, two for each byte.
pub open spec fn is_hex(text: Seq<u8>) -> bool {
    &&& text.len() % 2 == 0
    &&& forall|i: int| 0 <= i < text.len() ==> hex_digit(#[trigger] text[i]) is Some
}

/// The bytes that the hex digits of `text` spell, high digit first.
pub open spec fn hex_bytes(text: Seq<u8>) -> Seq<u8> {
    Seq::new(
        text.len() / 2,
        |i: int| (16 * hex_digit(text[2 * i]).unwrap() + hex_digit(text[2 * i + 1]).unwrap()) as u8,
    )
}

/// Calls `hex::decode`. The contract repeats what that function does: it
/// refuses a text of odd length and a text with any byte that is not a hex
/// digit, and otherwise returns one byte for each pair of digits, the first
/// digit of a pair being the high half.
#[verifier::external_body]
fn hex_decode(text: &[u8]) -> (decoded: Result<Vec<u8>, hex::FromHexError>)
    ensures
        decoded is Ok <==> is_hex(text@),
        decoded matches Ok(bytes) ==> bytes@ == hex_bytes(text@),
{
    hex::decode(text)
}

/// The all-zero digest.
pub open spec fn zero_digest() -> Seq<u8> {
    Seq::new(32, |i: int| 0u8)
}

/// The digest that `value` spells: its 64 hex digits read as 32 bytes, or
/// `None` where `value` is anything else.
pub open spec fn spec_parse_digest(value: Seq<char>) -> Option<Seq<u8>> {
    let text = encode_utf8(value);
    if is_hex(text) && text.len() == 64 {
        Some(hex_bytes(text))
    } else {
        None
    }
}

/// The digest to report for `value`: the one it spells, or all zeros where it
/// spells none.
pub open spec fn spec_decode_digest(value: Seq<char>) -> Seq<u8> {
    match spec_parse_digest(value) {
        Some(digest) => digest,
        None => zero_digest(),
    }
}

/// Reads `value` as a 32-byte digest written in 64 hex digits.
pub fn parse_digest(value: &str) -> (digest: Option<Vec<u8>>)
    ensures
        digest is Some <==> spec_parse_digest(value@) is Some,
        digest matches Some(bytes) ==> Some(bytes@) == spec_parse_digest(value@),
{
    match hex_decode(value.as_bytes()) {
        Ok(bytes) => {
            if bytes.len() == 32 {
                Some(bytes)
            } else {
                None
            }
        },
        Err(_) => None,
    }
}

/// Thirty-two zero bytes.
pub fn zero_digest_bytes() -> (digest: Vec<u8>)
    ensures
        digest@ == zero_digest(),
{
    let mut digest: Vec<u8> = Vec::new();
    let mut i: usize = 0;
    while i < 32
        invariant
            i <= 32,
            digest.len() == i,
            forall|k: int| 0 <= k < i ==> digest[k] == 0u8,
        decreases 32 - i,
    {
        digest.push(0u8);
        i += 1;
    }
    assert(digest@ =~= zero_digest());
    digest
}

/// Reads `value` as a digest, and answers all zeros where it is not one. The
/// result always has 32 bytes.
pub fn decode_digest(value: &str) -> (digest: Vec<u8>)
    ensures
        digest@ == spec_decode_digest(value@),
        digest.len() == 32,
{
    match parse_digest(value) {
        Some(bytes) => bytes,
        None => zero_digest_bytes(),
    }
}

/// The text that stands in for a digest property that is not there: 64 zero
/// digits.
pub open spec fn absent_digest_text() -> Seq<char> {
    "0000000000000000000000000000000000000000000000000000000000000000"@
}

/// The stand-in for a digest property that is not there.
pub fn absent_digest() -> (text: &'static str)
    ensures
        text@ == absent_digest_text(),
{
    "0000000000000000000000000000000000000000000000000000000000000000"
}

/// Whatever a digest property holds, the digest reported for it has 32 bytes.
pub proof fn decoded_digest_has_32_bytes(value: Seq<char>)
    ensures
        spec_decode_digest(value).len() == 32,
{
}

/// The stand-in for an absent digest property decodes to the all-zero digest.
pub proof fn absent_digest_is_zero()
    ensures
        spec_parse_digest(absent_digest_text()) == Some(zero_digest()),
        spec_decode_digest(absent_digest_text()) == zero_digest(),
{
    let value = absent_digest_text();
    reveal_strlit("0000000000000000000000000000000000000000000000000000000000000000");
    assert(value.len() == 64);
    assert forall|i: int| 0 <= i < value.len() implies #[trigger] value[i] == '0' by {}
    assert(is_ascii_chars(value));
    is_ascii_chars_encode_utf8(value);
    let text = encode_utf8(value);
    assert forall|i: int| 0 <= i < text.len() implies #[trigger] text[i] == 0x30u8 by {
        assert(value[i] == '0');
    }
    assert(is_hex(text));
    assert(hex_bytes(text) =~= zero_digest());
}

} // verus!
