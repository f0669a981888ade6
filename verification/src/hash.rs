//! Commitments and preimages: 32-byte values written in hex, and the SHA-256
//! digest that ties one to the other.

use crate::error::{ContractError, HexError, InvalidHash};
use sha2::{Digest, Sha256};
use vstd::prelude::*;
use vstd::string::StringSliceAdditionalSpecFns;
use vstd::utf8::encode_utf8;

verus! {

/// The number a hex digit stands for, in either case; `None` for any other
/// byte.
pub open spec fn hex_digit_value(b: u8) -> Option<u8> {
    if 0x30 <= b <= 0x39 {
        Some((b - 0x30) as u8)
    } else if 0x41 <= b <= 0x46 {
        Some((b - 0x41 + 10) as u8)
    } else if 0x61 <= b <= 0x66 {
        Some((b - 0x61 + 10) as u8)
    } else {
        None
    }
}

/// The position of the first byte at or after `from` that is no hex digit,
/// or the length of `text` if there is none.
pub open spec fn first_non_hex(text: Seq<u8>, from: int) -> int
    decreases text.len() - from,
{
    if from < 0 || from >= text.len() || hex_digit_value(text[from]) is None {
        from
    } else {
        first_non_hex(text, from + 1)
    }
}

/// The bytes that an even number of hex digits spell, two digits to a byte,
/// the high digit first.
pub open spec fn hex_bytes(text: Seq<u8>) -> Seq<u8> {
    Seq::new(
        text.len() / 2,
        |k: int|
            (16 * hex_digit_value(text[2 * k]).unwrap() + hex_digit_value(
                text[2 * k + 1],
            ).unwrap()) as u8,
    )
}

/// What decoding `text` as hex gives: the bytes it spells, or the reason it
/// spells none. An odd length is reported before any bad digit, and of
/// several bad digits the first.
pub open spec fn hex_decoded(text: Seq<u8>) -> Result<Seq<u8>, HexError> {
    let bad = first_non_hex(text, 0);
    if text.len() % 2 != 0 {
        Err(HexError::OddLength)
    } else if bad < text.len() {
        Err(HexError::InvalidHexCharacter { c: text[bad] as char, index: bad as usize })
    } else {
        Ok(hex_bytes(text))
    }
}

/// What reading `text` as a 32-byte value in hex gives.
pub open spec fn hex_32(text: Seq<char>) -> Result<Seq<u8>, ContractError> {
    match hex_decoded(encode_utf8(text)) {
        Ok(bytes) => if bytes.len() == 32 {
            Ok(bytes)
        } else {
            Err(ContractError::ValidationError(InvalidHash::WrongLength))
        },
        Err(e) => Err(ContractError::ValidationError(InvalidHash::Malformed(e))),
    }
}

/// Whether `c` is one of `0-9`, `a-f`, `A-F`.
pub open spec fn is_hex_char(c: char) -> bool {
    ||| '0' <= c <= '9'
    ||| 'a' <= c <= 'f'
    ||| 'A' <= c <= 'F'
}

/// `first_non_hex` finds what its name says: every byte before the position
/// is a hex digit, and the byte at it, if there is one, is not.
pub proof fn lemma_first_non_hex(text: Seq<u8>, from: int)
    requires
        0 <= from <= text.len(),
    ensures
        from <= first_non_hex(text, from) <= text.len(),
        forall|i: int|
            from <= i < first_non_hex(text, from) ==> hex_digit_value(#[trigger] text[i]) is Some,
        first_non_hex(text, from) < text.len() ==> hex_digit_value(
            text[first_non_hex(text, from)],
        ) is None,
    decreases text.len() - from,
{
    if from < text.len() && hex_digit_value(text[from]) is Some {
        lemma_first_non_hex(text, from + 1);
    }
}

/// Text whose UTF-8 bytes all lie below 0x80 has one byte to a character,
/// and each byte is its character's code.
pub proof fn lemma_ascii_bytes(text: Seq<char>)
    requires
        forall|i: int| 0 <= i < encode_utf8(text).len() ==> #[trigger] encode_utf8(text)[i] < 0x80,
    ensures
        encode_utf8(text).len() == text.len(),
        forall|i: int| 0 <= i < text.len() ==> #[trigger] text[i] == encode_utf8(text)[i] as char,
    decreases text.len(),
{
    if text.len() > 0 {
        let c = text[0] as u32;
        let head = vstd::utf8::encode_scalar(c);
        let rest = text.drop_first();
        let bytes = encode_utf8(text);
        assert(bytes == head + encode_utf8(rest));
        assert(head.len() >= 1);
        assert(bytes[0] == head[0]);
        vstd::utf8::char_is_scalar(text[0]);
        if !vstd::utf8::has_width_1_encoding(c) {
            // a character of several bytes begins with a byte of 0xC0 or more
            assert(0xC0u8 | ((c >> 6) & 0x1F) as u8 >= 0x80) by (bit_vector);
            assert(0xE0u8 | ((c >> 12) & 0x0F) as u8 >= 0x80) by (bit_vector);
            assert(0xF0u8 | ((c >> 18) & 0x7) as u8 >= 0x80) by (bit_vector);
            assert(false);
        }
        assert((c & 0x7F) as u8 == c) by (bit_vector)
            requires
                c <= 0x7F,
        ;
        assert(head.len() == 1);
        assert(encode_utf8(rest) =~= bytes.skip(1));
        assert forall|i: int| 0 <= i < encode_utf8(rest).len() implies #[trigger] encode_utf8(
            rest,
        )[i] < 0x80 by {
            assert(encode_utf8(rest)[i] == bytes[i + 1]);
        }
        lemma_ascii_bytes(rest);
        vstd::utf8::char_u32_cast(text[0], c);
        assert forall|i: int| 0 <= i < text.len() implies #[trigger] text[i] == bytes[i] as char by {
            if i > 0 {
                assert(text[i] == rest[i - 1]);
                assert(bytes[i] == encode_utf8(rest)[i - 1]);
            }
        }
    }
}

/// The SHA-256 digest of `data`, as `Sha256::digest` of the `sha2` crate
/// computes it.
pub uninterp spec fn sha256(data: Seq<u8>) -> Seq<u8>;

/// Calls `hex::decode`. The contract restates what that function does: it
/// refuses an odd number of bytes, else refuses the first byte that is not
/// one of `0-9`, `a-f`, `A-F`, naming it and its position, else returns one
/// byte for every two digits. It never reports `InvalidStringLength`.
#[verifier::external_body]
pub(crate) fn hex_decode(data: &[u8]) -> (res: Result<Vec<u8>, HexError>)
    ensures
        (match res {
            Ok(bytes) => hex_decoded(data@) == Ok::<Seq<u8>, HexError>(bytes@),
            Err(e) => hex_decoded(data@) == Err::<Seq<u8>, HexError>(e),
        }),
{
    match hex::decode(data) {
        Ok(bytes) => Ok(bytes),
        Err(hex::FromHexError::InvalidHexCharacter { c, index }) => Err(
            HexError::InvalidHexCharacter { c, index },
        ),
        Err(hex::FromHexError::OddLength) => Err(HexError::OddLength),
        Err(hex::FromHexError::InvalidStringLength) => Err(HexError::InvalidStringLength),
    }
}

/// Calls `Sha256::digest` of the `sha2` crate. Nothing is claimed of the
/// digest but that it is the one `sha256` names: the same for the same
/// input bytes.
#[verifier::external_body]
pub(crate) fn sha256_digest(data: &[u8]) -> (digest: Vec<u8>)
    ensures
        digest@ == sha256(data@),
{
    Sha256::digest(data).as_slice().to_vec()
}

/// Reads `data` as a 32-byte value in hex.
///
/// Fails with `ValidationError(Malformed(..))` where `data` is not hex, and
/// with `ValidationError(WrongLength)` where it is hex of another length.
pub fn parse_hex_32(data: &str) -> (res: Result<Vec<u8>, ContractError>)
    ensures
        (match res {
            Ok(bytes) => hex_32(data@) == Ok::<Seq<u8>, ContractError>(bytes@),
            Err(e) => hex_32(data@) == Err::<Seq<u8>, ContractError>(e),
        }),
{
    match hex_decode(data.as_bytes()) {
        Ok(bin) => {
            if bin.len() == 32 {
                Ok(bin)
            } else {
                Err(ContractError::ValidationError(InvalidHash::WrongLength))
            }
        },
        Err(e) => Err(ContractError::ValidationError(InvalidHash::Malformed(e))),
    }
}

/// Whether `digest` is `expected`, byte for byte.
pub fn digest_matches(digest: &[u8], expected: &[u8]) -> (res: bool)
    ensures
        res == (digest@ == expected@),
{
    if digest.len() != expected.len() {
        return false;
    }
    let mut i: usize = 0;
    while i < digest.len()
        invariant
            digest.len() == expected.len(),
            i <= digest.len(),
            forall|k: int| 0 <= k < i ==> digest@[k] == expected@[k],
        decreases digest.len() - i,
    {
        if digest[i] != expected[i] {
            return false;
        }
        i += 1;
    }
    assert(digest@ =~= expected@);
    true
}

} // verus!
