//! Text encodings of byte strings: hexadecimal for seeds, base58 for keys,
//! addresses and signatures.

use vstd::prelude::*;

verus! {

/// The value of one hexadecimal digit, in either case.
pub open spec fn hex_digit(c: char) -> Option<int> {
    if '0' <= c && c <= '9' {
        Some(c as int - '0' as int)
    } else if 'a' <= c && c <= 'f' {
        Some(c as int - 'a' as int + 10)
    } else if 'A' <= c && c <= 'F' {
        Some(c as int - 'A' as int + 10)
    } else {
        None
    }
}

/// A text of an even number of hexadecimal digits.
pub open spec fn is_hex(text: Seq<char>) -> bool {
    &&& text.len() % 2 == 0
    &&& forall|i: int| 0 <= i < text.len() ==> (#[trigger] hex_digit(text[i])) is Some
}

/// The bytes that a hexadecimal text writes down, two digits to a byte with
/// the high digit first; `None` where the text is not hexadecimal.
pub open spec fn hex_decoded(text: Seq<char>) -> Option<Seq<u8>> {
    if is_hex(text) {
        Some(
            Seq::new(
                text.len() / 2,
                |i: int| (16 * hex_digit(text[2 * i]).unwrap() + hex_digit(text[2 * i + 1]).unwrap()) as u8,
            ),
        )
    } else {
        None
    }
}

/// The base58 text of a byte string, in the Bitcoin alphabet, as
/// `bs58::encode` writes it.
pub uninterp spec fn base58(bytes: Seq<u8>) -> Seq<char>;

/// The byte string that a base58 text stands for, as `bs58::decode` reads
/// it; `None` where it rejects the text.
pub uninterp spec fn base58_decoded(text: Seq<char>) -> Option<Seq<u8>>;

/// `hex::FromHexError`: why a text is not hexadecimal, carried through as it
/// is.
#[verifier::external_type_specification]
#[verifier::external_body]
pub struct ExFromHexError(hex::FromHexError);

/// `hex::decode` on a string: the bytes of a text of an even number of
/// hexadecimal digits, an error for every other text.
#[verifier::external_body]
pub(crate) fn hex_decode(text: &str) -> (r: Result<Vec<u8>, hex::FromHexError>)
    ensures
        r is Ok <==> hex_decoded(text@) is Some,
        r matches Ok(bytes) ==> hex_decoded(text@) == Some(bytes@),
{
    hex::decode(text)
}

/// `bs58::encode(..).into_string()`: the base58 text of the bytes.
#[verifier::external_body]
pub(crate) fn bs58_encode(bytes: &[u8]) -> (r: String)
    ensures
        r@ == base58(bytes@),
{
    solana_sdk::bs58::encode(bytes).into_string()
}

/// `bs58::decode(..).into_vec()`: the bytes of a base58 text, or nothing
/// where the text holds a character outside the alphabet.
#[verifier::external_body]
pub(crate) fn bs58_decode(text: &str) -> (r: Option<Vec<u8>>)
    ensures
        r is Some <==> base58_decoded(text@) is Some,
        r matches Some(bytes) ==> base58_decoded(text@) == Some(bytes@),
{
    solana_sdk::bs58::decode(text).into_vec().ok()
}

} // verus!
