//! Text encodings used inside a vault: hexadecimal, base64 and UTF-8.
use vstd::prelude::*;
use vstd::utf8::{decode_utf8, valid_utf8};
use base64::Engine;

verus! {

/// The views of an optional byte buffer.
pub open spec fn bytes_of(r: Option<Vec<u8>>) -> Option<Seq<u8>> {
    match r {
        Some(v) => Some(v@),
        None => None,
    }
}

/// The value of one hexadecimal digit, in either case.
pub open spec fn hex_digit(c: char) -> Option<int> {
    let v = c as u32 as int;
    if 48 <= v <= 57 {
        Some(v - 48)
    } else if 65 <= v <= 70 {
        Some(v - 55)
    } else if 97 <= v <= 102 {
        Some(v - 87)
    } else {
        None
    }
}

/// A text is hexadecimal when it has an even number of characters and each
/// of them is a hexadecimal digit.
pub open spec fn is_hex(s: Seq<char>) -> bool {
    &&& s.len() % 2 == 0
    &&& forall|i: int| 0 <= i < s.len() ==> (#[trigger] hex_digit(s[i])) is Some
}

/// The bytes that a hexadecimal text stands for: two digits per byte, the
/// high one first.
pub open spec fn hex_bytes(s: Seq<char>) -> Seq<u8> {
    Seq::new(
        (s.len() / 2) as nat,
        |i: int| (16 * hex_digit(s[2 * i]).unwrap() + hex_digit(s[2 * i + 1]).unwrap()) as u8,
    )
}

/// What the standard base64 alphabet, with canonical padding, decodes a text
/// to; `None` where the text is not valid base64.
pub uninterp spec fn base64_standard(s: Seq<char>) -> Option<Seq<u8>>;

/// Calls `hex::decode`. Trusted: the call succeeds exactly on hexadecimal
/// text, and then returns the bytes that the digit pairs stand for.
#[verifier::external_body]
pub(crate) fn hex_decode(s: &str) -> (r: Option<Vec<u8>>)
    ensures
        r is Some <==> is_hex(s@),
        r matches Some(v) ==> v@ == hex_bytes(s@),
{
    hex::decode(s).ok()
}

/// Calls `Engine::decode` of `base64::engine::general_purpose::STANDARD`.
/// Trusted: the outcome is a function of the text alone.
#[verifier::external_body]
pub(crate) fn base64_decode(s: &str) -> (r: Option<Vec<u8>>)
    ensures
        bytes_of(r) == base64_standard(s@),
{
    base64::engine::general_purpose::STANDARD.decode(s).ok()
}

/// Calls `String::from_utf8`. Trusted: the call succeeds exactly on valid
/// UTF-8, and then returns the text that the bytes encode.
#[verifier::external_body]
pub(crate) fn utf8_text(bytes: Vec<u8>) -> (r: Option<String>)
    ensures
        r is Some <==> valid_utf8(bytes@),
        r matches Some(s) ==> s@ == decode_utf8(bytes@),
{
    String::from_utf8(bytes).ok()
}

} // verus!
