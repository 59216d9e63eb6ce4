//! Standard base64, called through the `base64` crate.
//!
//! The text of an encoding is named by the uninterpreted `base64_of`; the two
//! wrappers state what the crate's `STANDARD` engine guarantees about it.

use vstd::prelude::*;
use base64::Engine;

verus! {

/// A character of the standard base64 alphabet, or the `=` padding character.
pub open spec fn is_base64_char(c: char) -> bool {
    ('A' <= c && c <= 'Z') || ('a' <= c && c <= 'z') || ('0' <= c && c <= '9')
        || c == '+' || c == '/' || c == '='
}

/// The canonical padded standard base64 text of a byte sequence.
pub uninterp spec fn base64_of(bytes: Seq<u8>) -> Seq<char>;

/// Why base64 decoding failed; mirrors the decoder's own error report.
#[derive(Clone, Copy, Debug, PartialEq, Eq)]
pub enum DecodeError {
    /// A byte outside the base64 alphabet, with its offset.
    InvalidByte(usize, u8),
    /// The count of base64 symbols leaves an impossible remainder.
    InvalidLength(usize),
    /// The last symbol is in the alphabet but carries nonzero bits that no
    /// byte sequence could have produced: offset, symbol, its 6-bit value.
    InvalidLastSymbol(usize, u8, u8),
    /// Padding absent or not canonical.
    InvalidPadding,
}

/// Relies on the `base64` crate's `STANDARD` engine: `encode` returns the
/// canonical padded base64 text of its input over the standard alphabet,
/// empty for empty input, made of alphabet and padding characters only.
#[verifier::external_body]
pub(crate) fn base64_encode(bytes: &[u8]) -> (text: String)
    ensures
        text@ == base64_of(bytes@),
        bytes@.len() == 0 ==> text@.len() == 0,
        forall|i: int| 0 <= i < text@.len() ==> is_base64_char(text@[i]),
{
    base64::engine::general_purpose::STANDARD.encode(bytes)
}

/// What standard base64 decoding owes on `text`: `Ok` exactly when `text`
/// is the canonical encoding of some byte sequence — and then of exactly the
/// returned one — and `Err` otherwise.
pub(crate) open spec fn base64_decode_post(text: Seq<char>, r: Result<Vec<u8>, DecodeError>) -> bool {
    match r {
        Ok(bytes) => text == base64_of(bytes@) && (forall|b: Seq<u8>|
            text == base64_of(b) ==> b == bytes@),
        Err(_) => forall|b: Seq<u8>| text != base64_of(b),
    }
}

/// Relies on the `base64` crate's `STANDARD` engine: `decode` succeeds
/// exactly on the canonical padded encoding of some byte sequence (the
/// engine requires canonical padding and rejects nonzero trailing bits), so
/// an `Ok` pins the input down to that encoding, and any character outside
/// the alphabet makes it fail. The empty text decodes to the empty sequence.
#[verifier::external_body]
pub(crate) fn base64_decode(text: &str) -> (r: Result<Vec<u8>, DecodeError>)
    ensures
        base64_decode_post(text@, r),
        text@.len() == 0 ==> r is Ok && r->Ok_0@.len() == 0,
        (exists|i: int| 0 <= i < text@.len() && !is_base64_char(text@[i])) ==> r is Err,
{
    match base64::engine::general_purpose::STANDARD.decode(text) {
        Ok(bytes) => Ok(bytes),
        Err(base64::DecodeError::InvalidByte(offset, byte)) => {
            Err(DecodeError::InvalidByte(offset, byte))
        },
        Err(base64::DecodeError::InvalidLength(len)) => Err(DecodeError::InvalidLength(len)),
        Err(base64::DecodeError::InvalidLastSymbol { offset, symbol, symbol_value }) => {
            Err(DecodeError::InvalidLastSymbol(offset, symbol, symbol_value))
        },
        Err(base64::DecodeError::InvalidPadding) => Err(DecodeError::InvalidPadding),
    }
}

} // verus!
