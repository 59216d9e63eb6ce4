//! The transcoder: plain bytes to save-file text and back.

use vstd::prelude::*;
use crate::cipher::cipher_key;
use crate::cipher::encode_or_decode;
use crate::cipher::lemma_xor_with_key_involution;
use crate::cipher::xor_with_key;
use crate::codec::base64_decode;
use crate::codec::base64_encode;
use crate::codec::base64_of;
use crate::codec::is_base64_char;
use crate::codec::DecodeError;

verus! {

/// `text` is the save-file form of `bytes`: the canonical base64 text of
/// the bytes XORed with the fixed key.
pub open spec fn is_save_text_of(text: Seq<char>, bytes: Seq<u8>) -> bool {
    text == base64_of(xor_with_key(bytes))
}

/// Plain bytes to save text: XOR with the fixed key, then base64-encode.
/// Total; the empty input yields the empty text.
pub fn encode_save(plain: &[u8]) -> (text: String)
    ensures
        is_save_text_of(text@, plain@),
        plain@.len() == 0 ==> text@.len() == 0,
        forall|i: int| 0 <= i < text@.len() ==> is_base64_char(text@[i]),
{
    let mut buf: Vec<u8> = Vec::new();
    for i in 0..plain.len()
        invariant
            buf@.len() == i,
            forall|j: int| 0 <= j < i ==> buf@[j] == plain@[j],
    {
        let b = plain[i];
        buf.push(b);
    }
    proof {
        assert(buf@ =~= plain@);
    }
    let key = cipher_key();
    encode_or_decode(&mut buf, key.as_slice());
    base64_encode(buf.as_slice())
}

/// Save text to plain bytes: base64-decode, then XOR with the fixed key.
/// Succeeds exactly when `text` is the save-file form of some byte
/// sequence, and then returns exactly that sequence; any character outside
/// the base64 alphabet makes it fail.
pub fn decode_save(text: &str) -> (r: Result<Vec<u8>, DecodeError>)
    ensures
        r matches Ok(plain) ==> is_save_text_of(text@, plain@) && (forall|b: Seq<u8>|
            is_save_text_of(text@, b) ==> b == plain@),
        r is Err ==> (forall|b: Seq<u8>| !is_save_text_of(text@, b)),
        text@.len() == 0 ==> r is Ok && r->Ok_0@.len() == 0,
        (exists|i: int| 0 <= i < text@.len() && !is_base64_char(text@[i])) ==> r is Err,
{
    match base64_decode(text) {
        Ok(mut raw) => {
            let ghost raw0: Seq<u8> = raw@;
            let key = cipher_key();
            encode_or_decode(&mut raw, key.as_slice());
            proof {
                lemma_xor_with_key_involution(raw0);
                assert(is_save_text_of(text@, raw@));
                assert forall|b: Seq<u8>| is_save_text_of(text@, b) implies b == raw@ by {
                    lemma_xor_with_key_involution(b);
                    assert(xor_with_key(b) == raw0);
                }
            }
            Ok(raw)
        },
        Err(e) => {
            proof {
                assert forall|b: Seq<u8>| !is_save_text_of(text@, b) by {
                    assert(text@ != base64_of(xor_with_key(b)));
                }
            }
            Err(e)
        },
    }
}

/// Round-trip identity: decoding the save text of any byte sequence
/// succeeds and gives back exactly that sequence.
pub fn round_trip(plain: &[u8]) -> (r: Result<Vec<u8>, DecodeError>)
    ensures
        r is Ok && r->Ok_0@ == plain@,
{
    let text = encode_save(plain);
    let r = decode_save(text.as_str());
    proof {
        assert(is_save_text_of(text@, plain@));
        assert(r is Ok);
    }
    r
}

} // verus!
