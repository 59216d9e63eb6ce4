//! The repeating-key XOR cipher that obfuscates save-file bytes.

use vstd::prelude::*;

verus! {

/// The fixed cipher key: the ASCII bytes of `"key"`.
pub open spec fn key_spec() -> Seq<u8> {
    seq![0x6bu8, 0x65u8, 0x79u8]
}

/// The repeating-key XOR of `data` under `key`: byte `i` of the result is
/// `data[i] ^ key[i % key.len()]`.
pub open spec fn xor_with(data: Seq<u8>, key: Seq<u8>) -> Seq<u8>
    recommends
        key.len() > 0,
{
    Seq::new(data.len(), |i: int| data[i] ^ key[i % key.len() as int])
}

/// `data` obfuscated with the fixed key.
pub open spec fn xor_with_key(data: Seq<u8>) -> Seq<u8> {
    xor_with(data, key_spec())
}

/// The fixed cipher key as bytes.
pub fn cipher_key() -> (k: Vec<u8>)
    ensures
        k@ == key_spec(),
        k@.len() == 3,
{
    let k: Vec<u8> = vec![0x6b, 0x65, 0x79];
    proof {
        assert(k@ =~= key_spec());
    }
    k
}

/// XOR each byte of `data`, in place, with the byte of `key` at the same
/// index modulo the key length. Applying it twice restores `data`.
pub fn encode_or_decode(data: &mut Vec<u8>, key: &[u8])
    requires
        key@.len() > 0,
    ensures
        final(data)@ == xor_with(old(data)@, key@),
{
    let ghost orig: Seq<u8> = data@;
    let n = data.len();
    for i in 0..n
        invariant
            n == orig.len(),
            data@.len() == orig.len(),
            key@.len() > 0,
            forall|j: int| 0 <= j < i ==> data@[j] == (orig[j] ^ key@[j % key@.len() as int]),
            forall|j: int| i <= j < orig.len() ==> data@[j] == orig[j],
    {
        let b = data[i] ^ key[i % key.len()];
        data.set(i, b);
    }
    proof {
        assert(data@ =~= xor_with(orig, key@));
    }
}

proof fn lemma_xor_byte_cancel()
    by (bit_vector)
    ensures
        forall|a: u8, b: u8| #[trigger] ((a ^ b) ^ b) == a,
{
}

/// The cipher is an involution: XORing twice with the same non-empty key
/// gives back the original bytes, for any length of `data`, zero included.
pub proof fn lemma_xor_involution(data: Seq<u8>, key: Seq<u8>)
    requires
        key.len() > 0,
    ensures
        xor_with(xor_with(data, key), key) == data,
{
    lemma_xor_byte_cancel();
    assert(xor_with(xor_with(data, key), key) =~= data);
}

/// The involution, specialised to the fixed key.
pub proof fn lemma_xor_with_key_involution(data: Seq<u8>)
    ensures
        xor_with_key(xor_with_key(data)) == data,
{
    lemma_xor_involution(data, key_spec());
}

} // verus!
