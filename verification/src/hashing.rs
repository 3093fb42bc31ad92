//! Provider identity hashing.
//!
//! The admission rule compares a file fingerprint against the Blake2-256
//! hash of the candidate provider's identity in its wire encoding (an
//! unsigned 64-bit account id encoded as eight little-endian bytes).

use vstd::prelude::*;

verus! {

/// The Blake2b-256 digest of a byte sequence. The digest is a function of
/// the input bytes alone; no short formula states it, so it is left
/// uninterpreted and pinned down only by the trusted wrapper below.
pub uninterp spec fn blake2_256_of(data: Seq<u8>) -> Seq<u8>;

/// The eight-byte little-endian encoding of an unsigned 64-bit value, the
/// chain's wire encoding for account ids.
pub open spec fn u64_le_bytes(w: u64) -> Seq<u8> {
    Seq::new(8, |i: int| ((w >> (8 * i)) & 0xff) as u8)
}

/// Relies on `sp_core::Blake2Hasher::hash` (Blake2b-256): a 32-byte digest
/// that depends on the input bytes alone.
#[verifier::external_body]
fn blake2_256_call(data: &Vec<u8>) -> (r: Vec<u8>)
    ensures
        r@ == blake2_256_of(data@),
        r@.len() == 32,
{
    <sp_core::Blake2Hasher as sp_core::Hasher>::hash(data.as_slice()).0.to_vec()
}

/// Encodes an account id as eight little-endian bytes.
pub fn encode_account(who: u64) -> (r: Vec<u8>)
    ensures
        r@ == u64_le_bytes(who),
{
    let mut out: Vec<u8> = Vec::with_capacity(8);
    let mut i: usize = 0;
    while i < 8
        invariant
            i <= 8,
            out@ =~= u64_le_bytes(who).take(i as int),
        decreases 8 - i,
    {
        out.push(((who >> (8 * i as u64)) & 0xff) as u8);
        i += 1;
    }
    proof {
        assert(out@ =~= u64_le_bytes(who));
    }
    out
}

/// The Blake2-256 hash of an account id's wire encoding.
pub fn hash_account(who: u64) -> (r: Vec<u8>)
    ensures
        r@ == blake2_256_of(u64_le_bytes(who)),
        r@.len() == 32,
{
    let encoded = encode_account(who);
    blake2_256_call(&encoded)
}

} // verus!
