//! Eligibility oracle: the deterministic admission score.
//!
//! The score of a `(fingerprint, provider)` pair is the byte-wise
//! exclusive-or of the 32-byte file fingerprint with the 32-byte Blake2-256
//! hash of the provider identity, reinterpreted as the threshold numeric
//! type. The reinterpretation reads the first four bytes of the result in
//! little-endian order, the byte order of the chain's wire encoding; the
//! convention is part of the protocol and must not change.

use vstd::prelude::*;
use crate::hashing::{blake2_256_of, hash_account, u64_le_bytes};

verus! {

/// The byte-wise exclusive-or of two equal-length byte sequences.
pub open spec fn xor_bytes(a: Seq<u8>, b: Seq<u8>) -> Seq<u8> {
    Seq::new(a.len(), |i: int| a[i] ^ b[i])
}

/// The number read from the first four bytes of `s` in little-endian order.
pub open spec fn le_u32(s: Seq<u8>) -> u32
    recommends
        s.len() >= 4,
{
    (s[0] + s[1] * 0x100 + s[2] * 0x1_0000 + s[3] * 0x100_0000) as u32
}

/// Byte-wise exclusive-or of a 32-byte fingerprint with a 32-byte provider
/// identity hash.
pub fn calculate_xor(fingerprint: &Vec<u8>, bsp: &Vec<u8>) -> (r: Vec<u8>)
    requires
        fingerprint@.len() == 32,
        bsp@.len() == 32,
    ensures
        r@ == xor_bytes(fingerprint@, bsp@),
{
    let mut xor_result: Vec<u8> = Vec::with_capacity(32);
    let mut i: usize = 0;
    while i < 32
        invariant
            fingerprint@.len() == 32,
            bsp@.len() == 32,
            i <= 32,
            xor_result@ =~= xor_bytes(fingerprint@, bsp@).take(i as int),
        decreases 32 - i,
    {
        xor_result.push(fingerprint[i] ^ bsp[i]);
        i += 1;
    }
    proof {
        assert(xor_result@ =~= xor_bytes(fingerprint@, bsp@));
    }
    xor_result
}

/// Reads an admission threshold from a score's byte representation: the
/// first four bytes, little-endian.
pub fn decode_threshold(bytes: &Vec<u8>) -> (r: u32)
    requires
        bytes@.len() >= 4,
    ensures
        r == le_u32(bytes@),
{
    bytes[0] as u32 + bytes[1] as u32 * 0x100 + bytes[2] as u32 * 0x1_0000 + bytes[3] as u32
        * 0x100_0000
}

/// The admission score of a fingerprint against a provider identity hash.
pub open spec fn score_of_hash(fingerprint: Seq<u8>, provider_id_hash: Seq<u8>) -> u32 {
    le_u32(xor_bytes(fingerprint, provider_id_hash))
}

/// The admission score of a fingerprint against a provider account: the
/// provider identity hash is the Blake2-256 digest of the account's wire
/// encoding.
pub open spec fn score_of(fingerprint: Seq<u8>, who: u64) -> u32 {
    score_of_hash(fingerprint, blake2_256_of(u64_le_bytes(who)))
}

/// The admission score from a 32-byte fingerprint and a 32-byte provider
/// identity hash.
pub fn score(fingerprint: &Vec<u8>, provider_id_hash: &Vec<u8>) -> (r: u32)
    requires
        fingerprint@.len() == 32,
        provider_id_hash@.len() == 32,
    ensures
        r == score_of_hash(fingerprint@, provider_id_hash@),
{
    let xored = calculate_xor(fingerprint, provider_id_hash);
    decode_threshold(&xored)
}

/// The admission score of a provider account for a fingerprint.
pub fn compute_score(fingerprint: &Vec<u8>, who: u64) -> (r: u32)
    requires
        fingerprint@.len() == 32,
    ensures
        r == score_of(fingerprint@, who),
{
    let provider_id_hash = hash_account(who);
    score(fingerprint, &provider_id_hash)
}

/// The number of elapsed blocks after which the per-block rate increase
/// alone saturates the threshold type.
pub const SATURATION_BLOCKS: u64 = 429_497;

/// The per-block widening rate of the admission window.
pub const RATE_PER_BLOCK: u32 = 10_000;

/// The admission threshold in force at `current_block` for a request made
/// at `requested_at`: the base threshold plus a fixed rate for every
/// elapsed block, each step saturating at the bounds of the threshold
/// type.
pub open spec fn min_threshold_at(requested_at: u64, current_block: u64, base: u32) -> u32 {
    let blocks: int = if current_block >= requested_at {
        current_block - requested_at
    } else {
        0
    };
    let blocks32: int = if blocks > u32::MAX { u32::MAX as int } else { blocks };
    let rate: int = if blocks32 * RATE_PER_BLOCK > u32::MAX {
        u32::MAX as int
    } else {
        blocks32 * RATE_PER_BLOCK
    };
    let m: int = if rate + base > u32::MAX { u32::MAX as int } else { rate + base };
    m as u32
}

/// The admission threshold in force at `current_block` for a request made
/// at `requested_at`, over a base threshold of `base`.
pub fn min_threshold(requested_at: u64, current_block: u64, base: u32) -> (r: u32)
    ensures
        r == min_threshold_at(requested_at, current_block, base),
{
    let blocks: u64 = if current_block >= requested_at {
        current_block - requested_at
    } else {
        0
    };
    let blocks32: u32 = if blocks > u32::MAX as u64 {
        u32::MAX
    } else {
        blocks as u32
    };
    proof {
        assert(blocks32 as int * RATE_PER_BLOCK as int <= u32::MAX as int * 10_000) by (nonlinear_arith)
            requires
                blocks32 <= u32::MAX,
                RATE_PER_BLOCK == 10_000,
        ;
    }
    let rate64: u64 = blocks32 as u64 * RATE_PER_BLOCK as u64;
    let rate: u32 = if rate64 > u32::MAX as u64 {
        u32::MAX
    } else {
        rate64 as u32
    };
    let m64: u64 = rate as u64 + base as u64;
    if m64 > u32::MAX as u64 {
        u32::MAX
    } else {
        m64 as u32
    }
}

/// Whether a score qualifies for admission at `current_block`: small
/// scores (close to the fingerprint under the XOR metric) are admitted
/// early, every score eventually.
pub fn check_admission(score_value: u32, requested_at: u64, current_block: u64, base: u32) -> (r:
    bool)
    ensures
        r == (score_value <= min_threshold_at(requested_at, current_block, base)),
{
    score_value <= min_threshold(requested_at, current_block, base)
}

/// The admission window only widens as blocks elapse: a threshold in
/// force later is never below one in force earlier.
pub proof fn lemma_threshold_monotonic(requested_at: u64, b1: u64, b2: u64, base: u32)
    requires
        b1 <= b2,
    ensures
        min_threshold_at(requested_at, b1, base) <= min_threshold_at(requested_at, b2, base),
{
    let blocks1: int = if b1 >= requested_at { b1 - requested_at } else { 0 };
    let blocks2: int = if b2 >= requested_at { b2 - requested_at } else { 0 };
    assert(blocks1 <= blocks2);
    let c1: int = if blocks1 > u32::MAX { u32::MAX as int } else { blocks1 };
    let c2: int = if blocks2 > u32::MAX { u32::MAX as int } else { blocks2 };
    assert(c1 * RATE_PER_BLOCK <= c2 * RATE_PER_BLOCK) by (nonlinear_arith)
        requires 0 <= c1 <= c2;
}

/// Monotonic admission: a pair rejected at block `b` is admitted at some
/// later block, once elapsed blocks have widened the window past its
/// score. The guarantee needs room for that later block below the block
/// horizon.
pub proof fn lemma_admission_monotonic(score_value: u32, requested_at: u64, b: u64, base: u32)
    requires
        score_value > min_threshold_at(requested_at, b, base),
        b < u64::MAX,
        requested_at <= u64::MAX - SATURATION_BLOCKS,
    ensures
        exists|b2: u64|
            b < b2 && score_value <= min_threshold_at(requested_at, b2, base),
{
    let b2: u64 = if b + 1 >= requested_at + SATURATION_BLOCKS {
        (b + 1) as u64
    } else {
        (requested_at + SATURATION_BLOCKS) as u64
    };
    assert(min_threshold_at(requested_at, b2, base) == u32::MAX) by {
        let blocks: int = b2 - requested_at;
        assert(blocks >= SATURATION_BLOCKS);
        let blocks32: int = if blocks > u32::MAX { u32::MAX as int } else { blocks };
        assert(blocks32 >= SATURATION_BLOCKS);
        assert(blocks32 * RATE_PER_BLOCK >= SATURATION_BLOCKS * RATE_PER_BLOCK) by (nonlinear_arith)
            requires blocks32 >= SATURATION_BLOCKS;
        assert(SATURATION_BLOCKS * RATE_PER_BLOCK > u32::MAX);
    }
    assert(b < b2 && score_value <= min_threshold_at(requested_at, b2, base));
}

} // verus!
