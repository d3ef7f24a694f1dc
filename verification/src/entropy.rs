//! The entropy source: deterministic pseudo-random byte derivation.
//!
//! A snapshot of the ledger's slot counter is taken when randomness is
//! requested; at resolution it is combined, by wraparound multiply and add,
//! with the slot and wall-clock timestamp seen then and with the stake, and
//! reduced to a single byte.  The derivation is deterministic given its
//! inputs and depends on nothing the resolving caller can choose after the
//! randomness request.  It is an explicit placeholder for a verifiable
//! randomness source, not a cryptographic one.

use vstd::prelude::*;

verus! {

/// The snapshot kept at randomness-request time: the low 32 bits of the
/// slot counter.
pub open spec fn spec_slot_snapshot(slot: u64) -> u32 {
    (slot % 0x1_0000_0000) as u32
}

/// Takes the entropy snapshot stored during the randomness request.
pub fn slot_snapshot(slot: u64) -> (s: u32)
    ensures
        s == spec_slot_snapshot(slot),
{
    (slot % 0x1_0000_0000) as u32
}

/// The sampled byte: the snapshot times the resolution slot, plus the
/// timestamp and the stake, all modulo 2^64, reduced modulo 256.
pub open spec fn spec_sample(
    request_snapshot: u32,
    current_slot: u64,
    timestamp: i64,
    stake_amount: u64,
) -> u8 {
    ((request_snapshot as u64).wrapping_mul(current_slot).wrapping_add_signed(
        timestamp,
    ).wrapping_add(stake_amount) % 256) as u8
}

/// Samples the pseudo-random byte for a resolution.  The wraparound steps
/// are intentional bit mixing, not an error condition.
pub fn sample(request_snapshot: u32, current_slot: u64, timestamp: i64, stake_amount: u64) -> (b:
    u8)
    ensures
        b == spec_sample(request_snapshot, current_slot, timestamp, stake_amount),
{
    let mixed: u64 = (request_snapshot as u64).wrapping_mul(current_slot).wrapping_add_signed(
        timestamp,
    ).wrapping_add(stake_amount);
    (mixed % 256) as u8
}

} // verus!
