//! The odds policy: mapping a risk parameter and the house edge to a win
//! threshold over the byte range.

use vstd::prelude::*;

verus! {

/// The protocol's fixed house edge, in basis points (5.00%).
pub const HOUSE_EDGE_BP: u16 = 500;

/// The base win threshold over the byte range `[0, 256)` after taking the
/// house edge off a fair coin: `(256 * (10000 - edge)) / 2 / 10000`.
/// At a 500 bp edge this is 121, roughly a 47.5% win rate.
pub open spec fn spec_base_threshold(house_edge_bp: u16) -> int
    recommends
        house_edge_bp <= 10000,
{
    (256 * (10000 - house_edge_bp)) / 2 / 10000
}

/// The win threshold for a given risk parameter.  The risk parameter selects
/// a multiplier tier over the base threshold; values above 100 fall back to
/// the base threshold.  The top tier saturates at 255.
pub open spec fn spec_win_threshold(risk_parameter: u8, house_edge_bp: u16) -> int
    recommends
        house_edge_bp <= 10000,
{
    let base = spec_base_threshold(house_edge_bp);
    if risk_parameter <= 25 {
        base / 2
    } else if risk_parameter <= 50 {
        (base * 3) / 4
    } else if risk_parameter <= 75 {
        base
    } else if risk_parameter <= 100 {
        if (base * 5) / 4 > 255 {
            255
        } else {
            (base * 5) / 4
        }
    } else {
        base
    }
}

/// Computes the win threshold: a sampled byte strictly below it is a win.
pub fn win_threshold(risk_parameter: u8, house_edge_bp: u16) -> (t: u8)
    requires
        house_edge_bp <= 10000,
    ensures
        t == spec_win_threshold(risk_parameter, house_edge_bp),
{
    let base: u64 = (256 * (10000 - house_edge_bp as u64)) / 2 / 10000;
    assert(base == spec_base_threshold(house_edge_bp));
    let chosen: u64 = if risk_parameter <= 25 {
        base / 2
    } else if risk_parameter <= 50 {
        (base * 3) / 4
    } else if risk_parameter <= 75 {
        base
    } else if risk_parameter <= 100 {
        let raised: u64 = (base * 5) / 4;
        if raised > 255 {
            255
        } else {
            raised
        }
    } else {
        base
    };
    chosen as u8
}

/// The base threshold always lies in `[0, 128]`.
pub proof fn lemma_base_threshold_bounds(house_edge_bp: u16)
    requires
        house_edge_bp <= 10000,
    ensures
        0 <= spec_base_threshold(house_edge_bp) <= 128,
{
}

/// The win threshold never exceeds 255, and over the documented risk range
/// `0..=100` it is monotonically non-decreasing in the risk parameter.
pub proof fn lemma_win_threshold_monotonic(r1: u8, r2: u8, house_edge_bp: u16)
    requires
        r1 <= r2,
        r2 <= 100,
        house_edge_bp <= 10000,
    ensures
        spec_win_threshold(r1, house_edge_bp) <= spec_win_threshold(r2, house_edge_bp),
        0 <= spec_win_threshold(r2, house_edge_bp) <= 255,
{
    let base = spec_base_threshold(house_edge_bp);
    lemma_base_threshold_bounds(house_edge_bp);
    assert(base / 2 == (base * 2) / 4);
    assert((base * 2) / 4 <= (base * 3) / 4);
    assert((base * 3) / 4 <= (base * 4) / 4);
    assert((base * 4) / 4 == base);
    assert(base <= (base * 5) / 4);
}

} // verus!
