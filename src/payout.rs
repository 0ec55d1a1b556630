//! The ranked payout table.

use vstd::prelude::*;

verus! {

/// The smallest bet accepted: one token of six decimals.
pub const MIN_BET: u64 = 1_000_000;

/// The largest bet accepted: a thousand tokens of six decimals.
pub const MAX_BET: u64 = 1_000_000_000;

/// All three reels show a seven.
pub open spec fn is_three_sevens(r: Seq<u8>) -> bool {
    r[0] == 7 && r[1] == 7 && r[2] == 7
}

/// All three reels show the same symbol.
pub open spec fn is_three_of_a_kind(r: Seq<u8>) -> bool {
    r[0] == r[1] && r[1] == r[2]
}

/// Some two reels both show a seven.
pub open spec fn is_two_sevens(r: Seq<u8>) -> bool {
    (r[0] == 7 && r[1] == 7) || (r[1] == 7 && r[2] == 7) || (r[0] == 7 && r[2] == 7)
}

/// Some two reels show the same symbol.
pub open spec fn is_two_of_a_kind(r: Seq<u8>) -> bool {
    r[0] == r[1] || r[1] == r[2] || r[0] == r[2]
}

/// The multiplier of the first rule of the table that the reels match,
/// read from the top: three sevens, three of a kind, two sevens, a pair.
pub open spec fn multiplier(r: Seq<u8>) -> nat {
    if is_three_sevens(r) {
        100
    } else if is_three_of_a_kind(r) {
        10
    } else if is_two_sevens(r) {
        5
    } else if is_two_of_a_kind(r) {
        2
    } else {
        0
    }
}

/// The bet times `m`, or nothing where that product does not fit in a `u64`:
/// an overflowing win is absorbed as a loss rather than failing the spin.
pub open spec fn scaled(bet: u64, m: nat) -> u64 {
    if bet * m <= u64::MAX {
        (bet * m) as u64
    } else {
        0
    }
}

/// What a draw of reels `r` pays on a bet.
pub open spec fn payout_of(r: Seq<u8>, bet: u64) -> u64 {
    scaled(bet, multiplier(r))
}

fn scale(bet: u64, m: u64) -> (r: u64)
    ensures
        r == scaled(bet, m as nat),
{
    match bet.checked_mul(m) {
        Some(p) => p,
        None => 0,
    }
}

/// Prices a draw against the table; the first matching rule wins, so three
/// sevens are never paid as a mere pair of sevens.
pub fn calculate_payout(result: [u8; 3], bet: u64) -> (payout: u64)
    ensures
        payout == payout_of(result@, bet),
        is_three_sevens(result@) ==> payout == scaled(bet, 100),
{
    let is_three_sevens = result[0] == 7 && result[1] == 7 && result[2] == 7;
    let is_three_kind = result[0] == result[1] && result[1] == result[2];
    let is_two_sevens = (result[0] == 7 && result[1] == 7) || (result[1] == 7 && result[2] == 7)
        || (result[0] == 7 && result[2] == 7);
    let is_two_kind = result[0] == result[1] || result[1] == result[2] || result[0] == result[2];

    if is_three_sevens {
        scale(bet, 100)
    } else if is_three_kind {
        scale(bet, 10)
    } else if is_two_sevens {
        scale(bet, 5)
    } else if is_two_kind {
        scale(bet, 2)
    } else {
        assert(bet * 0 == 0);
        0
    }
}

} // verus!
