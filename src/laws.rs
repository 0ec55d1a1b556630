//! Properties of the game stated over the models that the operations'
//! contracts use, proved for all inputs.

use vstd::prelude::*;
use crate::entropy::{extract_of, le_bytes, mix_input, mix_of};
use crate::game::{
    counters_overflow, spin_verdict, with_pause, GameState, SlotMachineError,
};
use crate::payout::{multiplier, payout_of, scaled, MAX_BET, MIN_BET};

verus! {

/// The draw is a function of its inputs: the same key, chain digest and
/// counter give the same digest, and so the same reels.
pub proof fn law_draw_deterministic(
    player_a: Seq<u8>,
    digest_a: Seq<u8>,
    counter_a: u64,
    player_b: Seq<u8>,
    digest_b: Seq<u8>,
    counter_b: u64,
)
    requires
        player_a == player_b,
        digest_a == digest_b,
        counter_a == counter_b,
    ensures
        mix_of(player_a, digest_a, counter_a) == mix_of(player_b, digest_b, counter_b),
        extract_of(mix_of(player_a, digest_a, counter_a)) == extract_of(
            mix_of(player_b, digest_b, counter_b),
        ),
{
}

/// Numbers with the same `k` low bytes agree modulo `256^k`.
proof fn lemma_le_bytes_injective(a: nat, b: nat, k: nat)
    requires
        le_bytes(a, k) == le_bytes(b, k),
    ensures
        a % radix(k) == b % radix(k),
    decreases k,
{
    if k == 0 {
        assert(a % 1 == 0 && b % 1 == 0) by (nonlinear_arith);
    } else {
        let k1 = (k - 1) as nat;
        assert(le_bytes(a, k)[0] == le_bytes(b, k)[0]);
        assert(le_bytes(a, k)[0] == (a % 256) as u8);
        assert(le_bytes(b, k)[0] == (b % 256) as u8);
        assert(a % 256 == b % 256);
        assert(le_bytes(a / 256, k1) =~= le_bytes(a, k).skip(1));
        assert(le_bytes(b / 256, k1) =~= le_bytes(b, k).skip(1));
        lemma_le_bytes_injective(a / 256, b / 256, k1);
        lemma_radix_positive(k1);
        vstd::arithmetic::div_mod::lemma_mod_breakdown(a as int, 256, radix(k1) as int);
        vstd::arithmetic::div_mod::lemma_mod_breakdown(b as int, 256, radix(k1) as int);
        assert(radix(k) == 256 * radix(k1));
    }
}

proof fn lemma_le_bytes_len(n: nat, k: nat)
    ensures
        le_bytes(n, k).len() == k,
    decreases k,
{
    if k > 0 {
        lemma_le_bytes_len(n / 256, (k - 1) as nat);
    }
}

/// 256 to the power `k`.
pub open spec fn radix(k: nat) -> nat
    decreases k,
{
    if k == 0 {
        1
    } else {
        256 * radix((k - 1) as nat)
    }
}

proof fn lemma_radix_positive(k: nat)
    ensures
        radix(k) > 0,
    decreases k,
{
    if k > 0 {
        lemma_radix_positive((k - 1) as nat);
    }
}

/// Changing any input of the draw changes the bytes that are hashed: the
/// encoding of key, chain digest and counter loses nothing. (That distinct
/// inputs then give distinct digests is as strong as SHA-256's collision
/// resistance, and not a claim of this library.)
pub proof fn law_draw_input_injective(
    player_a: Seq<u8>,
    digest_a: Seq<u8>,
    counter_a: u64,
    player_b: Seq<u8>,
    digest_b: Seq<u8>,
    counter_b: u64,
)
    requires
        player_a.len() == 32,
        digest_a.len() == 32,
        player_b.len() == 32,
        digest_b.len() == 32,
        player_a != player_b || digest_a != digest_b || counter_a != counter_b,
    ensures
        mix_input(player_a, digest_a, counter_a) != mix_input(player_b, digest_b, counter_b),
{
    let ia = mix_input(player_a, digest_a, counter_a);
    let ib = mix_input(player_b, digest_b, counter_b);
    if ia == ib {
        lemma_le_bytes_len(counter_a as nat, 8);
        lemma_le_bytes_len(counter_b as nat, 8);
        assert(player_a =~= ia.subrange(0, 32));
        assert(player_b =~= ib.subrange(0, 32));
        assert(digest_a =~= ia.subrange(32, 64));
        assert(digest_b =~= ib.subrange(32, 64));
        assert(le_bytes(counter_a as nat, 8) =~= ia.subrange(64, 72));
        assert(le_bytes(counter_b as nat, 8) =~= ib.subrange(64, 72));
        lemma_le_bytes_injective(counter_a as nat, counter_b as nat, 8);
        reveal_with_fuel(radix, 9);
        assert(radix(8) == 0x1_0000_0000_0000_0000);
        vstd::arithmetic::div_mod::lemma_small_mod(counter_a as nat, radix(8));
        vstd::arithmetic::div_mod::lemma_small_mod(counter_b as nat, radix(8));
        assert(counter_a == counter_b);
    }
}

/// Every reel read off any digest shows a symbol from 0 to 9.
pub proof fn law_reels_in_range(digest: Seq<u8>)
    requires
        digest.len() >= 3,
    ensures
        extract_of(digest).len() == 3,
        forall|i: int| 0 <= i < 3 ==> extract_of(digest)[i] <= 9,
{
}

/// The table on one draw of each rule: three sevens pay a hundred times the
/// bet (and not as a pair of sevens), three of a kind ten times, two sevens
/// five times, a pair twice, anything else nothing.
pub proof fn law_payout_table(bet: u64)
    ensures
        payout_of(seq![7u8, 7, 7], bet) == scaled(bet, 100),
        payout_of(seq![3u8, 3, 3], bet) == scaled(bet, 10),
        payout_of(seq![7u8, 7, 2], bet) == scaled(bet, 5),
        payout_of(seq![4u8, 4, 9], bet) == scaled(bet, 2),
        payout_of(seq![1u8, 2, 3], bet) == 0,
{
    assert(bet * 0 == 0);
}

/// On a bet no larger than the maximum the product never overflows: the payout
/// is exactly the bet times the multiplier of the first matching rule.
pub proof fn law_payout_exact(result: Seq<u8>, bet: u64)
    requires
        result.len() == 3,
        bet <= MAX_BET,
    ensures
        payout_of(result, bet) == bet * multiplier(result),
{
    assert(bet * multiplier(result) <= bet * 100) by (nonlinear_arith)
        requires
            multiplier(result) <= 100,
    ;
    assert(bet * 100 <= MAX_BET * 100) by (nonlinear_arith)
        requires
            bet <= MAX_BET,
    ;
}

/// Once the authority has paused the game, every spin is refused as paused.
pub proof fn law_pause_refuses_spins(s: GameState, bet: u64)
    ensures
        with_pause(s, s.authority, true) matches Ok(p) && spin_verdict(p, bet) == Err::<
            (),
            SlotMachineError,
        >(SlotMachineError::GamePaused),
{
}

/// Paused and then resumed by the authority, the game takes again every bet
/// within bounds that its counters can hold.
pub proof fn law_resume_reopens_spins(s: GameState, bet: u64)
    requires
        MIN_BET <= bet <= MAX_BET,
        !counters_overflow(s, bet),
    ensures
        with_pause(s, s.authority, true) matches Ok(p) && with_pause(p, s.authority, false) matches Ok(
            q,
        ) && spin_verdict(q, bet) is Ok,
{
}

/// A key other than the authority can neither pause nor resume the game.
pub proof fn law_foreign_key_refused(s: GameState, caller: [u8; 32], paused: bool)
    requires
        caller@ != s.authority@,
    ensures
        with_pause(s, caller, paused) == Err::<GameState, SlotMachineError>(
            SlotMachineError::Unauthorized,
        ),
{
}

} // verus!
