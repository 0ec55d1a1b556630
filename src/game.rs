//! The game's ledger state and the four operations on it.
//!
//! Keys and chain digests are held as their 32 raw bytes. Token transfers are
//! the caller's part: a spin returns what it decided, the bet to take and the
//! payout to send, and the caller commits the new state only once both
//! transfers went through.

use vstd::prelude::*;
use crate::entropy::{extract, extract_of, mix, mix_of};
use crate::payout::{calculate_payout, payout_of, MAX_BET, MIN_BET};

verus! {

/// The single state of one game.
#[derive(Clone, Copy, Debug)]
pub struct GameState {
    /// The key allowed to pause and resume the game; set once.
    pub authority: [u8; 32],
    /// The number of spins played.
    pub total_spins: u64,
    /// The sum of all bets accepted.
    pub total_volume: u64,
    /// Whether spins are refused.
    pub is_paused: bool,
}

/// Why an operation was refused. A refused operation changes nothing.
#[derive(Clone, Copy, Debug, PartialEq, Eq, Structural)]
pub enum SlotMachineError {
    GamePaused,
    BetTooSmall,
    BetTooLarge,
    Unauthorized,
    ArithmeticOverflow,
    TransferFailed,
}

/// What a spin decided: the reels drawn and the amount to pay out.
#[derive(Clone, Copy, Debug)]
pub struct SpinOutcome {
    pub result: [u8; 3],
    pub payout: u64,
}

/// The accounts of game creation: the fresh state and its authority.
pub struct Initialize {
    pub game_state: GameState,
    pub authority: [u8; 32],
}

/// The accounts of a spin: the state, the player's key and the recent chain
/// digest.
pub struct Spin {
    pub game_state: GameState,
    pub player: [u8; 32],
    pub recent_blockhash: [u8; 32],
}

/// The accounts of a pause: the state and the key that asks for it.
pub struct PauseGame {
    pub game_state: GameState,
    pub authority: [u8; 32],
}

/// The accounts of a resume: the state and the key that asks for it.
pub struct ResumeGame {
    pub game_state: GameState,
    pub authority: [u8; 32],
}

/// The state of a game just created by `authority`.
pub open spec fn fresh_state(authority: [u8; 32]) -> GameState {
    GameState { authority, total_spins: 0, total_volume: 0, is_paused: false }
}

/// The admission gate: not paused, then the bet not below the minimum, then
/// not above the maximum.
pub open spec fn admission(s: GameState, bet: u64) -> Result<(), SlotMachineError> {
    if s.is_paused {
        Err(SlotMachineError::GamePaused)
    } else if bet < MIN_BET {
        Err(SlotMachineError::BetTooSmall)
    } else if bet > MAX_BET {
        Err(SlotMachineError::BetTooLarge)
    } else {
        Ok(())
    }
}

/// Whether counting a spin of `bet` would overflow either counter.
pub open spec fn counters_overflow(s: GameState, bet: u64) -> bool {
    s.total_spins as int + 1 > u64::MAX || s.total_volume as int + bet as int > u64::MAX
}

/// Whether a spin of `bet` goes ahead, and if not, why.
pub open spec fn spin_verdict(s: GameState, bet: u64) -> Result<(), SlotMachineError> {
    match admission(s, bet) {
        Err(e) => Err(e),
        Ok(_) => if counters_overflow(s, bet) {
            Err(SlotMachineError::ArithmeticOverflow)
        } else {
            Ok(())
        },
    }
}

/// The state after a spin of `bet` has been counted.
pub open spec fn counted(s: GameState, bet: u64) -> GameState {
    GameState {
        total_spins: (s.total_spins + 1) as u64,
        total_volume: (s.total_volume + bet) as u64,
        ..s
    }
}

/// The state after `caller` set the pause flag to `paused`, or why not.
pub open spec fn with_pause(s: GameState, caller: [u8; 32], paused: bool) -> Result<
    GameState,
    SlotMachineError,
> {
    if caller@ == s.authority@ {
        Ok(GameState { is_paused: paused, ..s })
    } else {
        Err(SlotMachineError::Unauthorized)
    }
}

fn same_key(a: &[u8; 32], b: &[u8; 32]) -> (r: bool)
    ensures
        r == (a@ == b@),
{
    let mut i: usize = 0;
    while i < 32
        invariant
            0 <= i <= 32,
            forall|j: int| 0 <= j < i ==> a@[j] == b@[j],
        decreases 32 - i,
    {
        if a[i] != b[i] {
            return false;
        }
        i = i + 1;
    }
    assert(a@ =~= b@);
    true
}

/// Creates the game: `authority` may pause it, nothing has been played, and
/// it is open.
pub fn initialize(ctx: &mut Initialize) -> (r: Result<(), SlotMachineError>)
    ensures
        r is Ok,
        final(ctx).game_state == fresh_state(old(ctx).authority),
        final(ctx).authority == old(ctx).authority,
{
    ctx.game_state = GameState {
        authority: ctx.authority,
        total_spins: 0,
        total_volume: 0,
        is_paused: false,
    };
    Ok(())
}

/// The admission gate of a spin; it changes nothing.
pub fn check_admission(state: &GameState, bet: u64) -> (r: Result<(), SlotMachineError>)
    ensures
        r == admission(*state, bet),
        !state.is_paused && MIN_BET <= bet <= MAX_BET ==> r is Ok,
        state.is_paused ==> r == Err::<(), SlotMachineError>(SlotMachineError::GamePaused),
        !state.is_paused && bet < MIN_BET ==> r == Err::<(), SlotMachineError>(
            SlotMachineError::BetTooSmall,
        ),
        !state.is_paused && bet > MAX_BET ==> r == Err::<(), SlotMachineError>(
            SlotMachineError::BetTooLarge,
        ),
{
    if state.is_paused {
        Err(SlotMachineError::GamePaused)
    } else if bet < MIN_BET {
        Err(SlotMachineError::BetTooSmall)
    } else if bet > MAX_BET {
        Err(SlotMachineError::BetTooLarge)
    } else {
        Ok(())
    }
}

/// Plays a spin of `bet` on the given digest: checks the bet, reads the reels off
/// the digest, prices them, and counts the spin. A refused spin leaves the
/// state as it was.
pub fn settle_spin(state: &mut GameState, bet: u64, digest: &[u8; 32]) -> (r: Result<
    SpinOutcome,
    SlotMachineError,
>)
    ensures
        r is Ok <==> spin_verdict(*old(state), bet) is Ok,
        r matches Err(e) ==> spin_verdict(*old(state), bet) == Err::<(), SlotMachineError>(e)
            && *final(state) == *old(state),
        r matches Ok(o) ==> {
            &&& o.result@ == extract_of(digest@)
            &&& o.payout == payout_of(o.result@, bet)
            &&& *final(state) == counted(*old(state), bet)
            &&& final(state).total_spins == old(state).total_spins + 1
            &&& final(state).total_volume == old(state).total_volume + bet
        },
{
    match check_admission(state, bet) {
        Err(e) => {
            return Err(e);
        },
        Ok(()) => {},
    }
    let total_spins = match state.total_spins.checked_add(1) {
        Some(n) => n,
        None => {
            return Err(SlotMachineError::ArithmeticOverflow);
        },
    };
    let total_volume = match state.total_volume.checked_add(bet) {
        Some(n) => n,
        None => {
            return Err(SlotMachineError::ArithmeticOverflow);
        },
    };
    let result = extract(digest);
    let payout = calculate_payout(result, bet);
    state.total_spins = total_spins;
    state.total_volume = total_volume;
    Ok(SpinOutcome { result, payout })
}

/// Plays a spin of `bet` by the player of `ctx`, drawing from the digest of
/// the player's key, the recent chain digest and the spin count before this
/// spin.
pub fn spin(ctx: &mut Spin, bet_amount: u64) -> (r: Result<SpinOutcome, SlotMachineError>)
    ensures
        final(ctx).player == old(ctx).player,
        final(ctx).recent_blockhash == old(ctx).recent_blockhash,
        r is Ok <==> spin_verdict(old(ctx).game_state, bet_amount) is Ok,
        r matches Err(e) ==> spin_verdict(old(ctx).game_state, bet_amount) == Err::<
            (),
            SlotMachineError,
        >(e) && final(ctx).game_state == old(ctx).game_state,
        r matches Ok(o) ==> {
            &&& o.result@ == extract_of(
                mix_of(old(ctx).player@, old(ctx).recent_blockhash@, old(ctx).game_state.total_spins),
            )
            &&& o.payout == payout_of(o.result@, bet_amount)
            &&& final(ctx).game_state == counted(old(ctx).game_state, bet_amount)
        },
{
    let digest = mix(&ctx.player, &ctx.recent_blockhash, ctx.game_state.total_spins);
    settle_spin(&mut ctx.game_state, bet_amount, &digest)
}

/// Pauses the game; only its authority may.
pub fn pause_game(ctx: &mut PauseGame) -> (r: Result<(), SlotMachineError>)
    ensures
        final(ctx).authority == old(ctx).authority,
        match with_pause(old(ctx).game_state, old(ctx).authority, true) {
            Ok(s) => r is Ok && final(ctx).game_state == s,
            Err(e) => r == Err::<(), SlotMachineError>(e) && final(ctx).game_state == old(
                ctx,
            ).game_state,
        },
{
    if !same_key(&ctx.authority, &ctx.game_state.authority) {
        return Err(SlotMachineError::Unauthorized);
    }
    ctx.game_state.is_paused = true;
    Ok(())
}

/// Resumes the game; only its authority may.
pub fn resume_game(ctx: &mut ResumeGame) -> (r: Result<(), SlotMachineError>)
    ensures
        final(ctx).authority == old(ctx).authority,
        match with_pause(old(ctx).game_state, old(ctx).authority, false) {
            Ok(s) => r is Ok && final(ctx).game_state == s,
            Err(e) => r == Err::<(), SlotMachineError>(e) && final(ctx).game_state == old(
                ctx,
            ).game_state,
        },
{
    if !same_key(&ctx.authority, &ctx.game_state.authority) {
        return Err(SlotMachineError::Unauthorized);
    }
    ctx.game_state.is_paused = false;
    Ok(())
}

} // verus!
