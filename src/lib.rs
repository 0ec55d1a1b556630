//! A deterministic slot machine: a bet is admitted against the game's
//! state, three reels are drawn from a SHA-256 digest of public entropy,
//! the ranked payout table prices the draw, and the game's counters move on.
//!
//! Moving tokens is left to the caller: the library decides how much moves
//! and whether a spin goes ahead, never how a transfer is carried out.

pub mod entropy;
pub mod game;
pub mod laws;
pub mod payout;

pub use payout::{calculate_payout, MAX_BET, MIN_BET};
pub use entropy::{extract, generate_slot_result, mix};
pub use game::{
    check_admission, initialize, pause_game, resume_game, settle_spin, spin, GameState,
    Initialize, PauseGame, ResumeGame, SlotMachineError, Spin, SpinOutcome,
};
