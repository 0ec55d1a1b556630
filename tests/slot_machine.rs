use slot_machine::{
    calculate_payout, check_admission, extract, generate_slot_result, initialize, mix,
    pause_game, resume_game, settle_spin, spin, GameState, Initialize, PauseGame, ResumeGame,
    SlotMachineError, Spin, MAX_BET, MIN_BET,
};

const AUTHORITY: [u8; 32] = [0xAA; 32];
const STRANGER: [u8; 32] = [0xBB; 32];

fn open_game() -> GameState {
    GameState { authority: AUTHORITY, total_spins: 0, total_volume: 0, is_paused: false }
}

fn digest_with(first: [u8; 3]) -> [u8; 32] {
    let mut d = [0u8; 32];
    d[0] = first[0];
    d[1] = first[1];
    d[2] = first[2];
    d
}

fn lucky_player() -> [u8; 32] {
    let mut p = [1u8; 32];
    p[31] = 59;
    p
}

#[test]
fn initialize_sets_fresh_state() {
    let mut ctx = Initialize {
        game_state: GameState { authority: [0; 32], total_spins: 9, total_volume: 9, is_paused: true },
        authority: AUTHORITY,
    };
    assert_eq!(initialize(&mut ctx), Ok(()));
    assert_eq!(ctx.game_state.authority, AUTHORITY);
    assert_eq!(ctx.game_state.total_spins, 0);
    assert_eq!(ctx.game_state.total_volume, 0);
    assert!(!ctx.game_state.is_paused);
}

#[test]
fn admission_accepts_bets_within_bounds() {
    let s = open_game();
    assert_eq!(check_admission(&s, MIN_BET), Ok(()));
    assert_eq!(check_admission(&s, MAX_BET), Ok(()));
    assert_eq!(check_admission(&s, 5_000_000), Ok(()));
}

#[test]
fn admission_rejects_small_and_large_bets() {
    let s = open_game();
    assert_eq!(check_admission(&s, MIN_BET - 1), Err(SlotMachineError::BetTooSmall));
    assert_eq!(check_admission(&s, 0), Err(SlotMachineError::BetTooSmall));
    assert_eq!(check_admission(&s, MAX_BET + 1), Err(SlotMachineError::BetTooLarge));
    assert_eq!(check_admission(&s, u64::MAX), Err(SlotMachineError::BetTooLarge));
}

#[test]
fn admission_rejects_every_bet_while_paused() {
    let mut s = open_game();
    s.is_paused = true;
    for bet in [0, MIN_BET - 1, MIN_BET, 5_000_000, MAX_BET, MAX_BET + 1, u64::MAX] {
        assert_eq!(check_admission(&s, bet), Err(SlotMachineError::GamePaused));
    }
}

#[test]
fn mix_gives_the_sha256_digest_of_the_inputs() {
    let d = mix(&[1; 32], &[2; 32], 5);
    let expected: [u8; 32] = [
        106, 15, 89, 239, 43, 211, 121, 178, 210, 233, 50, 115, 178, 63, 91, 121, 45, 252, 43,
        238, 22, 250, 196, 9, 144, 43, 95, 138, 45, 107, 251, 246,
    ];
    assert_eq!(d, expected);
}

#[test]
fn mix_is_deterministic() {
    assert_eq!(mix(&[3; 32], &[4; 32], 77), mix(&[3; 32], &[4; 32], 77));
}

#[test]
fn mix_changes_with_each_input() {
    let base = mix(&[1; 32], &[2; 32], 0);
    let mut other_player = [1u8; 32];
    other_player[31] = 0;
    let mut other_digest = [2u8; 32];
    other_digest[0] = 3;
    assert_ne!(base, mix(&other_player, &[2; 32], 0));
    assert_ne!(base, mix(&[1; 32], &other_digest, 0));
    assert_ne!(base, mix(&[1; 32], &[2; 32], 1));
}

#[test]
fn extract_reduces_the_first_three_bytes() {
    assert_eq!(extract(&digest_with([17, 255, 40])), [7, 5, 0]);
    let all = [255u8; 32];
    for s in extract(&all) {
        assert!(s <= 9);
    }
}

#[test]
fn generate_slot_result_reads_the_mixed_digest() {
    assert_eq!(generate_slot_result(&[1; 32], &[2; 32], 5), [6, 5, 9]);
    assert_eq!(generate_slot_result(&[1; 32], &[2; 32], 0), [2, 6, 0]);
    assert_eq!(generate_slot_result(&lucky_player(), &[9; 32], 0), [7, 7, 7]);
}

#[test]
fn payout_three_sevens() {
    assert_eq!(calculate_payout([7, 7, 7], 1_000_000), 100_000_000);
}

#[test]
fn payout_three_of_a_kind() {
    assert_eq!(calculate_payout([3, 3, 3], 1_000_000), 10_000_000);
    assert_eq!(calculate_payout([0, 0, 0], 7), 70);
}

#[test]
fn payout_two_sevens() {
    assert_eq!(calculate_payout([7, 7, 2], 1_000_000), 5_000_000);
    assert_eq!(calculate_payout([2, 7, 7], 3), 15);
    assert_eq!(calculate_payout([7, 2, 7], 3), 15);
}

#[test]
fn payout_pair() {
    assert_eq!(calculate_payout([4, 4, 9], 1_000_000), 2_000_000);
    assert_eq!(calculate_payout([9, 4, 4], 3), 6);
    assert_eq!(calculate_payout([4, 9, 4], 3), 6);
}

#[test]
fn payout_nothing() {
    assert_eq!(calculate_payout([1, 2, 3], 1_000_000), 0);
}

#[test]
fn payout_overflow_pays_nothing() {
    assert_eq!(calculate_payout([7, 7, 7], u64::MAX / 50), 0);
    assert_eq!(calculate_payout([4, 4, 9], u64::MAX / 2 + 1), 0);
    assert_eq!(calculate_payout([4, 4, 9], u64::MAX / 2), u64::MAX - 1);
}

#[test]
fn settle_spin_counts_a_successful_spin() {
    let mut s = open_game();
    s.total_spins = 4;
    s.total_volume = 10;
    let o = settle_spin(&mut s, 2_000_000, &digest_with([13, 23, 1])).unwrap();
    assert_eq!(o.result, [3, 3, 1]);
    assert_eq!(o.payout, 4_000_000);
    assert_eq!(s.total_spins, 5);
    assert_eq!(s.total_volume, 2_000_010);
}

#[test]
fn settle_spin_refused_changes_nothing() {
    let mut s = open_game();
    s.total_spins = 4;
    s.total_volume = 10;
    assert_eq!(settle_spin(&mut s, 1, &digest_with([7, 7, 7])).unwrap_err(), SlotMachineError::BetTooSmall);
    assert_eq!(settle_spin(&mut s, MAX_BET + 1, &digest_with([7, 7, 7])).unwrap_err(), SlotMachineError::BetTooLarge);
    assert_eq!(s.total_spins, 4);
    assert_eq!(s.total_volume, 10);
}

#[test]
fn settle_spin_overflow_is_refused() {
    let mut s = open_game();
    s.total_spins = u64::MAX;
    assert_eq!(settle_spin(&mut s, MIN_BET, &digest_with([1, 2, 3])).unwrap_err(), SlotMachineError::ArithmeticOverflow);
    assert_eq!(s.total_spins, u64::MAX);
    let mut t = open_game();
    t.total_volume = u64::MAX - 5;
    assert_eq!(settle_spin(&mut t, MIN_BET, &digest_with([1, 2, 3])).unwrap_err(), SlotMachineError::ArithmeticOverflow);
    assert_eq!(t.total_spins, 0);
    assert_eq!(t.total_volume, u64::MAX - 5);
}

#[test]
fn pause_then_resume_by_authority() {
    let mut pause = PauseGame { game_state: open_game(), authority: AUTHORITY };
    assert_eq!(pause_game(&mut pause), Ok(()));
    assert!(pause.game_state.is_paused);

    let mut ctx = Spin { game_state: pause.game_state, player: [5; 32], recent_blockhash: [6; 32] };
    assert_eq!(spin(&mut ctx, MIN_BET).unwrap_err(), SlotMachineError::GamePaused);
    assert_eq!(ctx.game_state.total_spins, 0);

    let mut resume = ResumeGame { game_state: ctx.game_state, authority: AUTHORITY };
    assert_eq!(resume_game(&mut resume), Ok(()));
    assert!(!resume.game_state.is_paused);

    let mut ctx = Spin { game_state: resume.game_state, player: [5; 32], recent_blockhash: [6; 32] };
    assert!(spin(&mut ctx, MIN_BET).is_ok());
    assert_eq!(ctx.game_state.total_spins, 1);
}

#[test]
fn pausing_twice_is_a_no_op() {
    let mut pause = PauseGame { game_state: open_game(), authority: AUTHORITY };
    assert_eq!(pause_game(&mut pause), Ok(()));
    assert_eq!(pause_game(&mut pause), Ok(()));
    assert!(pause.game_state.is_paused);
}

#[test]
fn stranger_cannot_pause_or_resume() {
    let mut pause = PauseGame { game_state: open_game(), authority: STRANGER };
    assert_eq!(pause_game(&mut pause), Err(SlotMachineError::Unauthorized));
    assert!(!pause.game_state.is_paused);

    let mut paused = open_game();
    paused.is_paused = true;
    let mut resume = ResumeGame { game_state: paused, authority: STRANGER };
    assert_eq!(resume_game(&mut resume), Err(SlotMachineError::Unauthorized));
    assert!(resume.game_state.is_paused);
}

#[test]
fn end_to_end_scenario() {
    let mut init = Initialize {
        game_state: GameState { authority: [0; 32], total_spins: 0, total_volume: 0, is_paused: false },
        authority: AUTHORITY,
    };
    assert_eq!(initialize(&mut init), Ok(()));
    assert_eq!(init.game_state.total_spins, 0);
    assert_eq!(init.game_state.total_volume, 0);
    assert!(!init.game_state.is_paused);

    let mut ctx = Spin { game_state: init.game_state, player: lucky_player(), recent_blockhash: [9; 32] };
    let o = spin(&mut ctx, 1_000_000).unwrap();
    assert_eq!(o.result, [7, 7, 7]);
    assert_eq!(o.payout, 100_000_000);
    assert_eq!(ctx.game_state.total_spins, 1);
    assert_eq!(ctx.game_state.total_volume, 1_000_000);

    assert_eq!(spin(&mut ctx, 500_000).unwrap_err(), SlotMachineError::BetTooSmall);
    assert_eq!(ctx.game_state.total_spins, 1);
    assert_eq!(ctx.game_state.total_volume, 1_000_000);
    assert_eq!(ctx.game_state.authority, AUTHORITY);
}

#[test]
fn end_to_end_with_fixed_digest() {
    let mut s = open_game();
    let o = settle_spin(&mut s, 1_000_000, &digest_with([7, 17, 27])).unwrap();
    assert_eq!(o.result, [7, 7, 7]);
    assert_eq!(o.payout, 100_000_000);
    assert_eq!(s.total_spins, 1);
    assert_eq!(s.total_volume, 1_000_000);
    assert_eq!(settle_spin(&mut s, 500_000, &digest_with([7, 7, 7])).unwrap_err(), SlotMachineError::BetTooSmall);
    assert_eq!(s.total_spins, 1);
    assert_eq!(s.total_volume, 1_000_000);
}
