use madscape::constants::SOLANA_PUBKEY;
use madscape::instructions::{
    joining_fee, opening_fee,
    SolPayout,
    approve_fee_mint, cancel_open_match, cancel_open_match_mint, cancel_private_match,
    create_open_match, create_open_match_mint, create_release_authority, end_match,
    end_match_mint, join_match, join_match_mint, revoke_fee_mint, update_release_authority,
    Deposit, Refund, SettlementBalances, TokenPayout,
};
use madscape::state::{Match, ReleaseAuthority, ReleaseAuthorityItem};
use madscape::strings::generate_escrow_id;
use madscape::{MadscapeError, Pubkey};

fn key(byte: u8) -> Pubkey {
    Pubkey::new_from_array([byte; 32])
}

const SLOTHASHES: [u8; 32] = [
    1, 2, 3, 4, 5, 6, 7, 8, 9, 10, 11, 12, 13, 14, 15, 16, 17, 18, 19, 20, 21, 22, 23, 24, 25, 26,
    27, 28, 29, 30, 31, 32,
];

fn authority(bp: u16) -> ReleaseAuthority {
    create_release_authority(255, key(1), key(2), bp)
}

fn open_sol(amount: u64, bp: u16) -> Match {
    let ra = authority(bp);
    create_open_match(&ra, key(90), key(3), key(4), 254, amount, 2, 1_000, &SLOTHASHES)
        .ok()
        .expect("opens")
        .game
        .expect("an id is derived")
}

#[test]
fn release_authority_lifecycle() {
    let mut ra = authority(500);
    assert!(ra.approved_mints.is_empty());
    assert_eq!(approve_fee_mint(&mut ra, key(10), 3), Ok(()));
    assert_eq!(ra.approved_mints, vec![ReleaseAuthorityItem::new(key(10), 3)]);
    assert_eq!(
        approve_fee_mint(&mut ra, key(10), 4),
        Err(MadscapeError::FeeMintAlreadyApproved)
    );
    assert_eq!(ra.approved_mints, vec![ReleaseAuthorityItem::new(key(10), 3)]);
    assert_eq!(revoke_fee_mint(&mut ra, key(11)), Err(MadscapeError::FeeMintNotApproved));
    assert_eq!(revoke_fee_mint(&mut ra, key(10)), Ok(()));
    assert!(ra.approved_mints.is_empty());
    update_release_authority(&mut ra, key(7), 42);
    assert_eq!(ra.treasury, key(7));
    assert_eq!(ra.fee_lamports_basis_points, 42);
    assert_eq!(ra.authority, key(1));
}

#[test]
fn approve_then_revoke_restores_the_mints() {
    let mut ra = authority(0);
    approve_fee_mint(&mut ra, key(10), 1).unwrap();
    approve_fee_mint(&mut ra, key(11), 2).unwrap();
    let before = ra.approved_mints.clone();
    approve_fee_mint(&mut ra, key(12), 3).unwrap();
    revoke_fee_mint(&mut ra, key(12)).unwrap();
    assert_eq!(ra.approved_mints, before);
}

#[test]
fn create_open_match_takes_fee_and_stake() {
    let ra = authority(1_000);
    let opened = create_open_match(&ra, key(90), key(3), key(4), 254, 5_000, 2, 1_234, &SLOTHASHES)
        .ok()
        .unwrap();
    assert_eq!(opened.deposit, Deposit { fee: 500, stake: 4_500 });
    let game = opened.game.unwrap();
    assert_eq!(game.fee_amount, 500);
    assert_eq!(game.target_amount, 5_000);
    assert_eq!(game.target_mint, Pubkey::new_from_array(SOLANA_PUBKEY));
    assert_eq!(game.user_a, key(3));
    assert_eq!(game.user_b, Pubkey::default());
    assert_eq!(game.mint, key(4));
    assert_eq!(game.release_authority, key(90));
    assert_eq!(game.bump, 254);
    assert_eq!(game.match_type, 2);
    assert_eq!(game.init_timestamp, 1_234);
    assert_eq!(game.server, 4);
    assert_eq!(Some(game.match_id.clone()), generate_escrow_id(&SLOTHASHES, 1_234));
    assert!(game.match_id.starts_with("0x"));
    assert!(game.is_initialized() && game.is_native_sol() && !game.active && !game.completed);
}

#[test]
fn create_open_match_refusals() {
    let ra = authority(20_000);
    // The fee overflows before the kind of match is looked at.
    assert!(matches!(
        create_open_match(&ra, key(90), key(3), key(4), 1, u64::MAX, 0, 0, &SLOTHASHES),
        Err(MadscapeError::FeeCalculationFailure)
    ));
    assert!(matches!(
        create_open_match(&ra, key(90), key(3), key(4), 1, 100, 0, 0, &SLOTHASHES),
        Err(MadscapeError::InvalidMatchType)
    ));
    assert!(matches!(
        create_open_match(&ra, key(90), key(3), key(4), 1, 100, 9, 0, &SLOTHASHES),
        Err(MadscapeError::InvalidMatchType)
    ));
    // A rate above 100% makes the fee exceed the amount.
    assert!(matches!(
        create_open_match(&ra, key(90), key(3), key(4), 1, 100, 1, 0, &SLOTHASHES),
        Err(MadscapeError::NumericOverflow)
    ));
}

#[test]
fn join_match_open_and_private() {
    let mut game = open_sol(5_000, 1_000);
    assert_eq!(join_match(&mut game, key(5), 2_000), Ok(Deposit { fee: 500, stake: 4_500 }));
    assert!(game.active);
    assert_eq!(game.user_b, key(5));
    assert_eq!(game.join_timestamp, 2_000);
    assert_eq!(join_match(&mut game, key(5), 2_001), Err(MadscapeError::EscrowIsActive));

    let mut private = open_sol(5_000, 1_000);
    private.user_b = key(6);
    assert_eq!(join_match(&mut private, key(5), 2_000), Err(MadscapeError::InvalidUserB));
    assert!(!private.active);
    assert_eq!(join_match(&mut private, key(6), 2_000), Ok(Deposit { fee: 500, stake: 4_500 }));
    assert!(private.active);
}

#[test]
fn join_match_refusals() {
    let mut fresh = Match::new(1, key(90), key(3), key(4), 0);
    assert_eq!(join_match(&mut fresh, key(5), 1), Err(MadscapeError::EscrowNotInitialized));
    let mut token = fresh;
    token.init(1, key(77), 10, 1, String::from("id"), key(4), 0);
    assert_eq!(join_match(&mut token, key(5), 1), Err(MadscapeError::EscrowNotNativeSol));
    let mut odd = open_sol(100, 0);
    odd.fee_amount = 101;
    assert_eq!(join_match(&mut odd, key(5), 1), Err(MadscapeError::NumericOverflow));
    assert_eq!(odd.user_b, Pubkey::default());
    assert!(!odd.active);
}

#[test]
fn cancel_open_match_refunds_the_stake() {
    let mut game = open_sol(5_000, 1_000);
    let refund = cancel_open_match(&mut game, 6_000, 10).unwrap();
    assert_eq!(refund, Refund { game_lamports: 1_000, user_a_lamports: 5_010 });
    assert!(game.completed);

    let mut joined = open_sol(5_000, 1_000);
    joined.user_b = key(5);
    assert_eq!(cancel_open_match(&mut joined, 6_000, 10), Err(MadscapeError::EscrowNotActivated));
    assert!(!joined.completed);

    let mut short = open_sol(5_000, 1_000);
    assert_eq!(cancel_open_match(&mut short, 4_999, 10), Err(MadscapeError::NumericOverflow));
    assert_eq!(
        cancel_open_match(&mut short, 6_000, u64::MAX - 4_999),
        Err(MadscapeError::NumericOverflow)
    );
    assert!(!short.completed);
}

#[test]
fn cancel_private_match_ignores_user_b() {
    let mut game = open_sol(300, 0);
    game.user_b = key(5);
    assert_eq!(
        cancel_private_match(&mut game, 300, 0),
        Ok(Refund { game_lamports: 0, user_a_lamports: 300 })
    );
    assert!(game.completed);
    let mut short = open_sol(300, 0);
    assert_eq!(cancel_private_match(&mut short, 299, 0), Err(MadscapeError::NumericOverflow));
}

fn balances() -> SettlementBalances {
    SettlementBalances { game: 10_500, user_a: 100, user_b: 200, treasury: 7 }
}

#[test]
fn end_match_pays_winner_and_treasury() {
    let mut game = open_sol(5_000, 1_000);
    join_match(&mut game, key(5), 2).unwrap();
    let payout = end_match(&mut game, key(80), key(5), key(2), balances()).unwrap();
    assert_eq!(payout.fee_amount, 500);
    assert_eq!(payout.winner_amount, 9_500);
    assert_eq!(
        payout,
        SolPayout {
            game_lamports: 500,
            winner_lamports: 9_700,
            treasury_lamports: 507,
            winner_amount: 9_500,
            fee_amount: 500,
        }
    );
    assert!(game.completed);

    let mut game = open_sol(5_000, 1_000);
    join_match(&mut game, key(5), 2).unwrap();
    let payout = end_match(&mut game, key(80), key(3), key(2), balances()).unwrap();
    assert_eq!((payout.game_lamports, payout.winner_lamports, payout.treasury_lamports), (500, 9_600, 507));
}

#[test]
fn end_match_fee_rounds_down() {
    let mut game = open_sol(33, 0);
    join_match(&mut game, key(5), 2).unwrap();
    let payout = end_match(&mut game, key(80), key(3), key(2), balances()).unwrap();
    // 5% of 66 is 3.3.
    assert_eq!((payout.fee_amount, payout.winner_amount), (3, 63));
}

#[test]
fn end_match_refusals() {
    let mut open = open_sol(5_000, 1_000);
    assert_eq!(end_match(&mut open, key(80), key(3), key(2), balances()), Err(MadscapeError::EscrowNotActive));

    let mut token = Match::new(1, key(90), key(3), key(4), 0);
    token.init(0, key(77), 10, 1, String::from("id"), key(4), 0);
    token.active = true;
    assert_eq!(end_match(&mut token, key(80), key(3), key(2), balances()), Err(MadscapeError::EscrowNotNativeSol));

    let mut game = open_sol(5_000, 1_000);
    join_match(&mut game, key(5), 2).unwrap();
    assert_eq!(end_match(&mut game, key(80), key(9), key(2), balances()), Err(MadscapeError::InvalidWinner));
    let short = SettlementBalances { game: 9_999, ..balances() };
    assert_eq!(end_match(&mut game, key(80), key(5), key(2), short), Err(MadscapeError::NumericOverflow));
    let rich = SettlementBalances { user_b: u64::MAX - 9_499, ..balances() };
    assert_eq!(end_match(&mut game, key(80), key(5), key(2), rich), Err(MadscapeError::NumericOverflow));
    let full_treasury = SettlementBalances { treasury: u64::MAX - 499, ..balances() };
    assert_eq!(end_match(&mut game, key(80), key(5), key(2), full_treasury), Err(MadscapeError::NumericOverflow));
    assert!(!game.completed);

    let mut huge = open_sol(u64::MAX / 2 + 1, 0);
    huge.active = true;
    assert_eq!(end_match(&mut huge, key(80), key(3), key(2), balances()), Err(MadscapeError::NumericOverflow));
    let mut big = open_sol(u64::MAX / 5, 0);
    big.active = true;
    let enough = SettlementBalances { game: u64::MAX, ..balances() };
    assert_eq!(end_match(&mut big, key(80), key(3), key(2), enough), Err(MadscapeError::NumericOverflow));
}

#[test]
fn lamports_are_conserved() {
    let mut game = open_sol(1_234, 321);
    join_match(&mut game, key(5), 2).unwrap();
    let before = balances();
    let after = end_match(&mut game, key(80), key(3), key(2), before).unwrap();
    assert_eq!(
        before.game as u128 + before.user_a as u128 + before.treasury as u128,
        after.game_lamports as u128 + after.winner_lamports as u128 + after.treasury_lamports as u128
    );
}

#[test]
fn end_match_when_the_treasury_is_the_winner() {
    let mut game = open_sol(5_000, 1_000);
    join_match(&mut game, key(5), 2).unwrap();
    // The treasury's account is the winner's: it is credited after the winner's credit.
    let shared = SettlementBalances { game: 10_500, user_a: 100, user_b: 200, treasury: 200 };
    let payout = end_match(&mut game, key(80), key(5), key(5), shared).unwrap();
    assert_eq!(payout.game_lamports, 500);
    assert_eq!(payout.winner_lamports, 9_700);
    assert_eq!(payout.treasury_lamports, 10_200);
}

#[test]
fn end_match_when_one_player_plays_both_sides() {
    let mut game = open_sol(5_000, 1_000);
    join_match(&mut game, key(3), 2).unwrap();
    let same = SettlementBalances { game: 10_500, user_a: 100, user_b: 100, treasury: 7 };
    let payout = end_match(&mut game, key(80), key(3), key(2), same).unwrap();
    assert_eq!((payout.game_lamports, payout.winner_lamports, payout.treasury_lamports), (500, 9_600, 507));
}

#[test]
fn deposits_cover_the_payout() {
    let ra = authority(777);
    let opened = create_open_match(&ra, key(90), key(3), key(4), 1, 98_765, 4, 0, &SLOTHASHES).ok().unwrap();
    let mut game = opened.game.unwrap();
    let joined = join_match(&mut game, key(5), 1).unwrap();
    let deposits = opened.deposit.fee + opened.deposit.stake + joined.fee + joined.stake;
    let payout = end_match(&mut game, key(80), key(5), key(2),
        SettlementBalances { game: deposits, user_a: 0, user_b: 0, treasury: 0 },
    )
    .unwrap();
    assert_eq!(payout.winner_amount + payout.fee_amount, deposits);
    assert_eq!(payout.game_lamports, 0);
}

fn token_authority() -> ReleaseAuthority {
    let mut ra = authority(0);
    approve_fee_mint(&mut ra, key(20), 11).unwrap();
    approve_fee_mint(&mut ra, key(21), 12).unwrap();
    ra
}

fn open_token(amount: u64) -> Match {
    create_open_match_mint(&token_authority(), key(90), key(3), key(4), key(21), 9, amount, 8, 50, &SLOTHASHES)
        .ok()
        .flatten()
        .unwrap()
}

#[test]
fn create_open_match_mint_uses_the_approved_fee() {
    let game = open_token(1_000);
    assert_eq!(game.fee_amount, 12);
    assert_eq!(game.target_mint, key(21));
    assert_eq!(game.target_amount, 1_000);
    assert_eq!(game.match_type, 8);
    assert_eq!(game.bump, 9);
    assert_eq!(Some(game.match_id.clone()), generate_escrow_id(&SLOTHASHES, 50));
    assert!(game.is_initialized() && !game.is_native_sol());
    let ra = token_authority();
    assert!(matches!(
        create_open_match_mint(&ra, key(90), key(3), key(4), key(22), 9, 1, 0, 0, &SLOTHASHES),
        Err(MadscapeError::InvalidMatchType)
    ));
    assert!(matches!(
        create_open_match_mint(&ra, key(90), key(3), key(4), key(22), 9, 1, 1, 0, &SLOTHASHES),
        Err(MadscapeError::InvalidFeeMint)
    ));
}

#[test]
fn join_match_mint_stakes_the_target_amount() {
    let ra = token_authority();
    let mut game = open_token(1_000);
    assert_eq!(join_match_mint(&mut game, &ra, key(5), key(22), 3), Err(MadscapeError::InvalidFeeMint));
    assert_eq!(join_match_mint(&mut game, &ra, key(5), key(21), 3), Ok(1_000));
    assert!(game.active);
    assert_eq!(game.user_b, key(5));
    assert_eq!(join_match_mint(&mut game, &ra, key(5), key(21), 4), Err(MadscapeError::EscrowIsActive));

    // A named second player is kept.
    let mut private = open_token(10);
    private.user_b = key(6);
    assert_eq!(join_match_mint(&mut private, &ra, key(5), key(21), 3), Ok(10));
    assert_eq!(private.user_b, key(6));
    assert_eq!(private.join_timestamp, 3);

    let mut fresh = Match::new(1, key(90), key(3), key(4), 0);
    assert_eq!(join_match_mint(&mut fresh, &ra, key(5), key(21), 3), Err(MadscapeError::EscrowNotInitialized));
}

#[test]
fn cancel_open_match_mint_returns_the_stake() {
    let mut game = open_token(1_000);
    assert_eq!(cancel_open_match_mint(&mut game), Ok(1_000));
    assert!(game.completed);
    let mut sol = open_sol(10, 0);
    assert_eq!(cancel_open_match_mint(&mut sol), Err(MadscapeError::EscrowIsNativeSol));
    let mut fresh = Match::new(1, key(90), key(3), key(4), 0);
    assert_eq!(cancel_open_match_mint(&mut fresh), Err(MadscapeError::EscrowNotInitialized));
}

#[test]
fn end_match_mint_splits_both_stakes() {
    let ra = token_authority();
    let mut game = open_token(1_000);
    join_match_mint(&mut game, &ra, key(5), key(21), 3).unwrap();
    assert_eq!(end_match_mint(&mut game, key(5)), Ok(TokenPayout { fee_amount: 100, winner_amount: 1_900 }));
    assert!(game.completed);

    let mut odd = open_token(7);
    join_match_mint(&mut odd, &ra, key(5), key(21), 3).unwrap();
    assert_eq!(end_match_mint(&mut odd, key(5)), Ok(TokenPayout { fee_amount: 0, winner_amount: 14 }));

    let mut open = open_token(1_000);
    assert_eq!(end_match_mint(&mut open, key(5)), Err(MadscapeError::EscrowNotActive));
    open.active = true;
    assert_eq!(end_match_mint(&mut open, key(5)), Err(MadscapeError::EscrowNotActive));
    let mut sol = open_sol(10, 0);
    sol.active = true;
    assert_eq!(end_match_mint(&mut sol, key(5)), Err(MadscapeError::EscrowIsNativeSol));
}

#[test]
fn end_match_mint_pays_only_a_player() {
    let ra = token_authority();
    let mut game = open_token(1_000);
    join_match_mint(&mut game, &ra, key(5), key(21), 3).unwrap();
    assert_eq!(end_match_mint(&mut game, key(9), ), Err(MadscapeError::InvalidWinner));
    assert!(!game.completed);
    assert_eq!(end_match_mint(&mut game, key(3)), Ok(TokenPayout { fee_amount: 100, winner_amount: 1_900 }));
    assert!(game.completed);
}

#[test]
fn a_match_goes_from_open_to_active_to_over() {
    let mut game = open_sol(1_000, 100);
    assert!(game.is_initialized() && !game.active && !game.completed);
    join_match(&mut game, key(5), 7).unwrap();
    assert!(game.is_initialized() && game.active && !game.completed);
    end_match(&mut game, key(80), key(5), key(2), SettlementBalances { game: 2_000, user_a: 0, user_b: 0, treasury: 0 }).unwrap();
    assert!(game.is_initialized() && game.completed);
}

#[test]
fn refusals_change_nothing() {
    let mut game = open_sol(1_000, 100);
    assert_eq!(end_match(&mut game, key(80), key(3), key(2), balances()), Err(MadscapeError::EscrowNotActive));
    assert!(!game.active && !game.completed);
    join_match(&mut game, key(5), 7).unwrap();
    assert_eq!(join_match(&mut game, key(6), 8), Err(MadscapeError::EscrowIsActive));
    assert_eq!(game.user_b, key(5));
    assert_eq!(game.join_timestamp, 7);
    let short = SettlementBalances { game: 1, ..balances() };
    assert_eq!(end_match(&mut game, key(80), key(5), key(2), short), Err(MadscapeError::NumericOverflow));
    assert!(game.active && !game.completed);
}

#[test]
fn error_messages() {
    assert_eq!(MadscapeError::InvalidFeeMint.message(), "Invalid mint");
    assert_eq!(MadscapeError::InvalidTokenAccountAmount.message(), "Invalid token account ammount");
    assert_eq!(MadscapeError::EscrowIsActive.message(), "Escrow is active");
    assert_eq!(MadscapeError::EscrowActive.message(), "Escrow is active");
    assert_eq!(MadscapeError::UserAAndUserBAreTheSame.message(), "User a and user b are the same");
    assert_eq!(MadscapeError::InvalidUserB.message(), "Invalid User B");
}

#[test]
fn opening_fee_comes_before_the_stake() {
    let ra = authority(1_000);
    assert_eq!(opening_fee(&ra, 5_000, 2), Ok(500));
    assert_eq!(opening_fee(&ra, 5_000, 0), Err(MadscapeError::InvalidMatchType));
    assert_eq!(opening_fee(&authority(20_000), u64::MAX, 1), Err(MadscapeError::FeeCalculationFailure));
    // A fee above the amount is paid first, then refused; no slot hashes are read.
    let greedy = authority(20_000);
    assert_eq!(opening_fee(&greedy, 100, 1), Ok(200));
    assert!(matches!(
        create_open_match(&greedy, key(90), key(3), key(4), 1, 100, 1, 0, &[]),
        Err(MadscapeError::NumericOverflow)
    ));
}

#[test]
fn joining_fee_comes_before_the_stake() {
    let mut game = open_sol(5_000, 1_000);
    assert_eq!(joining_fee(&game, key(5)), Ok(500));
    game.user_b = key(6);
    assert_eq!(joining_fee(&game, key(5)), Err(MadscapeError::InvalidUserB));
    assert_eq!(joining_fee(&game, key(6)), Ok(500));
    game.active = true;
    assert_eq!(joining_fee(&game, key(6)), Err(MadscapeError::EscrowIsActive));
    let fresh = Match::new(1, key(90), key(3), key(4), 0);
    assert_eq!(joining_fee(&fresh, key(5)), Err(MadscapeError::EscrowNotInitialized));
}
