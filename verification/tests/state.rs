use madscape::constants::SOLANA_PUBKEY;
use madscape::state::{is_valid_match_type_for_init, Match, ReleaseAuthority, ReleaseAuthorityItem};
use madscape::Pubkey;

fn key(byte: u8) -> Pubkey {
    Pubkey::new_from_array([byte; 32])
}

#[test]
fn match_types_one_to_eight() {
    assert!(!is_valid_match_type_for_init(0));
    for t in 1..=8u8 {
        assert!(is_valid_match_type_for_init(t));
    }
    assert!(!is_valid_match_type_for_init(9));
    assert!(!is_valid_match_type_for_init(255));
}

#[test]
fn pubkey_default_and_equality() {
    assert!(Pubkey::default().is_default());
    assert_eq!(Pubkey::default(), key(0));
    assert!(!key(1).is_default());
    let mut bytes = [0u8; 32];
    bytes[31] = 1;
    assert!(!Pubkey::new_from_array(bytes).is_default());
    assert_ne!(Pubkey::new_from_array(bytes), key(0));
    assert_eq!(Pubkey::new_from_array(bytes).to_bytes(), bytes);
}

#[test]
fn new_match_is_not_initialized() {
    let game = Match::new(7, key(1), key(2), key(3), 1_000);
    assert_eq!(game.bump, 7);
    assert_eq!(game.release_authority, key(1));
    assert_eq!(game.user_a, key(2));
    assert_eq!(game.user_b, Pubkey::default());
    assert_eq!(game.mint, key(3));
    assert_eq!(game.init_timestamp, 1_000);
    assert_eq!(game.join_timestamp, 0);
    assert_eq!(game.target_mint, Pubkey::default());
    assert_eq!(game.match_id, "");
    assert!(!game.active && !game.completed);
    assert_eq!((game.target_amount, game.fee_amount, game.match_type, game.server), (0, 0, 0, 0));
    assert!(game.is_not_initialized());
    assert!(!game.is_initialized());
}

#[test]
fn new_private_match_names_user_b() {
    let game = Match::new_private(1, key(1), key(2), key(5), key(3), 9);
    assert_eq!(game.user_b, key(5));
    assert!(game.is_not_initialized());
}

#[test]
fn init_sets_the_stake() {
    let mut game = Match::new(7, key(1), key(2), key(3), 1_000);
    game.init(5, Pubkey::new_from_array(SOLANA_PUBKEY), 100, 3, "abc".to_string(), key(4), 1_234_567);
    assert_eq!(game.fee_amount, 5);
    assert_eq!(game.target_amount, 100);
    assert_eq!(game.match_type, 3);
    assert_eq!(game.match_id, "abc");
    assert_eq!(game.mint, key(4));
    assert_eq!(game.server, 7);
    assert!(game.is_initialized());
    assert!(game.is_native_sol());
    assert_eq!(game.user_a, key(2));
    assert_eq!(game.init_timestamp, 1_000);
}

#[test]
fn any_set_field_makes_a_match_initialized() {
    let base = || Match::new(0, key(1), key(2), key(3), 0);
    let mut g = base();
    g.fee_amount = 1;
    assert!(g.is_initialized());
    let mut g = base();
    g.target_mint = key(9);
    assert!(g.is_initialized());
    let mut g = base();
    g.target_amount = 1;
    assert!(g.is_initialized());
    let mut g = base();
    g.active = true;
    assert!(g.is_initialized());
    let mut g = base();
    g.match_type = 1;
    assert!(g.is_initialized());
    let mut g = base();
    g.match_id = "x".to_string();
    assert!(g.is_initialized());
}

#[test]
fn server_follows_the_sign_of_the_time() {
    let mut game = Match::new(0, key(1), key(2), key(3), 0);
    let cases: [(i64, u8); 6] = [(0, 0), (19, 9), (-1, 255), (-10, 0), (-13, 253), (i64::MIN, 248)];
    for (now, server) in cases {
        game.init(0, key(9), 1, 1, String::new(), key(3), now);
        assert_eq!(game.server, server, "time {}", now);
        assert_eq!(game.server, (now % 10) as u8);
    }
    game.init(0, key(9), 1, 1, String::new(), key(3), i64::MAX);
    assert_eq!(game.server, 7);
}

#[test]
fn token_match_is_not_native_sol() {
    let mut game = Match::new(0, key(1), key(2), key(3), 0);
    assert!(!game.is_native_sol());
    game.target_mint = key(8);
    assert!(!game.is_native_sol());
}

#[test]
fn activate_and_retire() {
    let mut game = Match::new(0, key(1), key(2), key(3), 0);
    game.activate(55);
    assert!(game.active);
    assert_eq!(game.join_timestamp, 55);
    assert_eq!(game.user_b, Pubkey::default());
    game.activate_public(key(6), 66);
    assert_eq!(game.user_b, key(6));
    assert_eq!(game.join_timestamp, 66);
    assert!(!game.completed);
    game.retire();
    assert!(game.completed);
}

#[test]
fn account_sizes() {
    assert_eq!(Match::space(), 273);
    assert_eq!(ReleaseAuthorityItem::space(), 40);
    assert_eq!(ReleaseAuthority::space(0), 79);
    assert_eq!(ReleaseAuthority::space(10), 479);
}

#[test]
fn release_authority_entries() {
    let mut ra = ReleaseAuthority::new(3, key(1), key(2), 250);
    assert!(ra.approved_mints.is_empty());
    assert_eq!(ra.fee_lamports_basis_points, 250);
    ra.approve_fee_mint(key(10), 7);
    ra.approve_fee_mint(key(11), 8);
    ra.approve_fee_mint(key(10), 9);
    assert!(ra.is_fee_mint_approved(&key(10)));
    assert!(!ra.is_fee_mint_approved(&key(12)));
    assert_eq!(ra.find_fee_mint(&key(10)), Some(ReleaseAuthorityItem::new(key(10), 7)));
    assert_eq!(ra.find_fee_mint(&key(11)), Some(ReleaseAuthorityItem::new(key(11), 8)));
    assert_eq!(ra.find_fee_mint(&key(12)), None);
    ra.revoke_fee_mint(key(10));
    assert_eq!(ra.approved_mints, vec![ReleaseAuthorityItem::new(key(11), 8)]);
    ra.update(key(5), 99);
    assert_eq!(ra.treasury, key(5));
    assert_eq!(ra.fee_lamports_basis_points, 99);
    assert_eq!(ra.authority, key(1));
    assert_eq!(ra.bump, 3);
}
