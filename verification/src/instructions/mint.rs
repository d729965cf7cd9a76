//! Matches played for tokens of an approved mint: opening, joining, cancelling and
//! settling them. The tokens move between token accounts through the token program;
//! these functions say how many.
use vstd::prelude::*;

use crate::errors::MadscapeError;
use crate::pubkey::{zero_key, Pubkey};
use crate::state::matches::fresh_match;
use crate::state::release_authority::{has_mint, is_first_with_mint};
use crate::state::{is_valid_match_type_for_init, Match, ReleaseAuthority};
use crate::strings::{escrow_id, generate_escrow_id};

verus! {

/// The tokens a settled token match sends from its escrow account: the fee to the
/// treasury's token account, the rest to the winner's.
#[derive(Clone, Copy, Debug, PartialEq, Eq, Structural)]
pub struct TokenPayout {
    pub fee_amount: u64,
    pub winner_amount: u64,
}

/// Opens a match of `user_a` for `amount` tokens of `match_mint`, of kind
/// `match_type`, at time `now`; `user_a` sends `amount` tokens to the escrow token
/// account. The fee of the match is the fee the release authority approved
/// `match_mint` with. The match id is derived from the slot hashes sysvar data
/// `recent_slothashes` and `now`; `Ok(None)` when no id can be derived.
///
/// Refused with `InvalidMatchType` when `match_type` is not 1 to 8, then with
/// `InvalidFeeMint` when `match_mint` is not approved.
pub fn create_open_match_mint(
    release_authority: &ReleaseAuthority,
    release_authority_key: Pubkey,
    user_a: Pubkey,
    mint: Pubkey,
    match_mint: Pubkey,
    bump: u8,
    amount: u64,
    match_type: u8,
    now: i64,
    recent_slothashes: &[u8],
) -> (result: Result<Option<Match>, MadscapeError>)
    requires
        1 <= match_type <= 8 && has_mint(release_authority.approved_mints@, match_mint@)
            ==> recent_slothashes@.len() >= 20,
    ensures
        !(1 <= match_type <= 8) ==> result == Err::<Option<Match>, MadscapeError>(
            MadscapeError::InvalidMatchType,
        ),
        1 <= match_type <= 8 && !has_mint(release_authority.approved_mints@, match_mint@)
            ==> result == Err::<Option<Match>, MadscapeError>(MadscapeError::InvalidFeeMint),
        1 <= match_type <= 8 && has_mint(release_authority.approved_mints@, match_mint@)
            ==> result is Ok,
        result matches Ok(opened) ==> (opened is None <==> escrow_id(recent_slothashes@, now) is None),
        result matches Ok(Some(game)) ==> escrow_id(recent_slothashes@, now) matches Some(id)
            && exists|item|
            is_first_with_mint(release_authority.approved_mints@, match_mint@, item) && game@
                == fresh_match(
                bump,
                release_authority_key@,
                user_a@,
                zero_key(),
                mint@,
                now,
            ).with_stake(item.fee, match_mint@, amount, match_type, id, mint@, now),
{
    if !is_valid_match_type_for_init(match_type) {
        return Err(MadscapeError::InvalidMatchType);
    }
    let matching_fee_mint = match release_authority.find_fee_mint(&match_mint) {
        Some(item) => item,
        None => return Err(MadscapeError::InvalidFeeMint),
    };
    let match_id = match generate_escrow_id(recent_slothashes, now) {
        Some(id) => id,
        None => return Ok(None),
    };
    let mut game = Match::new(bump, release_authority_key, user_a, mint, now);
    game.init(matching_fee_mint.fee, match_mint, amount, match_type, match_id, mint, now);
    Ok(Some(game))
}

/// `user_b` joins an open token match at time `now`, sending the target amount of
/// tokens to the escrow token account, which is what a success returns. A match with
/// no second player gets `user_b` as its second player; a match that names one keeps
/// it.
///
/// Refused with `EscrowIsActive` when the match is active, then
/// `EscrowNotInitialized` when its stake was never set, then `InvalidFeeMint` when
/// `match_mint` is not approved.
pub fn join_match_mint(
    game: &mut Match,
    release_authority: &ReleaseAuthority,
    user_b: Pubkey,
    match_mint: Pubkey,
    now: i64,
) -> (result: Result<u64, MadscapeError>)
    ensures
        old(game)@.active ==> result == Err::<u64, MadscapeError>(MadscapeError::EscrowIsActive),
        !old(game)@.active && old(game)@.not_initialized() ==> result == Err::<u64, MadscapeError>(
            MadscapeError::EscrowNotInitialized,
        ),
        !old(game)@.active && !old(game)@.not_initialized() && !has_mint(
            release_authority.approved_mints@,
            match_mint@,
        ) ==> result == Err::<u64, MadscapeError>(MadscapeError::InvalidFeeMint),
        !old(game)@.active && !old(game)@.not_initialized() && has_mint(
            release_authority.approved_mints@,
            match_mint@,
        ) ==> result == Ok::<u64, MadscapeError>(old(game).target_amount),
        result is Ok && old(game)@.user_b == zero_key() ==> final(game)@ == old(game)@.activated_by(
            user_b@,
            now,
        ),
        result is Ok && old(game)@.user_b != zero_key() ==> final(game)@ == old(game)@.activated(
            now,
        ),
        result is Err ==> final(game)@ == old(game)@,
{
    if game.active {
        return Err(MadscapeError::EscrowIsActive);
    }
    if !game.is_initialized() {
        return Err(MadscapeError::EscrowNotInitialized);
    }
    if !release_authority.is_fee_mint_approved(&match_mint) {
        return Err(MadscapeError::InvalidFeeMint);
    }
    let amount = game.target_amount;
    if game.user_b.is_default() {
        game.activate_public(user_b, now);
    } else {
        game.activate(now);
    }
    Ok(amount)
}

/// The first player cancels an open token match: the target amount of tokens goes
/// back from the escrow token account to the player, which is what a success
/// returns, and the match is over.
///
/// Refused with `EscrowIsNativeSol` when the match is played for lamports, then with
/// `EscrowNotInitialized` when its stake was never set.
pub fn cancel_open_match_mint(game: &mut Match) -> (result: Result<u64, MadscapeError>)
    ensures
        old(game)@.native_sol() ==> result == Err::<u64, MadscapeError>(
            MadscapeError::EscrowIsNativeSol,
        ),
        !old(game)@.native_sol() && old(game)@.not_initialized() ==> result == Err::<
            u64,
            MadscapeError,
        >(MadscapeError::EscrowNotInitialized),
        !old(game)@.native_sol() && !old(game)@.not_initialized() ==> result == Ok::<
            u64,
            MadscapeError,
        >(old(game).target_amount),
        result is Ok ==> final(game)@ == old(game)@.retired(),
        result is Err ==> final(game)@ == old(game)@,
{
    if game.is_native_sol() {
        return Err(MadscapeError::EscrowIsNativeSol);
    }
    if !game.is_initialized() {
        return Err(MadscapeError::EscrowNotInitialized);
    }
    let amount = game.target_amount;
    game.retire();
    Ok(amount)
}

/// The release authority settles an active token match for `winner`, one of its two
/// players: of both stakes, `2 * target_amount` tokens, 5% rounded down go to the
/// treasury's token account and the rest to the winner's. The match is over.
///
/// Once the match passes these checks, `10 * target_amount` must fit in a `u64`:
/// the amounts are computed with plain arithmetic, which panics on overflow.
///
/// Refused with `EscrowNotActive` when the match is not active, then with
/// `EscrowIsNativeSol` when it is played for lamports, then with `EscrowNotActive`
/// when a player is the default key, then with `InvalidWinner` when `winner` is
/// neither player.
pub fn end_match_mint(game: &mut Match, winner: Pubkey) -> (result: Result<TokenPayout, MadscapeError>)
    requires
        old(game)@.active && !old(game)@.native_sol() && old(game)@.user_a != zero_key() && old(
            game,
        )@.user_b != zero_key() && (winner@ == old(game)@.user_a || winner@ == old(game)@.user_b)
            ==> 10 * old(game).target_amount <= u64::MAX,
    ensures
        !old(game)@.active ==> result == Err::<TokenPayout, MadscapeError>(
            MadscapeError::EscrowNotActive,
        ),
        old(game)@.active && old(game)@.native_sol() ==> result == Err::<TokenPayout, MadscapeError>(
            MadscapeError::EscrowIsNativeSol,
        ),
        old(game)@.active && !old(game)@.native_sol() && (old(game)@.user_a == zero_key() || old(
            game,
        )@.user_b == zero_key()) ==> result == Err::<TokenPayout, MadscapeError>(
            MadscapeError::EscrowNotActive,
        ),
        old(game)@.active && !old(game)@.native_sol() && old(game)@.user_a != zero_key() && old(
            game,
        )@.user_b != zero_key() && winner@ != old(game)@.user_a && winner@ != old(game)@.user_b
            ==> result == Err::<TokenPayout, MadscapeError>(MadscapeError::InvalidWinner),
        old(game)@.active && !old(game)@.native_sol() && old(game)@.user_a != zero_key() && old(
            game,
        )@.user_b != zero_key() && (winner@ == old(game)@.user_a || winner@ == old(game)@.user_b)
            ==> result == Ok::<TokenPayout, MadscapeError>(
            TokenPayout {
                fee_amount: (old(game).target_amount * 2 * 5 / 100) as u64,
                winner_amount: (old(game).target_amount * 2 - old(game).target_amount * 2 * 5
                    / 100) as u64,
            },
        ),
        // The winner and the treasury share both stakes.
        result matches Ok(payout) ==> payout.fee_amount + payout.winner_amount == 2 * old(
            game,
        ).target_amount,
        result is Ok ==> final(game)@ == old(game)@.retired(),
        result is Err ==> final(game)@ == old(game)@,
{
    if !game.active {
        return Err(MadscapeError::EscrowNotActive);
    }
    if game.is_native_sol() {
        return Err(MadscapeError::EscrowIsNativeSol);
    }
    if game.user_a.is_default() || game.user_b.is_default() {
        return Err(MadscapeError::EscrowNotActive);
    }
    if winner != game.user_a && winner != game.user_b {
        return Err(MadscapeError::InvalidWinner);
    }
    let fee_amount = (game.target_amount * 2) * 5 / 100;
    let winner_amount = game.target_amount * 2 - fee_amount;
    game.retire();
    Ok(TokenPayout { fee_amount, winner_amount })
}

} // verus!
