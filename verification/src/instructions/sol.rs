//! Matches played for lamports: opening, joining, cancelling and settling them.
use vstd::prelude::*;

use crate::constants::SOLANA_PUBKEY;
use crate::errors::MadscapeError;
use crate::maths::{calc_fee_basis_points, fee_by_basis_points, get_match_total_lamports_checked};
use crate::pubkey::{zero_key, Pubkey};
use crate::state::matches::fresh_match;
use crate::state::{is_valid_match_type_for_init, Match, MatchView, ReleaseAuthority};
use crate::strings::{escrow_id, generate_escrow_id};

verus! {

/// What a player pays into a match account: a fee, then the stake. Both go from the
/// player to the match account through the system program.
#[derive(Clone, Copy, Debug, PartialEq, Eq, Structural)]
pub struct Deposit {
    pub fee: u64,
    pub stake: u64,
}

/// What the first player pays into a new match, and the match; `None` when no match
/// id could be derived for it.
pub struct OpenedMatch {
    pub game: Option<Match>,
    pub deposit: Deposit,
}

/// Lamports of the match account and of its first player after a cancelled match is
/// refunded.
#[derive(Clone, Copy, Debug, PartialEq, Eq, Structural)]
pub struct Refund {
    pub game_lamports: u64,
    pub user_a_lamports: u64,
}

/// Lamports of the accounts that settling a match touches.
#[derive(Clone, Copy, Debug, PartialEq, Eq, Structural)]
pub struct SettlementBalances {
    pub game: u64,
    pub user_a: u64,
    pub user_b: u64,
    pub treasury: u64,
}

/// What settling a lamport match writes: the lamports of the match account, then of
/// the winner's account, then of the treasury, each computed from the account as the
/// earlier writes left it, with what the winner and the treasury received.
#[derive(Clone, Copy, Debug, PartialEq, Eq, Structural)]
pub struct SolPayout {
    pub game_lamports: u64,
    pub winner_lamports: u64,
    pub treasury_lamports: u64,
    pub winner_amount: u64,
    pub fee_amount: u64,
}

/// What the first player pays to open a match for `amount` lamports at
/// `basis_points`: the fee on `amount`, then the rest of `amount`.
pub open spec fn opening_deposit(amount: u64, basis_points: u16) -> Deposit {
    let fee = fee_by_basis_points(amount, basis_points);
    Deposit { fee: fee as u64, stake: (amount - fee) as u64 }
}

/// What the second player pays to join `game`: the fee of the match, then the rest
/// of its target amount.
pub open spec fn joining_deposit(game: MatchView) -> Deposit {
    Deposit { fee: game.fee_amount, stake: (game.target_amount - game.fee_amount) as u64 }
}

/// The fee the treasury takes when a match paying out `total` is settled: 5%,
/// rounded down.
pub open spec fn settlement_fee(total: int) -> int {
    total * 5 / 100
}

/// The fee `user_a` pays first when opening a match for `amount` lamports of kind
/// `match_type`: `amount` at the release authority's basis points.
///
/// Refused with `FeeCalculationFailure` when the fee overflows, then with
/// `InvalidMatchType` when `match_type` is not 1 to 8.
pub fn opening_fee(release_authority: &ReleaseAuthority, amount: u64, match_type: u8) -> (result: Result<u64, MadscapeError>)
    ensures
        amount * release_authority.fee_lamports_basis_points > u64::MAX ==> result == Err::<
            u64,
            MadscapeError,
        >(MadscapeError::FeeCalculationFailure),
        amount * release_authority.fee_lamports_basis_points <= u64::MAX && !(1 <= match_type <= 8)
            ==> result == Err::<u64, MadscapeError>(MadscapeError::InvalidMatchType),
        amount * release_authority.fee_lamports_basis_points <= u64::MAX && 1 <= match_type <= 8
            ==> result == Ok::<u64, MadscapeError>(
            fee_by_basis_points(amount, release_authority.fee_lamports_basis_points) as u64,
        ),
        result matches Ok(fee) ==> fee == (amount * release_authority.fee_lamports_basis_points)
            / 10000,
{
    let fee_lamports = match calc_fee_basis_points(amount, release_authority.fee_lamports_basis_points) {
        Ok(fee) => fee,
        Err(e) => return Err(e),
    };
    if !is_valid_match_type_for_init(match_type) {
        return Err(MadscapeError::InvalidMatchType);
    }
    Ok(fee_lamports)
}

/// Opens a match of `user_a` for `amount` lamports of kind `match_type` at time
/// `now`. The fee is `opening_fee`; `user_a` pays the fee, then the rest of
/// `amount`. The match id is derived from the slot hashes sysvar data
/// `recent_slothashes` and `now`; the match is `None` when no id can be derived.
///
/// Refused as `opening_fee` refuses, then with `NumericOverflow` when the fee
/// exceeds `amount`.
pub fn create_open_match(
    release_authority: &ReleaseAuthority,
    release_authority_key: Pubkey,
    user_a: Pubkey,
    mint: Pubkey,
    bump: u8,
    amount: u64,
    match_type: u8,
    now: i64,
    recent_slothashes: &[u8],
) -> (result: Result<OpenedMatch, MadscapeError>)
    requires
        amount * release_authority.fee_lamports_basis_points <= u64::MAX && 1 <= match_type <= 8
            && fee_by_basis_points(amount, release_authority.fee_lamports_basis_points) <= amount
            ==> recent_slothashes@.len() >= 20,
    ensures
        amount * release_authority.fee_lamports_basis_points > u64::MAX ==> (result matches Err(
            e,
        ) && e == MadscapeError::FeeCalculationFailure),
        amount * release_authority.fee_lamports_basis_points <= u64::MAX && !(1 <= match_type <= 8)
            ==> (result matches Err(e) && e == MadscapeError::InvalidMatchType),
        amount * release_authority.fee_lamports_basis_points <= u64::MAX && 1 <= match_type <= 8
            && fee_by_basis_points(amount, release_authority.fee_lamports_basis_points) > amount
            ==> (result matches Err(e) && e == MadscapeError::NumericOverflow),
        amount * release_authority.fee_lamports_basis_points <= u64::MAX && 1 <= match_type <= 8
            && fee_by_basis_points(amount, release_authority.fee_lamports_basis_points) <= amount
            ==> result is Ok,
        result matches Ok(opened) ==> opened.deposit == opening_deposit(
            amount,
            release_authority.fee_lamports_basis_points,
        ),
        // The fee paid first is `amount` at the basis points, rounded down; fee and stake
        // add up to `amount`.
        result matches Ok(opened) ==> opened.deposit.fee == (amount
            * release_authority.fee_lamports_basis_points) / 10000 && opened.deposit.fee
            + opened.deposit.stake == amount,
        result matches Ok(opened) ==> (opened.game is None <==> escrow_id(recent_slothashes@, now) is None),
        result matches Ok(opened) ==> (opened.game matches Some(game) ==> (escrow_id(
            recent_slothashes@,
            now,
        ) matches Some(id) && game@ == fresh_match(
            bump,
            release_authority_key@,
            user_a@,
            zero_key(),
            mint@,
            now,
        ).with_stake(
            fee_by_basis_points(amount, release_authority.fee_lamports_basis_points) as u64,
            SOLANA_PUBKEY@,
            amount,
            match_type,
            id,
            mint@,
            now,
        ))),
{
    let fee_lamports = match opening_fee(release_authority, amount, match_type) {
        Ok(fee) => fee,
        Err(e) => return Err(e),
    };
    let user_amount = match amount.checked_sub(fee_lamports) {
        Some(rest) => rest,
        None => return Err(MadscapeError::NumericOverflow),
    };
    let deposit = Deposit { fee: fee_lamports, stake: user_amount };
    let match_id = match generate_escrow_id(recent_slothashes, now) {
        Some(id) => id,
        None => return Ok(OpenedMatch { game: None, deposit }),
    };
    let mut game = Match::new(bump, release_authority_key, user_a, mint, now);
    game.init(fee_lamports, Pubkey::new_from_array(SOLANA_PUBKEY), amount, match_type, match_id, mint, now);
    Ok(OpenedMatch { game: Some(game), deposit })
}

/// The fee `user_b` pays first when joining `game`: the fee of the match.
///
/// Refused with `EscrowIsActive` when the match is active, then `EscrowNotInitialized`
/// when its stake was never set, then `EscrowNotNativeSol` when it is not played for
/// lamports, then `InvalidUserB` when another second player was named.
pub fn joining_fee(game: &Match, user_b: Pubkey) -> (result: Result<u64, MadscapeError>)
    ensures
        game@.active ==> result == Err::<u64, MadscapeError>(MadscapeError::EscrowIsActive),
        !game@.active && game@.not_initialized() ==> result == Err::<u64, MadscapeError>(
            MadscapeError::EscrowNotInitialized,
        ),
        !game@.active && !game@.not_initialized() && !game@.native_sol() ==> result == Err::<
            u64,
            MadscapeError,
        >(MadscapeError::EscrowNotNativeSol),
        !game@.active && !game@.not_initialized() && game@.native_sol() && game@.user_b
            != zero_key() && game@.user_b != user_b@ ==> result == Err::<u64, MadscapeError>(
            MadscapeError::InvalidUserB,
        ),
        !game@.active && !game@.not_initialized() && game@.native_sol() && (game@.user_b
            == zero_key() || game@.user_b == user_b@) ==> result == Ok::<u64, MadscapeError>(
            game.fee_amount,
        ),
{
    if game.active {
        return Err(MadscapeError::EscrowIsActive);
    }
    if !game.is_initialized() {
        return Err(MadscapeError::EscrowNotInitialized);
    }
    if !game.is_native_sol() {
        return Err(MadscapeError::EscrowNotNativeSol);
    }
    if !game.user_b.is_default() && game.user_b != user_b {
        return Err(MadscapeError::InvalidUserB);
    }
    Ok(game.fee_amount)
}

/// `user_b` joins an open lamport match at time `now`: it pays `joining_fee`, the
/// fee of the match, then the rest of the target amount.
///
/// Refused with `EscrowIsActive` when the match is active, then `EscrowNotInitialized`
/// when its stake was never set, then `EscrowNotNativeSol` when it is not played for
/// lamports, then `InvalidUserB` when another second player was named, then
/// `NumericOverflow` when the fee exceeds the target amount.
pub fn join_match(game: &mut Match, user_b: Pubkey, now: i64) -> (result: Result<Deposit, MadscapeError>)
    ensures
        old(game)@.active ==> result == Err::<Deposit, MadscapeError>(MadscapeError::EscrowIsActive),
        !old(game)@.active && old(game)@.not_initialized() ==> result == Err::<Deposit, MadscapeError>(
            MadscapeError::EscrowNotInitialized,
        ),
        !old(game)@.active && !old(game)@.not_initialized() && !old(game)@.native_sol() ==> result
            == Err::<Deposit, MadscapeError>(MadscapeError::EscrowNotNativeSol),
        !old(game)@.active && !old(game)@.not_initialized() && old(game)@.native_sol() && old(
            game,
        )@.user_b != zero_key() && old(game)@.user_b != user_b@ ==> result == Err::<
            Deposit,
            MadscapeError,
        >(MadscapeError::InvalidUserB),
        !old(game)@.active && !old(game)@.not_initialized() && old(game)@.native_sol() && (old(
            game,
        )@.user_b == zero_key() || old(game)@.user_b == user_b@) && old(game)@.fee_amount > old(
            game,
        )@.target_amount ==> result == Err::<Deposit, MadscapeError>(
            MadscapeError::NumericOverflow,
        ),
        !old(game)@.active && !old(game)@.not_initialized() && old(game)@.native_sol() && (old(
            game,
        )@.user_b == zero_key() || old(game)@.user_b == user_b@) && old(game)@.fee_amount <= old(
            game,
        )@.target_amount ==> result == Ok::<Deposit, MadscapeError>(joining_deposit(old(game)@)),
        // The fee paid first is the match's fee; fee and stake add up to its target amount.
        result matches Ok(deposit) ==> deposit.fee == old(game).fee_amount && deposit.fee
            + deposit.stake == old(game).target_amount,
        result is Ok ==> final(game)@ == old(game)@.activated_by(user_b@, now),
        result is Err ==> final(game)@ == old(game)@,
{
    let fee_lamports = match joining_fee(game, user_b) {
        Ok(fee) => fee,
        Err(e) => return Err(e),
    };
    let named_user_b = !game.user_b.is_default();
    let user_amount = match game.target_amount.checked_sub(fee_lamports) {
        Some(rest) => rest,
        None => return Err(MadscapeError::NumericOverflow),
    };
    if !named_user_b {
        game.user_b = user_b;
    }
    if game.user_b.is_default() {
        game.activate_public(user_b, now);
    } else {
        game.activate(now);
    }
    Ok(Deposit { fee: fee_lamports, stake: user_amount })
}

/// The refund of a cancelled match: `target_amount` lamports from the match account
/// back to its first player.
fn refund_user_a(game: &mut Match, game_lamports: u64, user_a_lamports: u64) -> (result: Result<Refund, MadscapeError>)
    ensures
        game_lamports < old(game).target_amount ==> result == Err::<Refund, MadscapeError>(
            MadscapeError::NumericOverflow,
        ),
        game_lamports >= old(game).target_amount && user_a_lamports + old(game).target_amount
            > u64::MAX ==> result == Err::<Refund, MadscapeError>(MadscapeError::NumericOverflow),
        game_lamports >= old(game).target_amount && user_a_lamports + old(game).target_amount
            <= u64::MAX ==> result == Ok::<Refund, MadscapeError>(
            Refund {
                game_lamports: (game_lamports - old(game).target_amount) as u64,
                user_a_lamports: (user_a_lamports + old(game).target_amount) as u64,
            },
        ),
        result is Ok ==> final(game)@ == old(game)@.retired(),
        result is Err ==> final(game)@ == old(game)@,
{
    let total_to_deduct_from_match = game.target_amount;
    let match_deduction_result = match game_lamports.checked_sub(total_to_deduct_from_match) {
        Some(rest) => rest,
        None => return Err(MadscapeError::NumericOverflow),
    };
    let user_a_addition_result = match user_a_lamports.checked_add(total_to_deduct_from_match) {
        Some(sum) => sum,
        None => return Err(MadscapeError::NumericOverflow),
    };
    game.retire();
    Ok(Refund { game_lamports: match_deduction_result, user_a_lamports: user_a_addition_result })
}

/// The first player cancels an open lamport match nobody joined: the target amount
/// goes back from the match account (holding `game_lamports`) to the player
/// (holding `user_a_lamports`), and the match is over. The fee stays with the match
/// account.
///
/// Refused with `EscrowNotActivated` when a second player is set, then with
/// `NumericOverflow` when the match account holds less than the target amount or
/// the player's balance would overflow.
pub fn cancel_open_match(game: &mut Match, game_lamports: u64, user_a_lamports: u64) -> (result: Result<Refund, MadscapeError>)
    ensures
        old(game)@.user_b != zero_key() ==> result == Err::<Refund, MadscapeError>(
            MadscapeError::EscrowNotActivated,
        ),
        old(game)@.user_b == zero_key() && game_lamports < old(game).target_amount ==> result
            == Err::<Refund, MadscapeError>(MadscapeError::NumericOverflow),
        old(game)@.user_b == zero_key() && game_lamports >= old(game).target_amount
            && user_a_lamports + old(game).target_amount > u64::MAX ==> result == Err::<
            Refund,
            MadscapeError,
        >(MadscapeError::NumericOverflow),
        old(game)@.user_b == zero_key() && game_lamports >= old(game).target_amount
            && user_a_lamports + old(game).target_amount <= u64::MAX ==> result == Ok::<
            Refund,
            MadscapeError,
        >(
            Refund {
                game_lamports: (game_lamports - old(game).target_amount) as u64,
                user_a_lamports: (user_a_lamports + old(game).target_amount) as u64,
            },
        ),
        // The refund moves lamports; it creates none.
        result matches Ok(r) ==> r.game_lamports + r.user_a_lamports == game_lamports
            + user_a_lamports,
        result is Ok ==> final(game)@ == old(game)@.retired(),
        result is Err ==> final(game)@ == old(game)@,
{
    if !game.user_b.is_default() {
        return Err(MadscapeError::EscrowNotActivated);
    }
    refund_user_a(game, game_lamports, user_a_lamports)
}

/// The release authority cancels a lamport match: the target amount goes back from
/// the match account to its first player, and the match is over.
///
/// Refused with `NumericOverflow` when the match account holds less than the target
/// amount or the player's balance would overflow.
pub fn cancel_private_match(game: &mut Match, game_lamports: u64, user_a_lamports: u64) -> (result: Result<Refund, MadscapeError>)
    ensures
        game_lamports < old(game).target_amount ==> result == Err::<Refund, MadscapeError>(
            MadscapeError::NumericOverflow,
        ),
        game_lamports >= old(game).target_amount && user_a_lamports + old(game).target_amount
            > u64::MAX ==> result == Err::<Refund, MadscapeError>(MadscapeError::NumericOverflow),
        game_lamports >= old(game).target_amount && user_a_lamports + old(game).target_amount
            <= u64::MAX ==> result == Ok::<Refund, MadscapeError>(
            Refund {
                game_lamports: (game_lamports - old(game).target_amount) as u64,
                user_a_lamports: (user_a_lamports + old(game).target_amount) as u64,
            },
        ),
        // The refund moves lamports; it creates none.
        result matches Ok(r) ==> r.game_lamports + r.user_a_lamports == game_lamports
            + user_a_lamports,
        result is Ok ==> final(game)@ == old(game)@.retired(),
        result is Err ==> final(game)@ == old(game)@,
{
    refund_user_a(game, game_lamports, user_a_lamports)
}

/// The lamports of the match account once both stakes left it.
pub open spec fn game_after(game: MatchView, balances: SettlementBalances) -> int {
    balances.game - 2 * game.target_amount
}

/// The lamports of the winner's account when it is credited: those of the match
/// account after its debit if the two are one account, else those read before.
pub open spec fn winner_before(game: MatchView, game_key: Seq<u8>, winner: Seq<u8>, balances: SettlementBalances) -> int {
    if winner == game_key {
        game_after(game, balances)
    } else if winner == game.user_a {
        balances.user_a as int
    } else {
        balances.user_b as int
    }
}

/// The lamports of the winner's account once credited with both stakes less the fee.
pub open spec fn winner_after(game: MatchView, game_key: Seq<u8>, winner: Seq<u8>, balances: SettlementBalances) -> int {
    let total = 2 * game.target_amount;
    winner_before(game, game_key, winner, balances) + (total - settlement_fee(total))
}

/// The lamports of the treasury when it is credited: as the earlier writes left
/// them if it is the winner's account or the match account, else those read before.
pub open spec fn treasury_before(
    game: MatchView,
    game_key: Seq<u8>,
    winner: Seq<u8>,
    treasury: Seq<u8>,
    balances: SettlementBalances,
) -> int {
    if treasury == winner {
        winner_after(game, game_key, winner, balances)
    } else if treasury == game_key {
        game_after(game, balances)
    } else {
        balances.treasury as int
    }
}

/// Whether the settlement of `game` paying `winner`, one of its players, overflows
/// somewhere or finds the match account short of both stakes.
pub open spec fn settlement_overflows(
    game: MatchView,
    game_key: Seq<u8>,
    winner: Seq<u8>,
    treasury: Seq<u8>,
    balances: SettlementBalances,
) -> bool {
    let total = 2 * game.target_amount;
    let fee = settlement_fee(total);
    ||| total > u64::MAX
    ||| 5 * total > u64::MAX
    ||| balances.game < total
    ||| winner_after(game, game_key, winner, balances) > u64::MAX
    ||| treasury_before(game, game_key, winner, treasury, balances) + fee > u64::MAX
}

/// The release authority settles an active lamport match for `winner`, one of its
/// two players: both stakes, `2 * target_amount`, leave the match account (key
/// `game_key`); the treasury (key `treasury`) gets 5% of them, rounded down, and the
/// winner the rest. `balances` are the lamports of the accounts before the
/// settlement; the accounts are written in the order match account, winner,
/// treasury, each from the value the earlier writes left, so that accounts that
/// are one account add up. The match is over.
///
/// Refused with `EscrowNotActive` when the match is not active, then
/// `EscrowNotNativeSol` when it is not played for lamports, then `InvalidWinner` when
/// `winner` is neither player, then `NumericOverflow` when an amount or a balance
/// overflows or the match account holds less than both stakes.
pub fn end_match(
    game: &mut Match,
    game_key: Pubkey,
    winner: Pubkey,
    treasury: Pubkey,
    balances: SettlementBalances,
) -> (result: Result<SolPayout, MadscapeError>)
    ensures
        !old(game)@.active ==> result == Err::<SolPayout, MadscapeError>(
            MadscapeError::EscrowNotActive,
        ),
        old(game)@.active && !old(game)@.native_sol() ==> result == Err::<SolPayout, MadscapeError>(
            MadscapeError::EscrowNotNativeSol,
        ),
        old(game)@.active && old(game)@.native_sol() && winner@ != old(game)@.user_a && winner@
            != old(game)@.user_b ==> result == Err::<SolPayout, MadscapeError>(
            MadscapeError::InvalidWinner,
        ),
        old(game)@.active && old(game)@.native_sol() && (winner@ == old(game)@.user_a || winner@
            == old(game)@.user_b) && settlement_overflows(
            old(game)@,
            game_key@,
            winner@,
            treasury@,
            balances,
        ) ==> result == Err::<SolPayout, MadscapeError>(MadscapeError::NumericOverflow),
        old(game)@.active && old(game)@.native_sol() && (winner@ == old(game)@.user_a || winner@
            == old(game)@.user_b) && !settlement_overflows(
            old(game)@,
            game_key@,
            winner@,
            treasury@,
            balances,
        ) ==> result == Ok::<SolPayout, MadscapeError>(
            SolPayout {
                game_lamports: game_after(old(game)@, balances) as u64,
                winner_lamports: winner_after(old(game)@, game_key@, winner@, balances) as u64,
                treasury_lamports: (treasury_before(old(game)@, game_key@, winner@, treasury@, balances)
                    + settlement_fee(2 * old(game).target_amount)) as u64,
                winner_amount: (2 * old(game).target_amount - settlement_fee(
                    2 * old(game).target_amount,
                )) as u64,
                fee_amount: settlement_fee(2 * old(game).target_amount) as u64,
            },
        ),
        // The winner and the treasury share both stakes.
        result matches Ok(payout) ==> payout.winner_amount + payout.fee_amount == 2 * old(
            game,
        ).target_amount,
        // Both stakes leave the match account; the fee is 5% of them, rounded down, and
        // the winner gets the rest.
        result matches Ok(payout) ==> {
            &&& payout.fee_amount == (2 * old(game).target_amount * 5) / 100
            &&& payout.winner_amount == 2 * old(game).target_amount - payout.fee_amount
            &&& payout.game_lamports + 2 * old(game).target_amount == balances.game
        },
        // Three distinct accounts: the winner is credited its amount and the treasury the
        // fee, each on the balance read before.
        result matches Ok(payout) ==> (game_key@ != winner@ && game_key@ != treasury@ && winner@
            != treasury@ ==> {
            &&& payout.winner_lamports == (if winner@ == old(game)@.user_a {
                balances.user_a
            } else {
                balances.user_b
            }) + payout.winner_amount
            &&& payout.treasury_lamports == balances.treasury + payout.fee_amount
        }),
        // Three distinct accounts: a player's win is refused only for an overflow or a
        // match account short of both stakes.
        old(game)@.active && old(game)@.native_sol() && (winner@ == old(game)@.user_a || winner@
            == old(game)@.user_b) && game_key@ != winner@ && game_key@ != treasury@ && winner@
            != treasury@ && 10 * old(game).target_amount <= u64::MAX && balances.game >= 2 * old(
            game,
        ).target_amount && (if winner@ == old(game)@.user_a {
            balances.user_a
        } else {
            balances.user_b
        }) + (2 * old(game).target_amount - (2 * old(game).target_amount * 5) / 100) <= u64::MAX
            && balances.treasury + (2 * old(game).target_amount * 5) / 100 <= u64::MAX ==> result is Ok,
        // Three distinct accounts: no lamport is created or lost.
        result matches Ok(payout) ==> (game_key@ != winner@ && game_key@ != treasury@ && winner@
            != treasury@ ==> payout.game_lamports + payout.winner_lamports + payout.treasury_lamports
            == balances.game + winner_before(old(game)@, game_key@, winner@, balances)
            + balances.treasury),
        // The treasury is the winner's account: it ends with both stakes added.
        result matches Ok(payout) ==> (game_key@ != winner@ && treasury@ == winner@ ==> {
            &&& payout.game_lamports + 2 * old(game).target_amount == balances.game
            &&& payout.treasury_lamports == winner_before(old(game)@, game_key@, winner@, balances)
                + 2 * old(game).target_amount
        }),
        result is Ok ==> final(game)@ == old(game)@.retired(),
        result is Err ==> final(game)@ == old(game)@,
{
    if !game.active {
        return Err(MadscapeError::EscrowNotActive);
    }
    if !game.is_native_sol() {
        return Err(MadscapeError::EscrowNotNativeSol);
    }
    let winner_is_user_a = if winner == game.user_a {
        true
    } else if winner == game.user_b {
        false
    } else {
        return Err(MadscapeError::InvalidWinner);
    };
    let total_deduct_from_game = match get_match_total_lamports_checked(game) {
        Ok(total) => total,
        Err(e) => return Err(e),
    };
    let fee_amount = match total_deduct_from_game.checked_mul(5) {
        Some(product) => match product.checked_div(100) {
            Some(fee) => fee,
            None => return Err(MadscapeError::NumericOverflow),
        },
        None => return Err(MadscapeError::NumericOverflow),
    };
    let game_deduction_result = match balances.game.checked_sub(total_deduct_from_game) {
        Some(rest) => rest,
        None => return Err(MadscapeError::NumericOverflow),
    };
    let winner_amount = match total_deduct_from_game.checked_sub(fee_amount) {
        Some(rest) => rest,
        None => return Err(MadscapeError::NumericOverflow),
    };
    let winner_lamports = if winner == game_key {
        game_deduction_result
    } else if winner_is_user_a {
        balances.user_a
    } else {
        balances.user_b
    };
    let winner_addition_result = match winner_lamports.checked_add(winner_amount) {
        Some(sum) => sum,
        None => return Err(MadscapeError::NumericOverflow),
    };
    let treasury_lamports = if treasury == winner {
        winner_addition_result
    } else if treasury == game_key {
        game_deduction_result
    } else {
        balances.treasury
    };
    let treasury_amount = match treasury_lamports.checked_add(fee_amount) {
        Some(sum) => sum,
        None => return Err(MadscapeError::NumericOverflow),
    };
    game.retire();
    Ok(
        SolPayout {
            game_lamports: game_deduction_result,
            winner_lamports: winner_addition_result,
            treasury_lamports: treasury_amount,
            winner_amount,
            fee_amount,
        },
    )
}

} // verus!
