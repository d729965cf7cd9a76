//! Properties that span several instructions.
use vstd::prelude::*;

use crate::instructions::sol::{
    game_after, joining_deposit, opening_deposit, settlement_fee, settlement_overflows,
    treasury_before, winner_after, SettlementBalances,
};
use crate::maths::fee_by_basis_points;
use crate::pubkey::{zero_key, Pubkey};
use crate::constants::MAX_MATCH_ID_LENGTH;
use crate::state::matches::{account_space, fresh_match, serialized_len, server_for_time};
use crate::state::MatchView;
use vstd::utf8::{encode_utf8, is_ascii_chars};
use crate::state::release_authority::{has_mint, lemma_without_absent_mint, without_mint};
use crate::state::ReleaseAuthorityItem;

verus! {

/// Revoking a mint right after approving it gives back the approved mints as they
/// were: `approve_fee_mint` appends the entry, `revoke_fee_mint` removes it and no
/// other.
pub proof fn approve_then_revoke_restores(items: Seq<ReleaseAuthorityItem>, mint: Pubkey, fee: u64)
    requires
        !has_mint(items, mint@),
    ensures
        without_mint(items.push(ReleaseAuthorityItem { mint, fee }), mint@) == items,
{
    reveal(Seq::filter);
    let pushed = items.push(ReleaseAuthorityItem { mint, fee });
    assert(pushed.drop_last() =~= items);
    lemma_without_absent_mint(items, mint@);
}

/// What the two players of a lamport match pay in is what settling it pays out: the
/// first player's fee and stake (`create_open_match`) and the second player's
/// (`join_match`) add up to both stakes, `2 * target_amount`, which `end_match`
/// splits between the winner and the treasury.
pub proof fn deposits_fund_payout(
    bump: u8,
    release_authority: Seq<u8>,
    user_a: Seq<u8>,
    mint: Seq<u8>,
    amount: u64,
    basis_points: u16,
    match_type: u8,
    match_id: Seq<char>,
    now: i64,
)
    requires
        amount * basis_points <= u64::MAX,
        fee_by_basis_points(amount, basis_points) <= amount,
    ensures
        ({
            let opened = fresh_match(bump, release_authority, user_a, zero_key(), mint, now).with_stake(
                fee_by_basis_points(amount, basis_points) as u64,
                crate::constants::SOLANA_PUBKEY@,
                amount,
                match_type,
                match_id,
                mint,
                now,
            );
            let first = opening_deposit(amount, basis_points);
            let second = joining_deposit(opened);
            let total = 2 * opened.target_amount;
            &&& first.fee + first.stake + second.fee + second.stake == total
            &&& (total - settlement_fee(total)) + settlement_fee(total) == total
            &&& 0 <= settlement_fee(total) <= total
        }),
{
}

/// A match opens waiting for its second player, becomes active when that player
/// joins, and is over once settled or cancelled: a fresh match is not initialized;
/// setting its stake with a valid kind makes it initialized, still inactive and not
/// over; joining makes it active; retiring it marks it over. Joining and retiring
/// keep it initialized.
pub proof fn match_lifecycle(
    bump: u8,
    release_authority: Seq<u8>,
    user_a: Seq<u8>,
    user_b: Seq<u8>,
    mint: Seq<u8>,
    created_at: i64,
    fee: u64,
    target_mint: Seq<u8>,
    amount: u64,
    match_type: u8,
    match_id: Seq<char>,
    joined_at: i64,
)
    requires
        1 <= match_type <= 8,
    ensures
        ({
            let fresh = fresh_match(bump, release_authority, user_a, zero_key(), mint, created_at);
            let opened = fresh.with_stake(fee, target_mint, amount, match_type, match_id, mint, created_at);
            let joined = opened.activated_by(user_b, joined_at);
            let over = joined.retired();
            &&& fresh.not_initialized()
            &&& !opened.not_initialized() && !opened.active && !opened.completed
            &&& opened.user_b == zero_key()
            &&& !joined.not_initialized() && joined.active && !joined.completed
            &&& joined.user_b == user_b
            &&& !over.not_initialized() && over.completed
        }),
{
}

/// A match whose id takes at most `MAX_MATCH_ID_LENGTH` bytes of UTF-8 fits in an
/// account of `Match::space()` bytes after its discriminator, and fills it exactly
/// when the id takes that many bytes.
pub proof fn match_fits_account(m: MatchView)
    requires
        encode_utf8(m.match_id).len() <= MAX_MATCH_ID_LENGTH,
    ensures
        8 + serialized_len(m) <= account_space(),
        8 + serialized_len(m) == account_space() <==> encode_utf8(m.match_id).len()
            == MAX_MATCH_ID_LENGTH,
{
}

/// A match whose id is `MAX_MATCH_ID_LENGTH` ASCII characters, as every id that
/// `generate_escrow_id` makes is, fills its account exactly.
pub proof fn ascii_id_fills_account(m: MatchView)
    requires
        m.match_id.len() == MAX_MATCH_ID_LENGTH,
        is_ascii_chars(m.match_id),
    ensures
        8 + serialized_len(m) == account_space(),
{
    vstd::utf8::is_ascii_chars_encode_utf8(m.match_id);
}

/// The fee on `amount` at `basis_points` is the amount at that rate, rounded down:
/// 10000 times the fee is at most `amount * basis_points` and less than 10000 more.
pub proof fn fee_is_the_rate_rounded_down(amount: u64, basis_points: u16)
    ensures
        fee_by_basis_points(amount, basis_points) * 10000 <= amount * basis_points,
        amount * basis_points < fee_by_basis_points(amount, basis_points) * 10000 + 10000,
        basis_points <= 10000 ==> fee_by_basis_points(amount, basis_points) <= amount,
{
    let product = amount * basis_points;
    let fee = fee_by_basis_points(amount, basis_points);
    assert(fee * 10000 <= product < fee * 10000 + 10000) by (nonlinear_arith)
        requires
            fee == product / 10000,
            product >= 0,
    ;
    if basis_points <= 10000 {
        assert(product <= amount * 10000) by (nonlinear_arith)
            requires
                product == amount * basis_points,
                basis_points <= 10000,
                amount >= 0,
        ;
    }
}

/// Opening a lamport match for `amount`: the first player pays the fee, `amount` at
/// the release authority's rate rounded down, then a stake that makes up the rest of
/// `amount`.
pub proof fn opening_deposit_splits_the_amount(amount: u64, basis_points: u16)
    requires
        amount * basis_points <= u64::MAX,
        (amount * basis_points) / 10000 <= amount,
    ensures
        opening_deposit(amount, basis_points).fee * 10000 <= amount * basis_points,
        amount * basis_points < opening_deposit(amount, basis_points).fee * 10000 + 10000,
        opening_deposit(amount, basis_points).fee + opening_deposit(amount, basis_points).stake
            == amount,
{
    fee_is_the_rate_rounded_down(amount, basis_points);
}

/// Joining a lamport match: the second player pays the match's fee, then a stake that
/// makes up the rest of its target amount.
pub proof fn joining_deposit_splits_the_target(game: MatchView)
    requires
        game.fee_amount <= game.target_amount,
    ensures
        joining_deposit(game).fee == game.fee_amount,
        joining_deposit(game).fee + joining_deposit(game).stake == game.target_amount,
{
}

/// The fee of a settlement is 5% of the lamports settled, rounded down: 100 times the
/// fee is at most 5 times the total and less than 100 more; it never exceeds the total.
pub proof fn settlement_fee_is_five_percent(total: int)
    requires
        total >= 0,
    ensures
        settlement_fee(total) * 100 <= total * 5,
        total * 5 < settlement_fee(total) * 100 + 100,
        0 <= settlement_fee(total) <= total,
{
    let fee = settlement_fee(total);
    assert(fee * 100 <= total * 5 < fee * 100 + 100) by (nonlinear_arith)
        requires
            fee == (total * 5) / 100,
            total >= 0,
    ;
}

/// Settling a lamport match whose account, winner and treasury are three accounts:
/// both stakes leave the match account, the winner (one of the players) is credited
/// both stakes less 5% rounded down, the treasury that 5%. It is refused for overflow
/// exactly when both stakes or five times them overflow a `u64`, the match account
/// holds less than both stakes, or a credited balance overflows.
pub proof fn settlement_of_three_accounts(
    game: MatchView,
    game_key: Seq<u8>,
    winner: Seq<u8>,
    treasury: Seq<u8>,
    balances: SettlementBalances,
)
    requires
        winner == game.user_a || winner == game.user_b,
        game_key != winner,
        game_key != treasury,
        winner != treasury,
    ensures
        ({
            let total = 2 * game.target_amount;
            let fee = (total * 5) / 100;
            let winner_balance = if winner == game.user_a {
                balances.user_a
            } else {
                balances.user_b
            };
            &&& settlement_overflows(game, game_key, winner, treasury, balances) <==> (total
                > u64::MAX || total * 5 > u64::MAX || balances.game < total || winner_balance + (
            total - fee) > u64::MAX || balances.treasury + fee > u64::MAX)
            &&& game_after(game, balances) == balances.game - total
            &&& winner_after(game, game_key, winner, balances) == winner_balance + (total - fee)
            &&& treasury_before(game, game_key, winner, treasury, balances) + settlement_fee(total)
                == balances.treasury + fee
        }),
{
}

/// Settling a lamport match whose treasury is the winner's account: that account ends
/// with both stakes added, the fee included.
pub proof fn settlement_to_a_winning_treasury(
    game: MatchView,
    game_key: Seq<u8>,
    winner: Seq<u8>,
    balances: SettlementBalances,
)
    requires
        winner == game.user_a || winner == game.user_b,
        game_key != winner,
    ensures
        treasury_before(game, game_key, winner, winner, balances) + settlement_fee(
            2 * game.target_amount,
        ) == (if winner == game.user_a {
            balances.user_a
        } else {
            balances.user_b
        }) + 2 * game.target_amount,
{
}

/// The server of a match opened at time `now` is the remainder of `now` by 10, with
/// the sign of `now`, as a `u8`: the last decimal digit of a time not before the
/// epoch, and 256 less that digit for an earlier time that is not a multiple of 10.
pub proof fn server_is_the_last_digit(now: i64)
    ensures
        now >= 0 ==> server_for_time(now) < 10 && (now - server_for_time(now)) % 10 == 0,
        now < 0 ==> (server_for_time(now) == 0 && now % 10 == 0) || (247 <= server_for_time(now)
            <= 255 && (now - (server_for_time(now) - 256)) % 10 == 0),
{
    if now < 0 {
        let m: int = -(now as int);
        let r: int = m % 10;
        assert(0 <= r < 10);
        assert((m - r) % 10 == 0);
        assert((now + r) % 10 == 0);
    }
}

/// Ending a match changes nothing but `completed`, which becomes true.
pub proof fn retiring_changes_only_completed(m: MatchView)
    ensures
        m.retired().completed,
        m.retired().target_mint == m.target_mint,
        m.retired().user_a == m.user_a,
        m.retired().user_b == m.user_b,
        m.retired().target_amount == m.target_amount,
        m.retired().init_timestamp == m.init_timestamp,
        m.retired().join_timestamp == m.join_timestamp,
        m.retired().active == m.active,
        m.retired().match_type == m.match_type,
        m.retired().match_id == m.match_id,
        m.retired().mint == m.mint,
        m.retired().server == m.server,
        m.retired().bump == m.bump,
        m.retired().release_authority == m.release_authority,
        m.retired().fee_amount == m.fee_amount,
{
}

/// Joining a match makes it active at the join time and changes nothing else; a
/// public join also records the second player.
pub proof fn joining_changes_only_activity(m: MatchView, user_b: Seq<u8>, joined_at: i64)
    ensures
        m.activated(joined_at).active,
        m.activated(joined_at).join_timestamp == joined_at,
        m.activated(joined_at).target_mint == m.target_mint,
        m.activated(joined_at).user_a == m.user_a,
        m.activated(joined_at).user_b == m.user_b,
        m.activated(joined_at).target_amount == m.target_amount,
        m.activated(joined_at).init_timestamp == m.init_timestamp,
        m.activated(joined_at).match_type == m.match_type,
        m.activated(joined_at).match_id == m.match_id,
        m.activated(joined_at).mint == m.mint,
        m.activated(joined_at).completed == m.completed,
        m.activated(joined_at).server == m.server,
        m.activated(joined_at).bump == m.bump,
        m.activated(joined_at).release_authority == m.release_authority,
        m.activated(joined_at).fee_amount == m.fee_amount,
        m.activated_by(user_b, joined_at).active,
        m.activated_by(user_b, joined_at).join_timestamp == joined_at,
        m.activated_by(user_b, joined_at).user_b == user_b,
        m.activated_by(user_b, joined_at).target_mint == m.target_mint,
        m.activated_by(user_b, joined_at).user_a == m.user_a,
        m.activated_by(user_b, joined_at).target_amount == m.target_amount,
        m.activated_by(user_b, joined_at).init_timestamp == m.init_timestamp,
        m.activated_by(user_b, joined_at).match_type == m.match_type,
        m.activated_by(user_b, joined_at).match_id == m.match_id,
        m.activated_by(user_b, joined_at).mint == m.mint,
        m.activated_by(user_b, joined_at).completed == m.completed,
        m.activated_by(user_b, joined_at).server == m.server,
        m.activated_by(user_b, joined_at).bump == m.bump,
        m.activated_by(user_b, joined_at).release_authority == m.release_authority,
        m.activated_by(user_b, joined_at).fee_amount == m.fee_amount,
{
}

/// Setting the stake of a match records the fee, the mint and amount of the stake,
/// the kind, the id and the mint account, and the server of time `now`; the players,
/// the times, the flags, the bump and the release authority stay.
pub proof fn staking_changes_only_the_stake(
    m: MatchView,
    fee_amount: u64,
    target_mint: Seq<u8>,
    target_amount: u64,
    match_type: u8,
    match_id: Seq<char>,
    mint: Seq<u8>,
    now: i64,
)
    ensures
        ({
            let w = m.with_stake(fee_amount, target_mint, target_amount, match_type, match_id, mint, now);
            &&& w.fee_amount == fee_amount
            &&& w.target_mint == target_mint
            &&& w.target_amount == target_amount
            &&& w.match_type == match_type
            &&& w.match_id == match_id
            &&& w.mint == mint
            &&& w.server == server_for_time(now)
            &&& w.user_a == m.user_a
            &&& w.user_b == m.user_b
            &&& w.init_timestamp == m.init_timestamp
            &&& w.join_timestamp == m.join_timestamp
            &&& w.active == m.active
            &&& w.completed == m.completed
            &&& w.bump == m.bump
            &&& w.release_authority == m.release_authority
        }),
{
}

/// A new match records its creator, second player, mint account, bump, release
/// authority and creation time, and has no stake, no id, no kind and no server; it is
/// neither active nor over and was never joined.
pub proof fn a_fresh_match_is_empty(
    bump: u8,
    release_authority: Seq<u8>,
    user_a: Seq<u8>,
    user_b: Seq<u8>,
    mint: Seq<u8>,
    created_at: i64,
)
    ensures
        ({
            let f = fresh_match(bump, release_authority, user_a, user_b, mint, created_at);
            &&& f.bump == bump && f.release_authority == release_authority
            &&& f.user_a == user_a && f.user_b == user_b && f.mint == mint
            &&& f.init_timestamp == created_at && f.join_timestamp == 0
            &&& f.target_mint == zero_key() && f.target_amount == 0 && f.fee_amount == 0
            &&& f.match_type == 0 && f.match_id.len() == 0 && f.server == 0
            &&& !f.active && !f.completed
        }),
{
}

} // verus!
