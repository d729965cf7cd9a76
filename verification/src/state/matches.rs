//! The match account: who plays, for what stake, and where the match stands.
use vstd::prelude::*;

use crate::constants::{MAX_MATCH_ID_LENGTH, SOLANA_PUBKEY};
use crate::pubkey::{zero_key, Pubkey};
use vstd::utf8::encode_utf8;

verus! {

/// Whether `match_type` names a kind of match that can be opened: 1 to 8.
pub fn is_valid_match_type_for_init(match_type: u8) -> (valid: bool)
    ensures
        valid == (1 <= match_type <= 8),
{
    1 <= match_type && match_type <= 8
}

/// The data of a match account.
pub struct Match {
    pub target_mint: Pubkey,
    pub user_a: Pubkey,
    pub user_b: Pubkey,
    pub target_amount: u64,
    pub init_timestamp: i64,
    pub join_timestamp: i64,
    pub active: bool,
    pub match_type: u8,
    pub match_id: String,
    pub mint: Pubkey,
    pub completed: bool,
    pub server: u8,
    pub bump: u8,
    pub release_authority: Pubkey,
    pub fee_amount: u64,
}

/// A match as a mathematical value: keys as their bytes, the id as its characters.
#[verifier::ext_equal]
pub struct MatchView {
    pub target_mint: Seq<u8>,
    pub user_a: Seq<u8>,
    pub user_b: Seq<u8>,
    pub target_amount: u64,
    pub init_timestamp: i64,
    pub join_timestamp: i64,
    pub active: bool,
    pub match_type: u8,
    pub match_id: Seq<char>,
    pub mint: Seq<u8>,
    pub completed: bool,
    pub server: u8,
    pub bump: u8,
    pub release_authority: Seq<u8>,
    pub fee_amount: u64,
}

impl View for Match {
    type V = MatchView;

    open spec fn view(&self) -> MatchView {
        MatchView {
            target_mint: self.target_mint@,
            user_a: self.user_a@,
            user_b: self.user_b@,
            target_amount: self.target_amount,
            init_timestamp: self.init_timestamp,
            join_timestamp: self.join_timestamp,
            active: self.active,
            match_type: self.match_type,
            match_id: self.match_id@,
            mint: self.mint@,
            completed: self.completed,
            server: self.server,
            bump: self.bump,
            release_authority: self.release_authority@,
            fee_amount: self.fee_amount,
        }
    }
}

/// The server a match is assigned to at time `now`: `now % 10` with the sign of
/// `now`, as Rust's `%` computes it, then cast to `u8`, which adds 256 to a
/// negative remainder.
pub open spec fn server_for_time(now: i64) -> u8 {
    let rem: int = if now >= 0 {
        (now as int) % 10
    } else {
        -((-(now as int)) % 10)
    };
    if rem >= 0 {
        rem as u8
    } else {
        (rem + 256) as u8
    }
}

/// A newly opened match, before its stake is set.
pub open spec fn fresh_match(
    bump: u8,
    release_authority: Seq<u8>,
    user_a: Seq<u8>,
    user_b: Seq<u8>,
    mint: Seq<u8>,
    created_at: i64,
) -> MatchView {
    MatchView {
        target_mint: zero_key(),
        user_a,
        user_b,
        target_amount: 0,
        init_timestamp: created_at,
        join_timestamp: 0,
        active: false,
        match_type: 0,
        match_id: Seq::empty(),
        mint,
        completed: false,
        server: 0,
        bump,
        release_authority,
        fee_amount: 0,
    }
}

impl MatchView {
    /// Whether the stake of the match has never been set.
    pub open spec fn not_initialized(self) -> bool {
        &&& self.fee_amount == 0
        &&& self.target_mint == zero_key()
        &&& self.target_amount == 0
        &&& !self.active
        &&& self.match_type == 0
        &&& self.match_id.len() == 0
    }

    /// Whether the match is played for lamports.
    pub open spec fn native_sol(self) -> bool {
        self.target_mint == SOLANA_PUBKEY@
    }

    /// The match once its stake, kind and id are set at time `now`.
    pub open spec fn with_stake(
        self,
        fee_amount: u64,
        target_mint: Seq<u8>,
        target_amount: u64,
        match_type: u8,
        match_id: Seq<char>,
        mint: Seq<u8>,
        now: i64,
    ) -> MatchView {
        MatchView {
            fee_amount,
            target_mint,
            target_amount,
            match_type,
            match_id,
            mint,
            server: server_for_time(now),
            ..self
        }
    }

    /// The match once its second player joined at `joined_at`.
    pub open spec fn activated(self, joined_at: i64) -> MatchView {
        MatchView { active: true, join_timestamp: joined_at, ..self }
    }

    /// The match once `user_b` joined it at `joined_at`.
    pub open spec fn activated_by(self, user_b: Seq<u8>, joined_at: i64) -> MatchView {
        MatchView { active: true, user_b, join_timestamp: joined_at, ..self }
    }

    /// The match once it is over.
    pub open spec fn retired(self) -> MatchView {
        MatchView { completed: true, ..self }
    }
}

/// The bytes a match takes in its account after the 8-byte discriminator, as it is
/// written with borsh: 32 per key, 8 per `u64` or `i64`, 1 per `bool` or `u8`, and
/// the id as a 4-byte length followed by its UTF-8 bytes.
pub open spec fn serialized_len(m: MatchView) -> int {
    32int // target_mint
    + 32 // user_a
    + 32 // user_b
    + 8 // target_amount
    + 8 // init_timestamp
    + 8 // join_timestamp
    + 1 // active
    + 1 // match_type
    + 4 + encode_utf8(m.match_id).len() // match_id
    + 32 // mint
    + 1 // completed
    + 1 // server
    + 1 // bump
    + 32 // release_authority
    + 8 // fee_amount
}

/// The size of a match account: the discriminator, then room for a match whose id
/// takes `MAX_MATCH_ID_LENGTH` bytes.
pub open spec fn account_space() -> int {
    8 + 1 + 32 + 32 + 32 + 32 + 8 + 8 + 8 + 1 + 1 + 4 + MAX_MATCH_ID_LENGTH + 32 + 1 + 1 + 8
}

/// The server slot of time `now`.
fn server_slot(now: i64) -> (server: u8)
    ensures
        server == server_for_time(now),
{
    if now >= 0 {
        let rem: i64 = now % 10;
        rem as u8
    } else {
        // The magnitude of `now`, which fits in a u64 even for `i64::MIN`.
        let magnitude: u64 = (-(now + 1)) as u64 + 1;
        let rem: u64 = magnitude % 10;
        if rem == 0 {
            0
        } else {
            (256 - rem) as u8
        }
    }
}

impl Match {
    /// A new open match of `user_a`, created at `created_at`; nobody has joined it.
    pub fn new(bump: u8, release_authority: Pubkey, user_a: Pubkey, mint: Pubkey, created_at: i64) -> (game: Match)
        ensures
            game@ == fresh_match(bump, release_authority@, user_a@, zero_key(), mint@, created_at),
    {
        Match {
            bump,
            release_authority,
            target_mint: Pubkey::default(),
            user_a,
            user_b: Pubkey::default(),
            target_amount: 0,
            init_timestamp: created_at,
            join_timestamp: 0,
            active: false,
            match_type: 0,
            match_id: String::new(),
            mint,
            completed: false,
            fee_amount: 0,
            server: 0,
        }
    }

    /// A new private match of `user_a` against `user_b`, created at `created_at`.
    pub fn new_private(
        bump: u8,
        release_authority: Pubkey,
        user_a: Pubkey,
        user_b: Pubkey,
        mint: Pubkey,
        created_at: i64,
    ) -> (game: Match)
        ensures
            game@ == fresh_match(bump, release_authority@, user_a@, user_b@, mint@, created_at),
    {
        Match {
            bump,
            release_authority,
            target_mint: Pubkey::default(),
            user_a,
            user_b,
            target_amount: 0,
            init_timestamp: created_at,
            join_timestamp: 0,
            active: false,
            match_type: 0,
            match_id: String::new(),
            mint,
            completed: false,
            fee_amount: 0,
            server: 0,
        }
    }

    /// Whether the stake of the match has never been set.
    pub fn is_not_initialized(&self) -> (b: bool)
        ensures
            b == self@.not_initialized(),
    {
        self.fee_amount == 0 && self.target_mint.is_default() && self.target_amount == 0
            && !self.active && self.match_type == 0 && self.match_id.as_str().is_empty()
    }

    /// Whether the stake of the match has been set.
    pub fn is_initialized(&self) -> (b: bool)
        ensures
            b == !self@.not_initialized(),
    {
        !self.is_not_initialized()
    }

    /// Sets the stake, kind and id of the match; `now` is the time of the cluster's
    /// clock, which picks the server of the match.
    pub fn init(
        &mut self,
        fee_amount: u64,
        target_mint: Pubkey,
        target_amount: u64,
        match_type: u8,
        match_id: String,
        mint: Pubkey,
        now: i64,
    )
        ensures
            final(self)@ == old(self)@.with_stake(
                fee_amount,
                target_mint@,
                target_amount,
                match_type,
                match_id@,
                mint@,
                now,
            ),
    {
        self.fee_amount = fee_amount;
        self.target_mint = target_mint;
        self.target_amount = target_amount;
        self.match_type = match_type;
        self.match_id = match_id;
        self.mint = mint;
        self.server = server_slot(now);
    }

    /// Whether the match is played for lamports.
    pub fn is_native_sol(&self) -> (b: bool)
        ensures
            b == self@.native_sol(),
    {
        self.target_mint == Pubkey::new_from_array(SOLANA_PUBKEY)
    }

    /// Marks the match as joined at `joined_at`.
    pub fn activate(&mut self, joined_at: i64)
        ensures
            final(self)@ == old(self)@.activated(joined_at),
    {
        self.active = true;
        self.join_timestamp = joined_at;
    }

    /// Marks the match as joined by `user_b` at `joined_at`.
    pub fn activate_public(&mut self, user_b: Pubkey, joined_at: i64)
        ensures
            final(self)@ == old(self)@.activated_by(user_b@, joined_at),
    {
        self.active = true;
        self.user_b = user_b;
        self.join_timestamp = joined_at;
    }

    /// Marks the match as over.
    pub fn retire(&mut self)
        ensures
            final(self)@ == old(self)@.retired(),
    {
        self.completed = true;
    }

    /// The size of a match account: discriminator, fields, and the id with its
    /// length prefix.
    pub fn space() -> (size: usize)
        ensures
            size == account_space(),
            size == 273,
    {
        8 + // discriminator
        1 + // bump
        32 + // release_authority
        32 + // target_mint
        32 + // user_a
        32 + // user_b
        8 + // target_amount
        8 + // init_timestamp
        8 + // join_timestamp
        1 + // active
        1 + // match_type
        4 + MAX_MATCH_ID_LENGTH + // match_id
        32 + // mint
        1 + // completed
        1 + // server
        8 // fee_amount
    }
}

} // verus!
