//! The instructions of the program. Each one takes the data of the accounts it reads
//! and the values of its arguments, refuses with a `MadscapeError` or returns the new
//! data of the accounts and the amounts to transfer. A refused instruction changes
//! nothing: the runtime drops every effect of a failed transaction.
pub mod admin;
pub mod mint;
pub mod sol;

pub use admin::{approve_fee_mint, create_release_authority, revoke_fee_mint, update_release_authority};
pub use mint::{
    cancel_open_match_mint, create_open_match_mint, end_match_mint, join_match_mint, TokenPayout,
};
pub use sol::{
    cancel_open_match, cancel_private_match, create_open_match, end_match, join_match, joining_fee,
    opening_fee, Deposit,
    OpenedMatch, Refund, SettlementBalances, SolPayout,
};
