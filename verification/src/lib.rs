//! An escrow for two-player matches: player A opens a match and stakes lamports or
//! tokens, player B joins with the same stake, and the release authority settles the
//! match, paying the winner and sending a fee to its treasury.
//!
//! The account data of the program, the rules of every instruction and the arithmetic
//! of stakes, fees and payouts are verified here. Each instruction is a function from
//! the accounts it reads to the accounts it writes and the transfers it asks for.
pub mod constants;
pub mod errors;
pub mod instructions;
pub mod laws;
pub mod maths;
pub mod pubkey;
pub mod state;
pub mod strings;

pub use errors::MadscapeError;
pub use pubkey::Pubkey;
