//! Seeds, well-known keys and sizes.
use vstd::prelude::*;

verus! {

/// The bytes of the address of this program,
/// `moonKi1FYsaWQnmqjvnLTXZbDkwpEzzCEXtnfo2bJHC`.
pub const ID: [u8; 32] = [
    11, 122, 122, 222, 232, 101, 98, 166, 203, 160, 147, 129, 231, 129, 98, 208,
    52, 196, 0, 204, 190, 127, 121, 232, 101, 247, 232, 146, 122, 190, 109, 47,
];

/// Seed of match accounts and of escrow ids: `b"match"`.
pub const MATCH: [u8; 5] = [109, 97, 116, 99, 104];

/// `b"match_token_account"`.
pub const MATCH_TOKEN_ACCOUNT: [u8; 19] = [
    109, 97, 116, 99, 104, 95, 116, 111, 107, 101, 110, 95, 97, 99, 99, 111, 117, 110, 116,
];

/// The bytes of the mint of wrapped SOL,
/// `So11111111111111111111111111111111111111112`; a match whose target mint is this
/// key is played for lamports.
pub const SOLANA_PUBKEY: [u8; 32] = [
    6, 155, 136, 87, 254, 171, 129, 132, 251, 104, 127, 99, 70, 24, 192, 53,
    218, 196, 57, 220, 26, 235, 59, 85, 152, 160, 240, 0, 0, 0, 0, 1,
];

/// Length of a match id, padding included.
pub const MAX_MATCH_ID_LENGTH: usize = 64;

/// `b"user_a"`.
pub const USER_A: [u8; 6] = [117, 115, 101, 114, 95, 97];

/// `b"user_b"`.
pub const USER_B: [u8; 6] = [117, 115, 101, 114, 95, 98];

/// `b"user_a_token_account"`.
pub const USER_A_TOKEN_ACCOUNT: [u8; 20] = [
    117, 115, 101, 114, 95, 97, 95, 116, 111, 107, 101, 110, 95, 97, 99, 99, 111, 117, 110, 116,
];

/// `b"user_b_token_account"`.
pub const USER_B_TOKEN_ACCOUNT: [u8; 20] = [
    117, 115, 101, 114, 95, 98, 95, 116, 111, 107, 101, 110, 95, 97, 99, 99, 111, 117, 110, 116,
];

} // verus!
