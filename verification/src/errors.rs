//! The errors of the program.
use vstd::prelude::*;

verus! {

/// Why an instruction was refused.
#[derive(Clone, Copy, Debug, PartialEq, Eq, Structural)]
pub enum MadscapeError {
    InvalidFeeMint,
    FeeMintAlreadyApproved,
    FeeMintNotApproved,
    InvalidTokenAccountAmount,
    EscrowInitialized,
    EscrowNotInitialized,
    EscrowNotActivated,
    EscrowIsActive,
    InvalidUserBMint,
    InvalidWinner,
    InsufficientFunds,
    EscrowNotNativeSol,
    EscrowIsNativeSol,
    EscrowNotActive,
    EscrowActive,
    NumericOverflow,
    InvalidMatchType,
    UserAAndUserBAreTheSame,
    Unimplemented,
    FeeCalculationFailure,
    InvalidLoserMint,
    InvalidUserB,
}

/// The message reported with each error.
pub open spec fn error_message(error: MadscapeError) -> Seq<char> {
    match error {
        MadscapeError::InvalidFeeMint => "Invalid mint"@,
        MadscapeError::FeeMintAlreadyApproved => "Mint already approved"@,
        MadscapeError::FeeMintNotApproved => "Mint not approved"@,
        MadscapeError::InvalidTokenAccountAmount => "Invalid token account ammount"@,
        MadscapeError::EscrowInitialized => "Escrow is initialized"@,
        MadscapeError::EscrowNotInitialized => "Escrow is not initialized"@,
        MadscapeError::EscrowNotActivated => "Escrow is not activated"@,
        MadscapeError::EscrowIsActive => "Escrow is active"@,
        MadscapeError::InvalidUserBMint => "Invalid user b mint"@,
        MadscapeError::InvalidWinner => "Invalid Winner"@,
        MadscapeError::InsufficientFunds => "Insufficient Funds"@,
        MadscapeError::EscrowNotNativeSol => "Escrow is not native sol"@,
        MadscapeError::EscrowIsNativeSol => "Escrow is native sol"@,
        MadscapeError::EscrowNotActive => "Escrow is not active"@,
        MadscapeError::EscrowActive => "Escrow is active"@,
        MadscapeError::NumericOverflow => "Numeric overflow"@,
        MadscapeError::InvalidMatchType => "Invalid match type"@,
        MadscapeError::UserAAndUserBAreTheSame => "User a and user b are the same"@,
        MadscapeError::Unimplemented => "Unimplemented"@,
        MadscapeError::FeeCalculationFailure => "Fee Calculation Failure"@,
        MadscapeError::InvalidLoserMint => "Invalid Loser Mint"@,
        MadscapeError::InvalidUserB => "Invalid User B"@,
    }
}

impl MadscapeError {
    /// The message reported with the error.
    pub fn message(&self) -> (text: &'static str)
        ensures
            text@ == error_message(*self),
    {
        match self {
            MadscapeError::InvalidFeeMint => "Invalid mint",
            MadscapeError::FeeMintAlreadyApproved => "Mint already approved",
            MadscapeError::FeeMintNotApproved => "Mint not approved",
            MadscapeError::InvalidTokenAccountAmount => "Invalid token account ammount",
            MadscapeError::EscrowInitialized => "Escrow is initialized",
            MadscapeError::EscrowNotInitialized => "Escrow is not initialized",
            MadscapeError::EscrowNotActivated => "Escrow is not activated",
            MadscapeError::EscrowIsActive => "Escrow is active",
            MadscapeError::InvalidUserBMint => "Invalid user b mint",
            MadscapeError::InvalidWinner => "Invalid Winner",
            MadscapeError::InsufficientFunds => "Insufficient Funds",
            MadscapeError::EscrowNotNativeSol => "Escrow is not native sol",
            MadscapeError::EscrowIsNativeSol => "Escrow is native sol",
            MadscapeError::EscrowNotActive => "Escrow is not active",
            MadscapeError::EscrowActive => "Escrow is active",
            MadscapeError::NumericOverflow => "Numeric overflow",
            MadscapeError::InvalidMatchType => "Invalid match type",
            MadscapeError::UserAAndUserBAreTheSame => "User a and user b are the same",
            MadscapeError::Unimplemented => "Unimplemented",
            MadscapeError::FeeCalculationFailure => "Fee Calculation Failure",
            MadscapeError::InvalidLoserMint => "Invalid Loser Mint",
            MadscapeError::InvalidUserB => "Invalid User B",
        }
    }
}

} // verus!
