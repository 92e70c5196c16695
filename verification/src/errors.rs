//! The named failures of the ledger's operations.

use vstd::prelude::*;

verus! {

/// Why an operation was rejected.  A rejected operation changes nothing.
#[derive(Clone, Copy, Debug, PartialEq, Eq, Structural, Hash)]
pub enum LotteryError {
    ProgramPaused,
    EmergencyStop,
    InvalidScheduledTime,
    InvalidLotteryStatus,
    NoParticipants,
    InsufficientJackpot,
    InvalidWinner,
    WinnerNotEligible,
    WinnerHasNoTickets,
    TooEarly,
    InvalidAmount,
    SignatureTooLong,
    JackpotTooLarge,
    InvalidTokenMint,
    InvalidTokenOwner,
    InsufficientTokenBalance,
    TooManyTickets,
    InvalidVRFSeed,
    InsufficientProgramBalance,
    InvalidConfig,
    InsufficientTreasuryBalance,
    Unauthorized,
    AccountNotFound,
    InvalidAccountData,
    ArithmeticOverflow,
    InvalidInstructionData,
    NotRentExempt,
    InvalidProgramState,
}

impl LotteryError {
    /// The sentence shown to a caller for each failure.
    pub open spec fn message_text(self) -> Seq<char> {
        match self {
            LotteryError::ProgramPaused => "The program is currently paused."@,
            LotteryError::EmergencyStop => "Emergency stop is active."@,
            LotteryError::InvalidScheduledTime => "Invalid scheduled time."@,
            LotteryError::InvalidLotteryStatus => "Invalid lottery status."@,
            LotteryError::NoParticipants => "No participants."@,
            LotteryError::InsufficientJackpot => "Insufficient jackpot."@,
            LotteryError::InvalidWinner => "Invalid winner."@,
            LotteryError::WinnerNotEligible => "Winner is not eligible."@,
            LotteryError::WinnerHasNoTickets => "Winner has no tickets."@,
            LotteryError::TooEarly => "Too early to execute the lottery."@,
            LotteryError::InvalidAmount => "Invalid amount."@,
            LotteryError::SignatureTooLong => "Signature too long."@,
            LotteryError::JackpotTooLarge => "Jackpot amount too large."@,
            LotteryError::InvalidTokenMint => "Invalid token mint."@,
            LotteryError::InvalidTokenOwner => "Invalid token owner."@,
            LotteryError::InsufficientTokenBalance => "Insufficient token balance."@,
            LotteryError::TooManyTickets => "Too many tickets for this wallet."@,
            LotteryError::InvalidVRFSeed => "Invalid VRF seed."@,
            LotteryError::InsufficientProgramBalance => "Insufficient program balance."@,
            LotteryError::InvalidConfig => "Invalid configuration parameter."@,
            LotteryError::InsufficientTreasuryBalance => "Insufficient treasury balance."@,
            LotteryError::Unauthorized => "Unauthorized access."@,
            LotteryError::AccountNotFound => "Account not found."@,
            LotteryError::InvalidAccountData => "Invalid account data."@,
            LotteryError::ArithmeticOverflow => "Arithmetic overflow."@,
            LotteryError::InvalidInstructionData => "Invalid instruction data."@,
            LotteryError::NotRentExempt => "Program account not rent exempt."@,
            LotteryError::InvalidProgramState => "Invalid program state."@,
        }
    }

    /// The sentence shown to a caller for this failure.
    pub fn message(&self) -> (text: &'static str)
        ensures
            text@ == self.message_text(),
    {
        match self {
            LotteryError::ProgramPaused => "The program is currently paused.",
            LotteryError::EmergencyStop => "Emergency stop is active.",
            LotteryError::InvalidScheduledTime => "Invalid scheduled time.",
            LotteryError::InvalidLotteryStatus => "Invalid lottery status.",
            LotteryError::NoParticipants => "No participants.",
            LotteryError::InsufficientJackpot => "Insufficient jackpot.",
            LotteryError::InvalidWinner => "Invalid winner.",
            LotteryError::WinnerNotEligible => "Winner is not eligible.",
            LotteryError::WinnerHasNoTickets => "Winner has no tickets.",
            LotteryError::TooEarly => "Too early to execute the lottery.",
            LotteryError::InvalidAmount => "Invalid amount.",
            LotteryError::SignatureTooLong => "Signature too long.",
            LotteryError::JackpotTooLarge => "Jackpot amount too large.",
            LotteryError::InvalidTokenMint => "Invalid token mint.",
            LotteryError::InvalidTokenOwner => "Invalid token owner.",
            LotteryError::InsufficientTokenBalance => "Insufficient token balance.",
            LotteryError::TooManyTickets => "Too many tickets for this wallet.",
            LotteryError::InvalidVRFSeed => "Invalid VRF seed.",
            LotteryError::InsufficientProgramBalance => "Insufficient program balance.",
            LotteryError::InvalidConfig => "Invalid configuration parameter.",
            LotteryError::InsufficientTreasuryBalance => "Insufficient treasury balance.",
            LotteryError::Unauthorized => "Unauthorized access.",
            LotteryError::AccountNotFound => "Account not found.",
            LotteryError::InvalidAccountData => "Invalid account data.",
            LotteryError::ArithmeticOverflow => "Arithmetic overflow.",
            LotteryError::InvalidInstructionData => "Invalid instruction data.",
            LotteryError::NotRentExempt => "Program account not rent exempt.",
            LotteryError::InvalidProgramState => "Invalid program state.",
        }
    }
}

} // verus!
