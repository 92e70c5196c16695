//! Ledger state machine of a recurring lottery.
//!
//! A single root record accumulates deposits into an hourly and a daily
//! jackpot, participants earn tickets from a reported token balance, and
//! draws move from `Pending` through `Processing` to `Completed`.
//!
//! Every operation takes the records it works on as one context, together
//! with the host's clock as the caller read it, and hands back the
//! notification that describes what it did.  Each validates first and
//! mutates only when every check has passed: the contracts state, for every
//! operation, the exact condition of each failure and that a failed call
//! leaves its records untouched.
//!
//! Moving funds is not done here.  `payout_transfer` and
//! `withdrawal_transfer` decide whether funds may move and name the
//! transfer; the caller has it performed, and only after it has succeeded
//! calls `pay_winner` or `withdraw_treasury` to record it.

pub mod identity;
pub mod limits;
pub mod errors;
pub mod records;
pub mod events;
pub mod contexts;
pub mod root;
pub mod config;
pub mod contribution;
pub mod participant;
pub mod draw;
pub mod treasury;
pub mod laws;

pub use crate::config::update_config;
pub use crate::contexts::{
    AdminAction, ContributeToJackpot, CreateLottery, ExecuteLottery, GetLotteryState, Initialize,
    PayWinner, UpdateParticipant, WithdrawTreasury,
};
pub use crate::contribution::contribute_to_jackpot;
pub use crate::draw::{create_lottery, execute_lottery, pay_winner, payout_transfer};
pub use crate::errors::LotteryError;
pub use crate::events::{
    ConfigUpdated, EmergencyPause, EmergencyResume, JackpotContribution, LotteryCreated,
    LotteryExecuted, ParticipantUpdated, ProgramInitialized, TreasuryWithdrawal, WinnerPaid,
};
pub use crate::identity::Identity;
pub use crate::participant::update_participant;
pub use crate::records::{
    Clock, ContributionSource, FundTransfer, Lottery, LotteryState, LotteryStatus, LotteryType,
    Participant, TokenAccountSnapshot,
};
pub use crate::root::{
    get_lottery_state, get_lottery_type_seed, initialize, validate_vrf_seed, LotteryStateReport,
};
pub use crate::treasury::{
    emergency_pause, emergency_resume, withdraw_treasury, withdrawal_transfer,
};
