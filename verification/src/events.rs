//! Notifications handed back by the operations for outside observers.

use vstd::prelude::*;
use crate::identity::Identity;
use crate::records::{ContributionSource, LotteryType};

verus! {

/// The ledger was initialized.
#[derive(Clone, Copy, Debug, PartialEq, Eq)]
pub struct ProgramInitialized {
    pub admin: Identity,
    pub ball_token_mint: Identity,
    pub timestamp: i64,
}

/// A contribution was credited, with its breakdown.
#[derive(Clone, Debug, PartialEq, Eq)]
pub struct JackpotContribution {
    pub contributor: Identity,
    pub sol_amount: u64,
    pub hourly_contribution: u64,
    pub daily_contribution: u64,
    pub fee_amount: u64,
    pub source: ContributionSource,
    pub transaction_signature: String,
    pub timestamp: i64,
}

/// A participant's balance report was recorded.
#[derive(Clone, Copy, Debug, PartialEq, Eq)]
pub struct ParticipantUpdated {
    pub wallet: Identity,
    pub ball_balance: u64,
    pub tickets_count: u64,
    pub is_eligible: bool,
    pub old_tickets: u64,
    pub timestamp: i64,
}

/// A draw was created in `Pending`.
#[derive(Clone, Copy, Debug, PartialEq, Eq)]
pub struct LotteryCreated {
    pub lottery_id: u32,
    pub lottery_type: LotteryType,
    pub scheduled_time: i64,
    pub jackpot_amount: u64,
    pub total_participants: u64,
    pub total_tickets: u64,
    pub timestamp: i64,
}

/// A draw was executed and now awaits payout.
#[derive(Clone, Debug, PartialEq, Eq)]
pub struct LotteryExecuted {
    pub lottery_id: u32,
    pub lottery_type: LotteryType,
    pub winner: Identity,
    pub jackpot_amount: u64,
    pub total_participants: u64,
    pub total_tickets: u64,
    pub winner_tickets: u64,
    pub vrf_seed: u64,
    pub transaction_signature: String,
    pub timestamp: i64,
    pub slot: u64,
}

/// The winner of a draw was paid.
#[derive(Clone, Debug, PartialEq, Eq)]
pub struct WinnerPaid {
    pub lottery_id: u32,
    pub lottery_type: LotteryType,
    pub winner: Identity,
    pub amount: u64,
    pub transaction_signature: String,
    pub timestamp: i64,
}

/// The admin stopped the ledger.
#[derive(Clone, Debug, PartialEq, Eq)]
pub struct EmergencyPause {
    pub admin: Identity,
    pub reason: String,
    pub timestamp: i64,
}

/// The admin lifted the stop.
#[derive(Clone, Debug, PartialEq, Eq)]
pub struct EmergencyResume {
    pub admin: Identity,
    pub reason: String,
    pub timestamp: i64,
}

/// The admin changed the policy; an absent field was left as it was.
#[derive(Clone, Copy, Debug, PartialEq, Eq)]
pub struct ConfigUpdated {
    pub admin: Identity,
    pub min_ticket_requirement: Option<u64>,
    pub max_tickets_per_wallet: Option<u64>,
    pub fee_percentage: Option<u64>,
    pub timestamp: i64,
}

/// The admin withdrew accumulated fees.
#[derive(Clone, Copy, Debug, PartialEq, Eq)]
pub struct TreasuryWithdrawal {
    pub admin: Identity,
    pub treasury_wallet: Identity,
    pub amount: u64,
    pub timestamp: i64,
}

} // verus!
