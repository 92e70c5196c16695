//! The persisted records of the ledger and the plain values read from the host.

use vstd::prelude::*;
use crate::identity::Identity;
use crate::limits::{
    MAX_FEE_BPS, MAX_JACKPOT_AMOUNT, MAX_MIN_TICKET_REQUIREMENT, MAX_TICKETS_PER_WALLET_LIMIT,
    SIGNATURE_MAX_LEN,
};

verus! {

/// The host's clock as read at the start of an operation.
#[derive(Clone, Copy, Debug, PartialEq, Eq, Structural)]
pub struct Clock {
    /// Seconds since the Unix epoch.
    pub unix_timestamp: i64,
    /// Position of the host chain.
    pub slot: u64,
}

/// Which of the two jackpots a draw pays from.
#[derive(Clone, Copy, Debug, PartialEq, Eq, Structural, Hash)]
pub enum LotteryType {
    Hourly,
    Daily,
}

/// Where a draw stands in its lifecycle.
#[derive(Clone, Copy, Debug, PartialEq, Eq, Structural, Hash)]
pub enum LotteryStatus {
    Pending,
    Processing,
    Completed,
    Cancelled,
    Failed,
}

/// The declared origin of a contribution, which selects its allocation rule.
#[derive(Clone, Copy, Debug, PartialEq, Eq, Structural, Hash)]
pub enum ContributionSource {
    RaydiumSwap,
    DirectDeposit,
    Treasury,
}

/// The root record: jackpots, counters, policy, accounting and safety flags.
#[derive(Clone, Copy, Debug, PartialEq, Eq)]
pub struct LotteryState {
    pub admin: Identity,
    pub ball_token_mint: Identity,
    pub hourly_jackpot_sol: u64,
    pub daily_jackpot_sol: u64,
    pub total_participants: u64,
    pub total_tickets: u64,
    pub last_hourly_draw: i64,
    pub last_daily_draw: i64,
    pub hourly_draw_count: u32,
    pub daily_draw_count: u32,
    pub min_ticket_requirement: u64,
    pub max_tickets_per_wallet: u64,
    /// Fee rate in basis points.
    pub fee_percentage: u64,
    pub treasury_balance: u64,
    pub total_volume_processed: u64,
    pub initialized_at: i64,
    pub last_updated: i64,
    pub is_paused: bool,
    pub emergency_stop: bool,
    pub version: u8,
}

impl LotteryState {
    /// The invariant of the root record: both jackpots within the ceiling and
    /// all three policy values within their ranges.
    pub open spec fn wf(&self) -> bool {
        &&& self.hourly_jackpot_sol <= MAX_JACKPOT_AMOUNT
        &&& self.daily_jackpot_sol <= MAX_JACKPOT_AMOUNT
        &&& self.fee_percentage <= MAX_FEE_BPS
        &&& 1 <= self.min_ticket_requirement <= MAX_MIN_TICKET_REQUIREMENT
        &&& 1 <= self.max_tickets_per_wallet <= MAX_TICKETS_PER_WALLET_LIMIT
    }

    /// Value held for payout or withdrawal: both jackpots and the treasury.
    pub open spec fn pooled(&self) -> int {
        self.hourly_jackpot_sol + self.daily_jackpot_sol + self.treasury_balance
    }

    /// The live jackpot of the given type.
    pub open spec fn jackpot_of(&self, lottery_type: LotteryType) -> u64 {
        match lottery_type {
            LotteryType::Hourly => self.hourly_jackpot_sol,
            LotteryType::Daily => self.daily_jackpot_sol,
        }
    }

    /// The number of draws created so far for the given type.
    pub open spec fn draw_count_of(&self, lottery_type: LotteryType) -> u32 {
        match lottery_type {
            LotteryType::Hourly => self.hourly_draw_count,
            LotteryType::Daily => self.daily_draw_count,
        }
    }

    /// Whether the record satisfies its invariant.
    pub fn is_well_formed(&self) -> (ok: bool)
        ensures
            ok == self.wf(),
    {
        self.hourly_jackpot_sol <= MAX_JACKPOT_AMOUNT
            && self.daily_jackpot_sol <= MAX_JACKPOT_AMOUNT
            && self.fee_percentage <= MAX_FEE_BPS
            && 1 <= self.min_ticket_requirement
            && self.min_ticket_requirement <= MAX_MIN_TICKET_REQUIREMENT
            && 1 <= self.max_tickets_per_wallet
            && self.max_tickets_per_wallet <= MAX_TICKETS_PER_WALLET_LIMIT
    }
}

impl Default for LotteryState {
    /// The blank record that storage hands out before `initialize` fills it.
    fn default() -> (state: Self)
        ensures
            state.admin.is_empty(),
            state.ball_token_mint.is_empty(),
            state.hourly_jackpot_sol == 0,
            state.daily_jackpot_sol == 0,
            state.total_participants == 0,
            state.total_tickets == 0,
            state.last_hourly_draw == 0,
            state.last_daily_draw == 0,
            state.hourly_draw_count == 0,
            state.daily_draw_count == 0,
            state.min_ticket_requirement == 0,
            state.max_tickets_per_wallet == 0,
            state.fee_percentage == 0,
            state.treasury_balance == 0,
            state.total_volume_processed == 0,
            state.initialized_at == 0,
            state.last_updated == 0,
            !state.is_paused,
            !state.emergency_stop,
            state.version == 0,
    {
        LotteryState {
            admin: Identity::default(),
            ball_token_mint: Identity::default(),
            hourly_jackpot_sol: 0,
            daily_jackpot_sol: 0,
            total_participants: 0,
            total_tickets: 0,
            last_hourly_draw: 0,
            last_daily_draw: 0,
            hourly_draw_count: 0,
            daily_draw_count: 0,
            min_ticket_requirement: 0,
            max_tickets_per_wallet: 0,
            fee_percentage: 0,
            treasury_balance: 0,
            total_volume_processed: 0,
            initialized_at: 0,
            last_updated: 0,
            is_paused: false,
            emergency_stop: false,
            version: 0,
        }
    }
}

/// One wallet's standing: its reported balance, tickets and statistics.
#[derive(Clone, Copy, Debug, PartialEq, Eq)]
pub struct Participant {
    pub wallet: Identity,
    pub ball_balance: u64,
    pub tickets_count: u64,
    pub is_eligible: bool,
    pub last_updated: i64,
    pub token_account: Identity,
    pub participation_count: u64,
    pub total_winnings: u64,
    pub last_win_time: i64,
}

impl Participant {
    /// What a participant record promises under a given policy: no more
    /// tickets than a wallet may hold, and eligibility exactly from the
    /// ticket requirement.
    pub open spec fn consistent_with(&self, state: LotteryState) -> bool {
        &&& self.tickets_count <= state.max_tickets_per_wallet
        &&& self.is_eligible == (self.tickets_count >= state.min_ticket_requirement)
    }
}

impl Default for Participant {
    /// The blank record of a wallet that has never reported a balance.
    fn default() -> (participant: Self)
        ensures
            participant.wallet.is_empty(),
            participant.ball_balance == 0,
            participant.tickets_count == 0,
            !participant.is_eligible,
            participant.last_updated == 0,
            participant.token_account.is_empty(),
            participant.participation_count == 0,
            participant.total_winnings == 0,
            participant.last_win_time == 0,
    {
        Participant {
            wallet: Identity::default(),
            ball_balance: 0,
            tickets_count: 0,
            is_eligible: false,
            last_updated: 0,
            token_account: Identity::default(),
            participation_count: 0,
            total_winnings: 0,
            last_win_time: 0,
        }
    }
}

/// One draw: its snapshots, its winner and its position in the lifecycle.
#[derive(Clone, Debug, PartialEq, Eq)]
pub struct Lottery {
    pub draw_id: u32,
    pub lottery_type: LotteryType,
    pub scheduled_time: i64,
    pub executed_time: i64,
    pub status: LotteryStatus,
    /// The jackpot as it stood when the draw was created.
    pub jackpot_amount: u64,
    pub total_participants: u64,
    pub total_tickets: u64,
    pub winner: Identity,
    pub vrf_seed: u64,
    pub transaction_signature: String,
    pub slot_number: u64,
    pub payout_time: i64,
    pub created_at: i64,
    pub gas_used: u64,
    pub block_hash: u64,
}

impl Lottery {
    /// The invariant of a draw record: the signature it stores is at most
    /// `SIGNATURE_MAX_LEN` characters long.
    pub open spec fn wf(&self) -> bool {
        self.transaction_signature@.len() <= SIGNATURE_MAX_LEN
    }

    /// Whether the record satisfies its invariant.
    pub fn is_well_formed(&self) -> (ok: bool)
        ensures
            ok == self.wf(),
    {
        self.transaction_signature.as_str().unicode_len() <= SIGNATURE_MAX_LEN
    }
}

impl Default for Lottery {
    /// The blank record that storage hands out before `create_lottery` fills it.
    fn default() -> (lottery: Self)
        ensures
            lottery.draw_id == 0,
            lottery.lottery_type == LotteryType::Hourly,
            lottery.scheduled_time == 0,
            lottery.executed_time == 0,
            lottery.status == LotteryStatus::Pending,
            lottery.jackpot_amount == 0,
            lottery.total_participants == 0,
            lottery.total_tickets == 0,
            lottery.winner.is_empty(),
            lottery.vrf_seed == 0,
            lottery.transaction_signature@ == Seq::<char>::empty(),
            lottery.slot_number == 0,
            lottery.payout_time == 0,
            lottery.created_at == 0,
            lottery.gas_used == 0,
            lottery.block_hash == 0,
            lottery.wf(),
    {
        Lottery {
            draw_id: 0,
            lottery_type: LotteryType::Hourly,
            scheduled_time: 0,
            executed_time: 0,
            status: LotteryStatus::Pending,
            jackpot_amount: 0,
            total_participants: 0,
            total_tickets: 0,
            winner: Identity::default(),
            vrf_seed: 0,
            transaction_signature: String::new(),
            slot_number: 0,
            payout_time: 0,
            created_at: 0,
            gas_used: 0,
            block_hash: 0,
        }
    }
}

/// A verified reading of a token account: which mint, whose, and how much.
#[derive(Clone, Copy, Debug, PartialEq, Eq)]
pub struct TokenAccountSnapshot {
    /// The identity of the token account itself.
    pub key: Identity,
    pub mint: Identity,
    pub owner: Identity,
    pub amount: u64,
}

/// An order to the fund-custody primitive: move `amount` out of the ledger's
/// custodied funds to `destination`.
#[derive(Clone, Copy, Debug, PartialEq, Eq)]
pub struct FundTransfer {
    pub destination: Identity,
    pub amount: u64,
}

} // verus!
