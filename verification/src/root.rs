//! The root record's own bookkeeping: its creation and its report.

use vstd::prelude::*;
use crate::contexts::{GetLotteryState, Initialize};
use crate::events::ProgramInitialized;
use crate::identity::Identity;
use crate::limits::{
    DEFAULT_FEE_BPS, DEFAULT_MAX_TICKETS_PER_WALLET, DEFAULT_MIN_TICKET_REQUIREMENT,
    SCHEMA_VERSION,
};
use crate::records::{Clock, LotteryState, LotteryType};

verus! {

/// The root record as `initialize` writes it: empty jackpots and counters,
/// the default policy, no safety flag set.
pub open spec fn initial_state(
    ball_token_mint: Identity,
    admin_authority: Identity,
    clock: Clock,
) -> LotteryState {
    LotteryState {
        admin: admin_authority,
        ball_token_mint,
        hourly_jackpot_sol: 0,
        daily_jackpot_sol: 0,
        total_participants: 0,
        total_tickets: 0,
        last_hourly_draw: 0,
        last_daily_draw: 0,
        hourly_draw_count: 0,
        daily_draw_count: 0,
        min_ticket_requirement: DEFAULT_MIN_TICKET_REQUIREMENT,
        max_tickets_per_wallet: DEFAULT_MAX_TICKETS_PER_WALLET,
        fee_percentage: DEFAULT_FEE_BPS,
        treasury_balance: 0,
        total_volume_processed: 0,
        initialized_at: clock.unix_timestamp,
        last_updated: clock.unix_timestamp,
        is_paused: false,
        emergency_stop: false,
        version: SCHEMA_VERSION,
    }
}

/// Fills the root record for a new ledger with the given eligibility token
/// and admin.  The record that results satisfies its invariant.
pub fn initialize(
    ctx: &mut Initialize,
    ball_token_mint: Identity,
    admin_authority: Identity,
    clock: Clock,
) -> (event: ProgramInitialized)
    ensures
        final(ctx).lottery_state == initial_state(ball_token_mint, admin_authority, clock),
        final(ctx).lottery_state.wf(),
        final(ctx).admin == old(ctx).admin,
        event == (ProgramInitialized {
            admin: admin_authority,
            ball_token_mint,
            timestamp: clock.unix_timestamp,
        }),
{
    ctx.lottery_state =
    LotteryState {
        admin: admin_authority,
        ball_token_mint,
        hourly_jackpot_sol: 0,
        daily_jackpot_sol: 0,
        total_participants: 0,
        total_tickets: 0,
        last_hourly_draw: 0,
        last_daily_draw: 0,
        hourly_draw_count: 0,
        daily_draw_count: 0,
        min_ticket_requirement: DEFAULT_MIN_TICKET_REQUIREMENT,
        max_tickets_per_wallet: DEFAULT_MAX_TICKETS_PER_WALLET,
        fee_percentage: DEFAULT_FEE_BPS,
        treasury_balance: 0,
        total_volume_processed: 0,
        initialized_at: clock.unix_timestamp,
        last_updated: clock.unix_timestamp,
        is_paused: false,
        emergency_stop: false,
        version: SCHEMA_VERSION,
    };
    ProgramInitialized { admin: admin_authority, ball_token_mint, timestamp: clock.unix_timestamp }
}

/// The figures of the root record that an operator is shown.
#[derive(Clone, Copy, Debug, PartialEq, Eq)]
pub struct LotteryStateReport {
    pub admin: Identity,
    pub ball_token_mint: Identity,
    pub hourly_jackpot_sol: u64,
    pub daily_jackpot_sol: u64,
    pub total_participants: u64,
    pub total_tickets: u64,
    pub treasury_balance: u64,
    pub total_volume_processed: u64,
    pub emergency_stop: bool,
    pub is_paused: bool,
}

/// Reads the figures of the root record that an operator is shown.
pub fn get_lottery_state(ctx: &GetLotteryState) -> (report: LotteryStateReport)
    ensures
        report == (LotteryStateReport {
            admin: ctx.lottery_state.admin,
            ball_token_mint: ctx.lottery_state.ball_token_mint,
            hourly_jackpot_sol: ctx.lottery_state.hourly_jackpot_sol,
            daily_jackpot_sol: ctx.lottery_state.daily_jackpot_sol,
            total_participants: ctx.lottery_state.total_participants,
            total_tickets: ctx.lottery_state.total_tickets,
            treasury_balance: ctx.lottery_state.treasury_balance,
            total_volume_processed: ctx.lottery_state.total_volume_processed,
            emergency_stop: ctx.lottery_state.emergency_stop,
            is_paused: ctx.lottery_state.is_paused,
        }),
{
    LotteryStateReport {
        admin: ctx.lottery_state.admin,
        ball_token_mint: ctx.lottery_state.ball_token_mint,
        hourly_jackpot_sol: ctx.lottery_state.hourly_jackpot_sol,
        daily_jackpot_sol: ctx.lottery_state.daily_jackpot_sol,
        total_participants: ctx.lottery_state.total_participants,
        total_tickets: ctx.lottery_state.total_tickets,
        treasury_balance: ctx.lottery_state.treasury_balance,
        total_volume_processed: ctx.lottery_state.total_volume_processed,
        emergency_stop: ctx.lottery_state.emergency_stop,
        is_paused: ctx.lottery_state.is_paused,
    }
}

/// The word that names a draw type in the address of a draw record.
pub open spec fn lottery_type_seed(lottery_type: LotteryType) -> Seq<char> {
    match lottery_type {
        LotteryType::Hourly => "hourly"@,
        LotteryType::Daily => "daily"@,
    }
}

/// The word that names a draw type in the address of a draw record.
pub fn get_lottery_type_seed(lottery_type: &LotteryType) -> (seed: &'static str)
    ensures
        seed@ == lottery_type_seed(*lottery_type),
{
    match lottery_type {
        LotteryType::Hourly => "hourly",
        LotteryType::Daily => "daily",
    }
}

/// A basic screen for a seed: not zero, not the slot itself, and drawn for
/// at least one participant.
pub fn validate_vrf_seed(seed: u64, slot: u64, participants: u64) -> (valid: bool)
    ensures
        valid == (seed > 0 && seed != slot && participants > 0),
{
    seed > 0 && seed != slot && participants > 0
}

} // verus!
