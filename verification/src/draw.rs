//! The lifecycle of a draw: created `Pending`, executed into `Processing`,
//! paid into `Completed`.

use vstd::prelude::*;
use crate::contexts::{CreateLottery, ExecuteLottery, PayWinner};
use crate::errors::LotteryError;
use crate::events::{LotteryCreated, LotteryExecuted, WinnerPaid};
use crate::identity::Identity;
use crate::limits::{MIN_JACKPOT_AMOUNT, SIGNATURE_MAX_LEN};
use crate::records::{Clock, FundTransfer, Lottery, LotteryState, LotteryStatus, LotteryType};

verus! {

/// The first reason, if any, for which `create_lottery` rejects a call.
/// The checks come in this order: the caller is the admin; the ledger is
/// neither paused nor stopped; the scheduled time lies strictly in the
/// future; someone participates; the draw counter of the type can still
/// grow; the live jackpot of the type has reached the minimum.
pub open spec fn creation_error(
    ctx: CreateLottery,
    lottery_type: LotteryType,
    scheduled_time: i64,
    clock: Clock,
) -> Option<LotteryError> {
    if ctx.admin != ctx.lottery_state.admin {
        Some(LotteryError::Unauthorized)
    } else if ctx.lottery_state.is_paused {
        Some(LotteryError::ProgramPaused)
    } else if ctx.lottery_state.emergency_stop {
        Some(LotteryError::EmergencyStop)
    } else if scheduled_time <= clock.unix_timestamp {
        Some(LotteryError::InvalidScheduledTime)
    } else if ctx.lottery_state.total_participants == 0 {
        Some(LotteryError::NoParticipants)
    } else if ctx.lottery_state.draw_count_of(lottery_type) == u32::MAX {
        Some(LotteryError::ArithmeticOverflow)
    } else if ctx.lottery_state.jackpot_of(lottery_type) < MIN_JACKPOT_AMOUNT {
        Some(LotteryError::InsufficientJackpot)
    } else {
        None
    }
}

/// Whether `lottery` is the draw that `create_lottery` writes from `state`:
/// pending, numbered one past the type's counter, carrying the live jackpot
/// and the global totals as snapshots, with no winner, seed or signature.
pub open spec fn is_new_draw(
    lottery: Lottery,
    state: LotteryState,
    lottery_type: LotteryType,
    scheduled_time: i64,
    clock: Clock,
) -> bool {
    &&& lottery.draw_id == state.draw_count_of(lottery_type) + 1
    &&& lottery.lottery_type == lottery_type
    &&& lottery.scheduled_time == scheduled_time
    &&& lottery.executed_time == 0
    &&& lottery.status == LotteryStatus::Pending
    &&& lottery.jackpot_amount == state.jackpot_of(lottery_type)
    &&& lottery.total_participants == state.total_participants
    &&& lottery.total_tickets == state.total_tickets
    &&& lottery.winner.is_empty()
    &&& lottery.vrf_seed == 0
    &&& lottery.transaction_signature@ == Seq::<char>::empty()
    &&& lottery.slot_number == 0
    &&& lottery.payout_time == 0
    &&& lottery.created_at == clock.unix_timestamp
    &&& lottery.gas_used == 0
    &&& lottery.block_hash == clock.slot
}

/// The root record once a draw of `lottery_type` is created: that type's
/// counter one higher, everything else but the update time as it was.
pub open spec fn state_after_creation(
    state: LotteryState,
    lottery_type: LotteryType,
    clock: Clock,
) -> LotteryState {
    match lottery_type {
        LotteryType::Hourly => LotteryState {
            hourly_draw_count: (state.hourly_draw_count + 1) as u32,
            last_updated: clock.unix_timestamp,
            ..state
        },
        LotteryType::Daily => LotteryState {
            daily_draw_count: (state.daily_draw_count + 1) as u32,
            last_updated: clock.unix_timestamp,
            ..state
        },
    }
}

/// Creates a draw of `lottery_type` for `scheduled_time`.  The new record
/// snapshots the live jackpot and the global totals; what is paid later is
/// this snapshot, whatever is contributed in between.
pub fn create_lottery(
    ctx: &mut CreateLottery,
    lottery_type: LotteryType,
    scheduled_time: i64,
    clock: Clock,
) -> (result: Result<LotteryCreated, LotteryError>)
    ensures
        match result {
            Ok(event) => {
                &&& creation_error(*old(ctx), lottery_type, scheduled_time, clock) is None
                &&& is_new_draw(
                    final(ctx).lottery,
                    old(ctx).lottery_state,
                    lottery_type,
                    scheduled_time,
                    clock,
                )
                &&& final(ctx).lottery.wf()
                &&& final(ctx).lottery_state == state_after_creation(
                    old(ctx).lottery_state,
                    lottery_type,
                    clock,
                )
                &&& final(ctx).admin == old(ctx).admin
                &&& event == (LotteryCreated {
                    lottery_id: (old(ctx).lottery_state.draw_count_of(lottery_type) + 1) as u32,
                    lottery_type,
                    scheduled_time,
                    jackpot_amount: old(ctx).lottery_state.jackpot_of(lottery_type),
                    total_participants: old(ctx).lottery_state.total_participants,
                    total_tickets: old(ctx).lottery_state.total_tickets,
                    timestamp: clock.unix_timestamp,
                })
            },
            Err(error) => {
                &&& creation_error(*old(ctx), lottery_type, scheduled_time, clock) == Some(error)
                &&& *final(ctx) == *old(ctx)
            },
        },
        old(ctx).lottery_state.wf() ==> final(ctx).lottery_state.wf(),
{
    if ctx.admin != ctx.lottery_state.admin {
        return Err(LotteryError::Unauthorized);
    }
    if ctx.lottery_state.is_paused {
        return Err(LotteryError::ProgramPaused);
    }
    if ctx.lottery_state.emergency_stop {
        return Err(LotteryError::EmergencyStop);
    }
    if scheduled_time <= clock.unix_timestamp {
        return Err(LotteryError::InvalidScheduledTime);
    }
    if ctx.lottery_state.total_participants == 0 {
        return Err(LotteryError::NoParticipants);
    }
    let (count, jackpot_amount) = match lottery_type {
        LotteryType::Hourly => (
            ctx.lottery_state.hourly_draw_count,
            ctx.lottery_state.hourly_jackpot_sol,
        ),
        LotteryType::Daily => (ctx.lottery_state.daily_draw_count, ctx.lottery_state.daily_jackpot_sol),
    };
    if count == u32::MAX {
        return Err(LotteryError::ArithmeticOverflow);
    }
    if jackpot_amount < MIN_JACKPOT_AMOUNT {
        return Err(LotteryError::InsufficientJackpot);
    }
    let draw_id: u32 = count + 1;
    match lottery_type {
        LotteryType::Hourly => {
            ctx.lottery_state.hourly_draw_count = draw_id;
        },
        LotteryType::Daily => {
            ctx.lottery_state.daily_draw_count = draw_id;
        },
    }
    ctx.lottery_state.last_updated = clock.unix_timestamp;
    ctx.lottery =
    Lottery {
        draw_id,
        lottery_type,
        scheduled_time,
        executed_time: 0,
        status: LotteryStatus::Pending,
        jackpot_amount,
        total_participants: ctx.lottery_state.total_participants,
        total_tickets: ctx.lottery_state.total_tickets,
        winner: Identity::default(),
        vrf_seed: 0,
        transaction_signature: String::new(),
        slot_number: 0,
        payout_time: 0,
        created_at: clock.unix_timestamp,
        gas_used: 0,
        block_hash: clock.slot,
    };
    Ok(
        LotteryCreated {
            lottery_id: draw_id,
            lottery_type,
            scheduled_time,
            jackpot_amount,
            total_participants: ctx.lottery_state.total_participants,
            total_tickets: ctx.lottery_state.total_tickets,
            timestamp: clock.unix_timestamp,
        },
    )
}

/// The first reason, if any, for which `execute_lottery` rejects a call.
/// The checks come in this order: the caller is the admin; the ledger is
/// neither paused nor stopped; the participant record holds tickets; the
/// draw is `Pending`; its snapshots show participants and a jackpot; its
/// scheduled time has come; the seed is not zero; the participant record is
/// the claimed winner's and is eligible; the signature is short enough to
/// be stored.  A record without tickets is thus refused for that reason
/// whatever the draw, the time, the seed or the claimed winner.
pub open spec fn execution_error(
    ctx: ExecuteLottery,
    winner_wallet: Identity,
    vrf_seed: u64,
    transaction_signature: Seq<char>,
    clock: Clock,
) -> Option<LotteryError> {
    if ctx.admin != ctx.lottery_state.admin {
        Some(LotteryError::Unauthorized)
    } else if ctx.lottery_state.is_paused {
        Some(LotteryError::ProgramPaused)
    } else if ctx.lottery_state.emergency_stop {
        Some(LotteryError::EmergencyStop)
    } else if ctx.winner_participant.tickets_count == 0 {
        Some(LotteryError::WinnerHasNoTickets)
    } else if ctx.lottery.status != LotteryStatus::Pending {
        Some(LotteryError::InvalidLotteryStatus)
    } else if ctx.lottery.total_participants == 0 {
        Some(LotteryError::NoParticipants)
    } else if ctx.lottery.jackpot_amount == 0 {
        Some(LotteryError::InsufficientJackpot)
    } else if clock.unix_timestamp < ctx.lottery.scheduled_time {
        Some(LotteryError::TooEarly)
    } else if vrf_seed == 0 {
        Some(LotteryError::InvalidVRFSeed)
    } else if ctx.winner_participant.wallet != winner_wallet {
        Some(LotteryError::InvalidWinner)
    } else if !ctx.winner_participant.is_eligible {
        Some(LotteryError::WinnerNotEligible)
    } else if transaction_signature.len() > SIGNATURE_MAX_LEN {
        Some(LotteryError::SignatureTooLong)
    } else {
        None
    }
}

/// The draw record once executed: in `Processing`, with its winner, seed,
/// signature and the time and slot of execution; its snapshots as they were.
pub open spec fn executed_draw(
    lottery: Lottery,
    winner_wallet: Identity,
    vrf_seed: u64,
    transaction_signature: String,
    clock: Clock,
) -> Lottery {
    Lottery {
        status: LotteryStatus::Processing,
        winner: winner_wallet,
        vrf_seed,
        executed_time: clock.unix_timestamp,
        transaction_signature,
        slot_number: clock.slot,
        gas_used: 0,
        ..lottery
    }
}

/// The root record once a draw of `lottery_type` is executed: that type's live
/// jackpot emptied and its draw time recorded; the other jackpot untouched.
pub open spec fn state_after_execution(
    state: LotteryState,
    lottery_type: LotteryType,
    clock: Clock,
) -> LotteryState {
    match lottery_type {
        LotteryType::Hourly => LotteryState {
            hourly_jackpot_sol: 0,
            last_hourly_draw: clock.unix_timestamp,
            last_updated: clock.unix_timestamp,
            ..state
        },
        LotteryType::Daily => LotteryState {
            daily_jackpot_sol: 0,
            last_daily_draw: clock.unix_timestamp,
            last_updated: clock.unix_timestamp,
            ..state
        },
    }
}

/// Executes a pending draw with a winner chosen elsewhere.  The winner and
/// the seed are validated, never computed.  On success the draw moves to
/// `Processing` and the live jackpot of its type is emptied, so that later
/// contributions build the next jackpot; the draw's own snapshot is kept,
/// and the signature it stores is within the bound of the record.
pub fn execute_lottery(
    ctx: &mut ExecuteLottery,
    winner_wallet: Identity,
    vrf_seed: u64,
    transaction_signature: String,
    clock: Clock,
) -> (result: Result<LotteryExecuted, LotteryError>)
    ensures
        match result {
            Ok(event) => {
                &&& execution_error(
                    *old(ctx),
                    winner_wallet,
                    vrf_seed,
                    transaction_signature@,
                    clock,
                ) is None
                &&& final(ctx).lottery == executed_draw(
                    old(ctx).lottery,
                    winner_wallet,
                    vrf_seed,
                    transaction_signature,
                    clock,
                )
                &&& final(ctx).lottery_state == state_after_execution(
                    old(ctx).lottery_state,
                    old(ctx).lottery.lottery_type,
                    clock,
                )
                &&& final(ctx).admin == old(ctx).admin
                &&& final(ctx).winner_participant == old(ctx).winner_participant
                &&& final(ctx).lottery.wf()
                &&& event == (LotteryExecuted {
                    lottery_id: old(ctx).lottery.draw_id,
                    lottery_type: old(ctx).lottery.lottery_type,
                    winner: winner_wallet,
                    jackpot_amount: old(ctx).lottery.jackpot_amount,
                    total_participants: old(ctx).lottery.total_participants,
                    total_tickets: old(ctx).lottery.total_tickets,
                    winner_tickets: old(ctx).winner_participant.tickets_count,
                    vrf_seed,
                    transaction_signature,
                    timestamp: clock.unix_timestamp,
                    slot: clock.slot,
                })
            },
            Err(error) => {
                &&& execution_error(
                    *old(ctx),
                    winner_wallet,
                    vrf_seed,
                    transaction_signature@,
                    clock,
                ) == Some(error)
                &&& *final(ctx) == *old(ctx)
            },
        },
        old(ctx).lottery_state.wf() ==> final(ctx).lottery_state.wf(),
{
    if ctx.admin != ctx.lottery_state.admin {
        return Err(LotteryError::Unauthorized);
    }
    if ctx.lottery_state.is_paused {
        return Err(LotteryError::ProgramPaused);
    }
    if ctx.lottery_state.emergency_stop {
        return Err(LotteryError::EmergencyStop);
    }
    if ctx.winner_participant.tickets_count == 0 {
        return Err(LotteryError::WinnerHasNoTickets);
    }
    if ctx.lottery.status != LotteryStatus::Pending {
        return Err(LotteryError::InvalidLotteryStatus);
    }
    if ctx.lottery.total_participants == 0 {
        return Err(LotteryError::NoParticipants);
    }
    if ctx.lottery.jackpot_amount == 0 {
        return Err(LotteryError::InsufficientJackpot);
    }
    if clock.unix_timestamp < ctx.lottery.scheduled_time {
        return Err(LotteryError::TooEarly);
    }
    if vrf_seed == 0 {
        return Err(LotteryError::InvalidVRFSeed);
    }
    if ctx.winner_participant.wallet != winner_wallet {
        return Err(LotteryError::InvalidWinner);
    }
    if !ctx.winner_participant.is_eligible {
        return Err(LotteryError::WinnerNotEligible);
    }
    if transaction_signature.as_str().unicode_len() > SIGNATURE_MAX_LEN {
        return Err(LotteryError::SignatureTooLong);
    }
    ctx.lottery.status = LotteryStatus::Processing;
    ctx.lottery.winner = winner_wallet;
    ctx.lottery.vrf_seed = vrf_seed;
    ctx.lottery.executed_time = clock.unix_timestamp;
    ctx.lottery.transaction_signature = transaction_signature.clone();
    ctx.lottery.slot_number = clock.slot;
    ctx.lottery.gas_used = 0;
    match ctx.lottery.lottery_type {
        LotteryType::Hourly => {
            ctx.lottery_state.hourly_jackpot_sol = 0;
            ctx.lottery_state.last_hourly_draw = clock.unix_timestamp;
        },
        LotteryType::Daily => {
            ctx.lottery_state.daily_jackpot_sol = 0;
            ctx.lottery_state.last_daily_draw = clock.unix_timestamp;
        },
    }
    ctx.lottery_state.last_updated = clock.unix_timestamp;
    Ok(
        LotteryExecuted {
            lottery_id: ctx.lottery.draw_id,
            lottery_type: ctx.lottery.lottery_type,
            winner: winner_wallet,
            jackpot_amount: ctx.lottery.jackpot_amount,
            total_participants: ctx.lottery.total_participants,
            total_tickets: ctx.lottery.total_tickets,
            winner_tickets: ctx.winner_participant.tickets_count,
            vrf_seed,
            transaction_signature,
            timestamp: clock.unix_timestamp,
            slot: clock.slot,
        },
    )
}

/// The first reason, if any, for which a payout is refused.  The checks come
/// in this order: the ledger is not stopped; the draw is `Processing`; the
/// receiving identity is the draw's winner; the snapshot jackpot is not
/// zero; the custodied funds cover it.
pub open spec fn payment_error(ctx: PayWinner) -> Option<LotteryError> {
    if ctx.lottery_state.emergency_stop {
        Some(LotteryError::EmergencyStop)
    } else if ctx.lottery.status != LotteryStatus::Processing {
        Some(LotteryError::InvalidLotteryStatus)
    } else if ctx.lottery.winner != ctx.winner {
        Some(LotteryError::InvalidWinner)
    } else if ctx.lottery.jackpot_amount == 0 {
        Some(LotteryError::InsufficientJackpot)
    } else if ctx.program_balance < ctx.lottery.jackpot_amount {
        Some(LotteryError::InsufficientProgramBalance)
    } else {
        None
    }
}

/// Decides whether the draw may be paid, and if so names the transfer that
/// pays it: the snapshot jackpot, to the winner.  Nothing is recorded yet:
/// the caller has the transfer performed and, only once it has succeeded,
/// calls `pay_winner`.  A failed transfer therefore leaves the draw in
/// `Processing`, to be tried again.
pub fn payout_transfer(ctx: &PayWinner) -> (result: Result<FundTransfer, LotteryError>)
    ensures
        match result {
            Ok(transfer) => {
                &&& payment_error(*ctx) is None
                &&& transfer.destination == ctx.winner
                &&& transfer.amount == ctx.lottery.jackpot_amount
            },
            Err(error) => payment_error(*ctx) == Some(error),
        },
{
    if ctx.lottery_state.emergency_stop {
        return Err(LotteryError::EmergencyStop);
    }
    if ctx.lottery.status != LotteryStatus::Processing {
        return Err(LotteryError::InvalidLotteryStatus);
    }
    if ctx.lottery.winner != ctx.winner {
        return Err(LotteryError::InvalidWinner);
    }
    if ctx.lottery.jackpot_amount == 0 {
        return Err(LotteryError::InsufficientJackpot);
    }
    if ctx.program_balance < ctx.lottery.jackpot_amount {
        return Err(LotteryError::InsufficientProgramBalance);
    }
    Ok(FundTransfer { destination: ctx.winner, amount: ctx.lottery.jackpot_amount })
}

/// The draw record once paid: `Completed`, with the time of payout.
pub open spec fn paid_draw(lottery: Lottery, clock: Clock) -> Lottery {
    Lottery { status: LotteryStatus::Completed, payout_time: clock.unix_timestamp, ..lottery }
}

/// Records the payout of a draw whose transfer, named by `payout_transfer`,
/// has succeeded.  Every precondition of the payout is checked again, on
/// the funds as they stood before the transfer, so a draw that is not in
/// `Processing` is never completed, and a completed draw is never paid twice.
pub fn pay_winner(ctx: &mut PayWinner, clock: Clock) -> (result: Result<
    WinnerPaid,
    LotteryError,
>)
    ensures
        match result {
            Ok(event) => {
                &&& payment_error(*old(ctx)) is None
                &&& final(ctx).lottery == paid_draw(old(ctx).lottery, clock)
                &&& final(ctx).lottery_state == old(ctx).lottery_state
                &&& final(ctx).winner == old(ctx).winner
                &&& final(ctx).program_balance == old(ctx).program_balance
                &&& event == (WinnerPaid {
                    lottery_id: old(ctx).lottery.draw_id,
                    lottery_type: old(ctx).lottery.lottery_type,
                    winner: old(ctx).winner,
                    amount: old(ctx).lottery.jackpot_amount,
                    transaction_signature: old(ctx).lottery.transaction_signature,
                    timestamp: clock.unix_timestamp,
                })
            },
            Err(error) => {
                &&& payment_error(*old(ctx)) == Some(error)
                &&& *final(ctx) == *old(ctx)
            },
        },
        old(ctx).lottery.wf() ==> final(ctx).lottery.wf(),
{
    match payout_transfer(ctx) {
        Err(error) => Err(error),
        Ok(transfer) => {
            ctx.lottery.status = LotteryStatus::Completed;
            ctx.lottery.payout_time = clock.unix_timestamp;
            Ok(
                WinnerPaid {
                    lottery_id: ctx.lottery.draw_id,
                    lottery_type: ctx.lottery.lottery_type,
                    winner: transfer.destination,
                    amount: transfer.amount,
                    transaction_signature: ctx.lottery.transaction_signature.clone(),
                    timestamp: clock.unix_timestamp,
                },
            )
        },
    }
}

} // verus!
