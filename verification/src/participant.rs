//! The participant registry: tickets derived from a reported token balance,
//! eligibility, and the global totals that follow them.

use vstd::prelude::*;
use crate::contexts::UpdateParticipant;
use crate::errors::LotteryError;
use crate::events::ParticipantUpdated;
use crate::limits::TICKETS_PER_BALL_UNIT;
use crate::records::{Clock, LotteryState, Participant};

verus! {

/// The tickets that a reported balance earns: one per full ticket unit.
pub open spec fn tickets_for(ball_balance: u64) -> u64 {
    ball_balance / TICKETS_PER_BALL_UNIT
}

/// A wallet joins when it held no ticket and now holds some.
pub open spec fn joins(old_tickets: u64, new_tickets: u64) -> bool {
    old_tickets == 0 && new_tickets > 0
}

/// A wallet leaves when it held tickets and now holds none.
pub open spec fn leaves(old_tickets: u64, new_tickets: u64) -> bool {
    old_tickets > 0 && new_tickets == 0
}

/// The number of participants after one wallet's tickets change: one more
/// when it joins, one fewer (never below zero) when it leaves.
pub open spec fn participants_after(total: u64, old_tickets: u64, new_tickets: u64) -> int {
    if joins(old_tickets, new_tickets) {
        total + 1
    } else if leaves(old_tickets, new_tickets) && total > 0 {
        total - 1
    } else {
        total as int
    }
}

/// The number of tickets after one wallet's tickets change: the old count
/// taken out, never below zero, then the new count put in, never above the
/// counter's width.
pub open spec fn tickets_after(total: u64, old_tickets: u64, new_tickets: u64) -> int {
    let without_old: int = if total >= old_tickets {
        total - old_tickets
    } else {
        0
    };
    if without_old + new_tickets > u64::MAX {
        u64::MAX as int
    } else {
        without_old + new_tickets
    }
}

/// The first reason, if any, for which a balance report is refused.  The
/// checks come in this order: the ledger is neither paused nor stopped; the
/// token account is of the eligibility mint; it belongs to the caller; it
/// holds at least the reported balance; the tickets earned do not exceed
/// what a wallet may hold; a joining wallet still fits the counters.
pub open spec fn participant_update_error(ctx: UpdateParticipant, ball_balance: u64) -> Option<
    LotteryError,
> {
    if ctx.lottery_state.is_paused {
        Some(LotteryError::ProgramPaused)
    } else if ctx.lottery_state.emergency_stop {
        Some(LotteryError::EmergencyStop)
    } else if ctx.ball_token_account.mint != ctx.lottery_state.ball_token_mint {
        Some(LotteryError::InvalidTokenMint)
    } else if ctx.ball_token_account.owner != ctx.user {
        Some(LotteryError::InvalidTokenOwner)
    } else if ctx.ball_token_account.amount < ball_balance {
        Some(LotteryError::InsufficientTokenBalance)
    } else if tickets_for(ball_balance) > ctx.lottery_state.max_tickets_per_wallet {
        Some(LotteryError::TooManyTickets)
    } else if joins(ctx.participant.tickets_count, tickets_for(ball_balance)) && (
    ctx.participant.participation_count == u64::MAX || ctx.lottery_state.total_participants
        == u64::MAX) {
        Some(LotteryError::ArithmeticOverflow)
    } else {
        None
    }
}

/// The participant record once a report is recorded: rewritten with the
/// caller, the balance, the tickets it earns, eligibility from the ticket
/// requirement, and the time; one more participation if the wallet joins.
pub open spec fn participant_after_update(
    ctx: UpdateParticipant,
    ball_balance: u64,
    clock: Clock,
) -> Participant {
    Participant {
        wallet: ctx.user,
        ball_balance,
        tickets_count: tickets_for(ball_balance),
        is_eligible: tickets_for(ball_balance) >= ctx.lottery_state.min_ticket_requirement,
        last_updated: clock.unix_timestamp,
        token_account: ctx.ball_token_account.key,
        participation_count: if joins(ctx.participant.tickets_count, tickets_for(ball_balance)) {
            (ctx.participant.participation_count + 1) as u64
        } else {
            ctx.participant.participation_count
        },
        ..ctx.participant
    }
}

/// The root record once a wallet's tickets change from `old_tickets` to
/// `new_tickets`.
pub open spec fn state_after_participant_update(
    state: LotteryState,
    old_tickets: u64,
    new_tickets: u64,
    clock: Clock,
) -> LotteryState {
    LotteryState {
        total_participants: participants_after(state.total_participants, old_tickets, new_tickets) as u64,
        total_tickets: tickets_after(state.total_tickets, old_tickets, new_tickets) as u64,
        last_updated: clock.unix_timestamp,
        ..state
    }
}

/// Records the caller's reported token balance.  The tickets follow from
/// the balance alone; the global totals move by the difference to what the
/// record held before.
pub fn update_participant(ctx: &mut UpdateParticipant, ball_balance: u64, clock: Clock) -> (result:
    Result<ParticipantUpdated, LotteryError>)
    ensures
        match result {
            Ok(event) => {
                &&& participant_update_error(*old(ctx), ball_balance) is None
                &&& final(ctx).participant == participant_after_update(
                    *old(ctx),
                    ball_balance,
                    clock,
                )
                &&& final(ctx).lottery_state == state_after_participant_update(
                    old(ctx).lottery_state,
                    old(ctx).participant.tickets_count,
                    tickets_for(ball_balance),
                    clock,
                )
                &&& final(ctx).user == old(ctx).user
                &&& final(ctx).ball_token_account == old(ctx).ball_token_account
                &&& event == (ParticipantUpdated {
                    wallet: old(ctx).user,
                    ball_balance,
                    tickets_count: tickets_for(ball_balance),
                    is_eligible: tickets_for(ball_balance) >= old(
                        ctx,
                    ).lottery_state.min_ticket_requirement,
                    old_tickets: old(ctx).participant.tickets_count,
                    timestamp: clock.unix_timestamp,
                })
                &&& final(ctx).participant.consistent_with(final(ctx).lottery_state)
            },
            Err(error) => {
                &&& participant_update_error(*old(ctx), ball_balance) == Some(error)
                &&& *final(ctx) == *old(ctx)
            },
        },
        old(ctx).lottery_state.wf() ==> final(ctx).lottery_state.wf(),
{
    if ctx.lottery_state.is_paused {
        return Err(LotteryError::ProgramPaused);
    }
    if ctx.lottery_state.emergency_stop {
        return Err(LotteryError::EmergencyStop);
    }
    if ctx.ball_token_account.mint != ctx.lottery_state.ball_token_mint {
        return Err(LotteryError::InvalidTokenMint);
    }
    if ctx.ball_token_account.owner != ctx.user {
        return Err(LotteryError::InvalidTokenOwner);
    }
    if ctx.ball_token_account.amount < ball_balance {
        return Err(LotteryError::InsufficientTokenBalance);
    }
    let old_tickets: u64 = ctx.participant.tickets_count;
    let new_tickets: u64 = ball_balance / TICKETS_PER_BALL_UNIT;
    if new_tickets > ctx.lottery_state.max_tickets_per_wallet {
        return Err(LotteryError::TooManyTickets);
    }
    let joining = old_tickets == 0 && new_tickets > 0;
    if joining {
        if ctx.participant.participation_count == u64::MAX || ctx.lottery_state.total_participants
            == u64::MAX {
            return Err(LotteryError::ArithmeticOverflow);
        }
        ctx.participant.participation_count = ctx.participant.participation_count + 1;
        ctx.lottery_state.total_participants = ctx.lottery_state.total_participants + 1;
    } else if old_tickets > 0 && new_tickets == 0 {
        ctx.lottery_state.total_participants = ctx.lottery_state.total_participants.saturating_sub(
            1,
        );
    }
    let is_eligible = new_tickets >= ctx.lottery_state.min_ticket_requirement;
    ctx.participant.wallet = ctx.user;
    ctx.participant.ball_balance = ball_balance;
    ctx.participant.tickets_count = new_tickets;
    ctx.participant.is_eligible = is_eligible;
    ctx.participant.last_updated = clock.unix_timestamp;
    ctx.participant.token_account = ctx.ball_token_account.key;
    ctx.lottery_state.total_tickets = ctx.lottery_state.total_tickets.saturating_sub(
        old_tickets,
    ).saturating_add(new_tickets);
    ctx.lottery_state.last_updated = clock.unix_timestamp;
    Ok(
        ParticipantUpdated {
            wallet: ctx.user,
            ball_balance,
            tickets_count: new_tickets,
            is_eligible,
            old_tickets,
            timestamp: clock.unix_timestamp,
        },
    )
}

} // verus!
