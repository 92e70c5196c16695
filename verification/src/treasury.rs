//! Treasury control: withdrawal of accumulated fees, and the emergency stop.

use vstd::prelude::*;
use crate::contexts::{AdminAction, WithdrawTreasury};
use crate::errors::LotteryError;
use crate::events::{EmergencyPause, EmergencyResume, TreasuryWithdrawal};
use crate::records::{Clock, FundTransfer, LotteryState};

verus! {

/// The first reason, if any, for which a withdrawal is refused.  The checks
/// come in this order: the caller is the admin; the amount is not zero; the
/// treasury holds at least the amount.
pub open spec fn withdrawal_error(ctx: WithdrawTreasury, amount: u64) -> Option<LotteryError> {
    if ctx.admin != ctx.lottery_state.admin {
        Some(LotteryError::Unauthorized)
    } else if amount == 0 {
        Some(LotteryError::InvalidAmount)
    } else if ctx.lottery_state.treasury_balance < amount {
        Some(LotteryError::InsufficientTreasuryBalance)
    } else {
        None
    }
}

/// The root record once `amount` has left the treasury.
pub open spec fn state_after_withdrawal(state: LotteryState, amount: u64, clock: Clock) -> LotteryState {
    LotteryState {
        treasury_balance: (state.treasury_balance - amount) as u64,
        last_updated: clock.unix_timestamp,
        ..state
    }
}

/// Decides whether `amount` may be withdrawn, and if so names the transfer
/// that carries it to the treasury wallet.  Nothing is recorded yet: the
/// caller has the transfer performed and, only once it has succeeded,
/// calls `withdraw_treasury`, so that a failed transfer never lowers the
/// recorded balance.
pub fn withdrawal_transfer(ctx: &WithdrawTreasury, amount: u64) -> (result: Result<
    FundTransfer,
    LotteryError,
>)
    ensures
        match result {
            Ok(transfer) => {
                &&& withdrawal_error(*ctx, amount) is None
                &&& transfer.destination == ctx.treasury_wallet
                &&& transfer.amount == amount
            },
            Err(error) => withdrawal_error(*ctx, amount) == Some(error),
        },
{
    if ctx.admin != ctx.lottery_state.admin {
        return Err(LotteryError::Unauthorized);
    }
    if amount == 0 {
        return Err(LotteryError::InvalidAmount);
    }
    if ctx.lottery_state.treasury_balance < amount {
        return Err(LotteryError::InsufficientTreasuryBalance);
    }
    Ok(FundTransfer { destination: ctx.treasury_wallet, amount })
}

/// Records a withdrawal whose transfer, named by `withdrawal_transfer`, has
/// succeeded: the treasury balance drops by exactly `amount`.
pub fn withdraw_treasury(ctx: &mut WithdrawTreasury, amount: u64, clock: Clock) -> (result: Result<
    TreasuryWithdrawal,
    LotteryError,
>)
    ensures
        match result {
            Ok(event) => {
                &&& withdrawal_error(*old(ctx), amount) is None
                &&& final(ctx).lottery_state == state_after_withdrawal(
                    old(ctx).lottery_state,
                    amount,
                    clock,
                )
                &&& final(ctx).admin == old(ctx).admin
                &&& final(ctx).treasury_wallet == old(ctx).treasury_wallet
                &&& event == (TreasuryWithdrawal {
                    admin: old(ctx).admin,
                    treasury_wallet: old(ctx).treasury_wallet,
                    amount,
                    timestamp: clock.unix_timestamp,
                })
                &&& final(ctx).lottery_state.pooled() == old(ctx).lottery_state.pooled() - amount
            },
            Err(error) => {
                &&& withdrawal_error(*old(ctx), amount) == Some(error)
                &&& *final(ctx) == *old(ctx)
            },
        },
        old(ctx).lottery_state.wf() ==> final(ctx).lottery_state.wf(),
{
    match withdrawal_transfer(ctx, amount) {
        Err(error) => Err(error),
        Ok(transfer) => {
            ctx.lottery_state.treasury_balance = ctx.lottery_state.treasury_balance - amount;
            ctx.lottery_state.last_updated = clock.unix_timestamp;
            Ok(
                TreasuryWithdrawal {
                    admin: ctx.admin,
                    treasury_wallet: transfer.destination,
                    amount,
                    timestamp: clock.unix_timestamp,
                },
            )
        },
    }
}

/// The root record with both safety flags set to `stopped`.
pub open spec fn state_with_stop(state: LotteryState, stopped: bool, clock: Clock) -> LotteryState {
    LotteryState {
        emergency_stop: stopped,
        is_paused: stopped,
        last_updated: clock.unix_timestamp,
        ..state
    }
}

/// Stops the ledger: sets the pause flag and the emergency stop together.
/// Only the admin may; for anyone else nothing changes.
pub fn emergency_pause(ctx: &mut AdminAction, reason: String, clock: Clock) -> (result: Result<
    EmergencyPause,
    LotteryError,
>)
    ensures
        match result {
            Ok(event) => {
                &&& old(ctx).admin == old(ctx).lottery_state.admin
                &&& final(ctx).lottery_state == state_with_stop(old(ctx).lottery_state, true, clock)
                &&& final(ctx).admin == old(ctx).admin
                &&& event == (EmergencyPause {
                    admin: old(ctx).admin,
                    reason,
                    timestamp: clock.unix_timestamp,
                })
            },
            Err(error) => {
                &&& old(ctx).admin != old(ctx).lottery_state.admin
                &&& error == LotteryError::Unauthorized
                &&& *final(ctx) == *old(ctx)
            },
        },
        old(ctx).lottery_state.wf() ==> final(ctx).lottery_state.wf(),
{
    if ctx.admin != ctx.lottery_state.admin {
        return Err(LotteryError::Unauthorized);
    }
    ctx.lottery_state.emergency_stop = true;
    ctx.lottery_state.is_paused = true;
    ctx.lottery_state.last_updated = clock.unix_timestamp;
    Ok(EmergencyPause { admin: ctx.admin, reason, timestamp: clock.unix_timestamp })
}

/// Lifts the stop: clears the pause flag and the emergency stop together.
/// Only the admin may; for anyone else nothing changes.
pub fn emergency_resume(ctx: &mut AdminAction, reason: String, clock: Clock) -> (result: Result<
    EmergencyResume,
    LotteryError,
>)
    ensures
        match result {
            Ok(event) => {
                &&& old(ctx).admin == old(ctx).lottery_state.admin
                &&& final(ctx).lottery_state == state_with_stop(
                    old(ctx).lottery_state,
                    false,
                    clock,
                )
                &&& final(ctx).admin == old(ctx).admin
                &&& event == (EmergencyResume {
                    admin: old(ctx).admin,
                    reason,
                    timestamp: clock.unix_timestamp,
                })
            },
            Err(error) => {
                &&& old(ctx).admin != old(ctx).lottery_state.admin
                &&& error == LotteryError::Unauthorized
                &&& *final(ctx) == *old(ctx)
            },
        },
        old(ctx).lottery_state.wf() ==> final(ctx).lottery_state.wf(),
{
    if ctx.admin != ctx.lottery_state.admin {
        return Err(LotteryError::Unauthorized);
    }
    ctx.lottery_state.emergency_stop = false;
    ctx.lottery_state.is_paused = false;
    ctx.lottery_state.last_updated = clock.unix_timestamp;
    Ok(EmergencyResume { admin: ctx.admin, reason, timestamp: clock.unix_timestamp })
}

} // verus!
