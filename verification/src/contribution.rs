//! Contributions: how incoming value is split between the two jackpots and
//! the treasury, and when it is refused.

use vstd::prelude::*;
use crate::contexts::ContributeToJackpot;
use crate::errors::LotteryError;
use crate::events::JackpotContribution;
use crate::limits::{
    BASIS_POINTS, DAILY_JACKPOT_PERCENTAGE, HOURLY_JACKPOT_PERCENTAGE, MAX_JACKPOT_AMOUNT,
    SIGNATURE_MAX_LEN,
};
use crate::records::{Clock, ContributionSource, LotteryState};

verus! {

/// The fee taken from a contribution: the fee rate, in basis points, of a
/// swap; nothing of a direct deposit or of a treasury top-up.
pub open spec fn fee_share(amount: u64, fee_bps: u64, source: ContributionSource) -> int {
    match source {
        ContributionSource::RaydiumSwap => amount * fee_bps / (BASIS_POINTS as int),
        ContributionSource::DirectDeposit => 0,
        ContributionSource::Treasury => 0,
    }
}

/// What a contribution adds to the hourly jackpot: a tenth of what is left
/// after the fee, or half of a treasury top-up.
pub open spec fn hourly_share(amount: u64, fee_bps: u64, source: ContributionSource) -> int {
    match source {
        ContributionSource::Treasury => (amount / 2) as int,
        _ => (amount - fee_share(amount, fee_bps, source)) * HOURLY_JACKPOT_PERCENTAGE / 100,
    }
}

/// What a contribution adds to the daily jackpot: a twentieth of what is
/// left after the fee, or half of a treasury top-up.
pub open spec fn daily_share(amount: u64, fee_bps: u64, source: ContributionSource) -> int {
    match source {
        ContributionSource::Treasury => (amount / 2) as int,
        _ => (amount - fee_share(amount, fee_bps, source)) * DAILY_JACKPOT_PERCENTAGE / 100,
    }
}

/// The first reason, if any, for which a contribution is refused.  The
/// checks come in this order: the ledger is neither paused nor stopped; the
/// amount is not zero; the signature is short enough; the fee does not
/// exceed the amount; neither jackpot would pass its ceiling; the treasury
/// balance and the processed volume still fit their counters.
pub open spec fn contribution_error(
    state: LotteryState,
    amount: u64,
    signature: Seq<char>,
    source: ContributionSource,
) -> Option<LotteryError> {
    let fee = fee_share(amount, state.fee_percentage, source);
    let hourly = hourly_share(amount, state.fee_percentage, source);
    let daily = daily_share(amount, state.fee_percentage, source);
    if state.is_paused {
        Some(LotteryError::ProgramPaused)
    } else if state.emergency_stop {
        Some(LotteryError::EmergencyStop)
    } else if amount == 0 {
        Some(LotteryError::InvalidAmount)
    } else if signature.len() > SIGNATURE_MAX_LEN {
        Some(LotteryError::SignatureTooLong)
    } else if fee > amount {
        Some(LotteryError::ArithmeticOverflow)
    } else if state.hourly_jackpot_sol + hourly > MAX_JACKPOT_AMOUNT || state.daily_jackpot_sol
        + daily > MAX_JACKPOT_AMOUNT {
        Some(LotteryError::JackpotTooLarge)
    } else if state.treasury_balance + fee > u64::MAX || state.total_volume_processed + amount
        > u64::MAX {
        Some(LotteryError::ArithmeticOverflow)
    } else {
        None
    }
}

/// The root record once a contribution is credited: each jackpot grown by
/// its share, the treasury by the fee, the processed volume by the amount.
pub open spec fn state_after_contribution(
    state: LotteryState,
    amount: u64,
    source: ContributionSource,
    clock: Clock,
) -> LotteryState {
    LotteryState {
        hourly_jackpot_sol: (state.hourly_jackpot_sol + hourly_share(
            amount,
            state.fee_percentage,
            source,
        )) as u64,
        daily_jackpot_sol: (state.daily_jackpot_sol + daily_share(
            amount,
            state.fee_percentage,
            source,
        )) as u64,
        treasury_balance: (state.treasury_balance + fee_share(
            amount,
            state.fee_percentage,
            source,
        )) as u64,
        total_volume_processed: (state.total_volume_processed + amount) as u64,
        last_updated: clock.unix_timestamp,
        ..state
    }
}

/// Where the fee does not exceed the amount, no share is negative and the
/// three shares together never exceed the amount: truncation may lose
/// value, it never creates any.  A treasury top-up loses at most one unit.
pub proof fn lemma_shares_within_amount(amount: u64, fee_bps: u64, source: ContributionSource)
    requires
        fee_share(amount, fee_bps, source) <= amount,
    ensures
        0 <= fee_share(amount, fee_bps, source),
        0 <= hourly_share(amount, fee_bps, source),
        0 <= daily_share(amount, fee_bps, source),
        fee_share(amount, fee_bps, source) + hourly_share(amount, fee_bps, source) + daily_share(
            amount,
            fee_bps,
            source,
        ) <= amount,
        source == ContributionSource::Treasury ==> fee_share(amount, fee_bps, source)
            + hourly_share(amount, fee_bps, source) + daily_share(amount, fee_bps, source) >= amount
            - 1,
{
    if source == ContributionSource::RaydiumSwap {
        assert(0 <= amount * fee_bps) by (nonlinear_arith)
            requires
                0 <= fee_bps,
                0 <= amount,
        ;
    }
}

/// The three shares of a contribution, computed without overflow.
/// `None` where the fee would exceed the amount.
fn split_contribution(amount: u64, fee_bps: u64, source: ContributionSource) -> (shares: Option<
    (u64, u64, u64),
>)
    ensures
        match shares {
            Some((hourly, daily, fee)) => {
                &&& fee_share(amount, fee_bps, source) <= amount
                &&& hourly == hourly_share(amount, fee_bps, source)
                &&& daily == daily_share(amount, fee_bps, source)
                &&& fee == fee_share(amount, fee_bps, source)
            },
            None => fee_share(amount, fee_bps, source) > amount,
        },
{
    let fee: u64 = match source {
        ContributionSource::RaydiumSwap => {
            assert(amount * fee_bps <= u64::MAX * u64::MAX) by (nonlinear_arith)
                requires
                    0 <= amount <= u64::MAX,
                    0 <= fee_bps <= u64::MAX,
            ;
            let wide: u128 = (amount as u128) * (fee_bps as u128) / (BASIS_POINTS as u128);
            if wide > amount as u128 {
                return None;
            }
            wide as u64
        },
        _ => 0,
    };
    proof {
        lemma_shares_within_amount(amount, fee_bps, source);
    }
    match source {
        ContributionSource::Treasury => Some((amount / 2, amount / 2, fee)),
        _ => {
            let net: u128 = (amount - fee) as u128;
            let hourly: u128 = net * (HOURLY_JACKPOT_PERCENTAGE as u128) / 100;
            let daily: u128 = net * (DAILY_JACKPOT_PERCENTAGE as u128) / 100;
            Some((hourly as u64, daily as u64, fee))
        },
    }
}

/// Credits a contribution of `sol_amount` from the declared `source`.
/// Either every counter moves by its share, or the contribution is refused
/// whole and nothing moves.  What the jackpots and the treasury gain
/// together is the sum of the three shares, which never exceeds the amount.
pub fn contribute_to_jackpot(
    ctx: &mut ContributeToJackpot,
    sol_amount: u64,
    transaction_signature: String,
    source: ContributionSource,
    clock: Clock,
) -> (result: Result<JackpotContribution, LotteryError>)
    ensures
        match result {
            Ok(event) => {
                &&& contribution_error(
                    old(ctx).lottery_state,
                    sol_amount,
                    transaction_signature@,
                    source,
                ) is None
                &&& final(ctx).lottery_state == state_after_contribution(
                    old(ctx).lottery_state,
                    sol_amount,
                    source,
                    clock,
                )
                &&& final(ctx).contributor == old(ctx).contributor
                &&& event.contributor == old(ctx).contributor
                &&& event.sol_amount == sol_amount
                &&& event.hourly_contribution == hourly_share(
                    sol_amount,
                    old(ctx).lottery_state.fee_percentage,
                    source,
                )
                &&& event.daily_contribution == daily_share(
                    sol_amount,
                    old(ctx).lottery_state.fee_percentage,
                    source,
                )
                &&& event.fee_amount == fee_share(
                    sol_amount,
                    old(ctx).lottery_state.fee_percentage,
                    source,
                )
                &&& event.source == source
                &&& event.transaction_signature == transaction_signature
                &&& event.timestamp == clock.unix_timestamp
                &&& final(ctx).lottery_state.pooled() == old(ctx).lottery_state.pooled()
                    + event.hourly_contribution + event.daily_contribution + event.fee_amount
                &&& final(ctx).lottery_state.pooled() <= old(ctx).lottery_state.pooled()
                    + sol_amount
                &&& final(ctx).lottery_state.total_volume_processed == old(
                    ctx,
                ).lottery_state.total_volume_processed + sol_amount
            },
            Err(error) => {
                &&& contribution_error(
                    old(ctx).lottery_state,
                    sol_amount,
                    transaction_signature@,
                    source,
                ) == Some(error)
                &&& *final(ctx) == *old(ctx)
            },
        },
        old(ctx).lottery_state.wf() ==> final(ctx).lottery_state.wf(),
{
    if ctx.lottery_state.is_paused {
        return Err(LotteryError::ProgramPaused);
    }
    if ctx.lottery_state.emergency_stop {
        return Err(LotteryError::EmergencyStop);
    }
    if sol_amount == 0 {
        return Err(LotteryError::InvalidAmount);
    }
    if transaction_signature.as_str().unicode_len() > SIGNATURE_MAX_LEN {
        return Err(LotteryError::SignatureTooLong);
    }
    let (hourly, daily, fee) = match split_contribution(
        sol_amount,
        ctx.lottery_state.fee_percentage,
        source,
    ) {
        Some(shares) => shares,
        None => {
            return Err(LotteryError::ArithmeticOverflow);
        },
    };
    if hourly > MAX_JACKPOT_AMOUNT || ctx.lottery_state.hourly_jackpot_sol > MAX_JACKPOT_AMOUNT
        - hourly {
        return Err(LotteryError::JackpotTooLarge);
    }
    if daily > MAX_JACKPOT_AMOUNT || ctx.lottery_state.daily_jackpot_sol > MAX_JACKPOT_AMOUNT
        - daily {
        return Err(LotteryError::JackpotTooLarge);
    }
    let treasury_balance = match ctx.lottery_state.treasury_balance.checked_add(fee) {
        Some(sum) => sum,
        None => {
            return Err(LotteryError::ArithmeticOverflow);
        },
    };
    let total_volume_processed = match ctx.lottery_state.total_volume_processed.checked_add(
        sol_amount,
    ) {
        Some(sum) => sum,
        None => {
            return Err(LotteryError::ArithmeticOverflow);
        },
    };
    proof {
        lemma_shares_within_amount(sol_amount, ctx.lottery_state.fee_percentage, source);
    }
    ctx.lottery_state.hourly_jackpot_sol = ctx.lottery_state.hourly_jackpot_sol + hourly;
    ctx.lottery_state.daily_jackpot_sol = ctx.lottery_state.daily_jackpot_sol + daily;
    ctx.lottery_state.treasury_balance = treasury_balance;
    ctx.lottery_state.total_volume_processed = total_volume_processed;
    ctx.lottery_state.last_updated = clock.unix_timestamp;
    Ok(
        JackpotContribution {
            contributor: ctx.contributor,
            sol_amount,
            hourly_contribution: hourly,
            daily_contribution: daily,
            fee_amount: fee,
            source,
            transaction_signature,
            timestamp: clock.unix_timestamp,
        },
    )
}

} // verus!
