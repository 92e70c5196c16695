//! Configuration policy: the ranges of the three policy values and how a
//! change is applied.

use vstd::prelude::*;
use crate::contexts::AdminAction;
use crate::errors::LotteryError;
use crate::events::ConfigUpdated;
use crate::limits::{MAX_FEE_BPS, MAX_MIN_TICKET_REQUIREMENT, MAX_TICKETS_PER_WALLET_LIMIT};
use crate::records::{Clock, LotteryState};

verus! {

/// A proposed ticket requirement is acceptable if absent or within 1..=100.
pub open spec fn min_tickets_acceptable(value: Option<u64>) -> bool {
    match value {
        Some(v) => 1 <= v <= MAX_MIN_TICKET_REQUIREMENT,
        None => true,
    }
}

/// A proposed per-wallet ceiling is acceptable if absent or within 1..=10000.
pub open spec fn max_tickets_acceptable(value: Option<u64>) -> bool {
    match value {
        Some(v) => 1 <= v <= MAX_TICKETS_PER_WALLET_LIMIT,
        None => true,
    }
}

/// A proposed fee rate is acceptable if absent or at most 1000 basis points.
pub open spec fn fee_acceptable(value: Option<u64>) -> bool {
    match value {
        Some(v) => v <= MAX_FEE_BPS,
        None => true,
    }
}

/// The reason, if any, for which a configuration change is refused: the
/// caller is not the admin, or some present value is out of its range.
pub open spec fn config_error(
    ctx: AdminAction,
    min_ticket_requirement: Option<u64>,
    max_tickets_per_wallet: Option<u64>,
    fee_percentage: Option<u64>,
) -> Option<LotteryError> {
    if ctx.admin != ctx.lottery_state.admin {
        Some(LotteryError::Unauthorized)
    } else if !min_tickets_acceptable(min_ticket_requirement) || !max_tickets_acceptable(
        max_tickets_per_wallet,
    ) || !fee_acceptable(fee_percentage) {
        Some(LotteryError::InvalidConfig)
    } else {
        None
    }
}

/// A policy value after a change: the proposed value if present, else the
/// value it had.
pub open spec fn chosen(proposed: Option<u64>, current: u64) -> u64 {
    match proposed {
        Some(v) => v,
        None => current,
    }
}

/// The root record once a configuration change is applied.
pub open spec fn state_after_config(
    state: LotteryState,
    min_ticket_requirement: Option<u64>,
    max_tickets_per_wallet: Option<u64>,
    fee_percentage: Option<u64>,
    clock: Clock,
) -> LotteryState {
    LotteryState {
        min_ticket_requirement: chosen(min_ticket_requirement, state.min_ticket_requirement),
        max_tickets_per_wallet: chosen(max_tickets_per_wallet, state.max_tickets_per_wallet),
        fee_percentage: chosen(fee_percentage, state.fee_percentage),
        last_updated: clock.unix_timestamp,
        ..state
    }
}

/// Changes the policy.  Each present value is validated on its own; if any
/// is out of range the whole change is refused and no value is applied.
pub fn update_config(
    ctx: &mut AdminAction,
    min_ticket_requirement: Option<u64>,
    max_tickets_per_wallet: Option<u64>,
    fee_percentage: Option<u64>,
    clock: Clock,
) -> (result: Result<ConfigUpdated, LotteryError>)
    ensures
        match result {
            Ok(event) => {
                &&& config_error(
                    *old(ctx),
                    min_ticket_requirement,
                    max_tickets_per_wallet,
                    fee_percentage,
                ) is None
                &&& final(ctx).lottery_state == state_after_config(
                    old(ctx).lottery_state,
                    min_ticket_requirement,
                    max_tickets_per_wallet,
                    fee_percentage,
                    clock,
                )
                &&& final(ctx).admin == old(ctx).admin
                &&& event == (ConfigUpdated {
                    admin: old(ctx).admin,
                    min_ticket_requirement,
                    max_tickets_per_wallet,
                    fee_percentage,
                    timestamp: clock.unix_timestamp,
                })
            },
            Err(error) => {
                &&& config_error(
                    *old(ctx),
                    min_ticket_requirement,
                    max_tickets_per_wallet,
                    fee_percentage,
                ) == Some(error)
                &&& *final(ctx) == *old(ctx)
            },
        },
        old(ctx).lottery_state.wf() ==> final(ctx).lottery_state.wf(),
{
    if ctx.admin != ctx.lottery_state.admin {
        return Err(LotteryError::Unauthorized);
    }
    let min_tickets: u64 = match min_ticket_requirement {
        Some(v) => {
            if v < 1 || v > MAX_MIN_TICKET_REQUIREMENT {
                return Err(LotteryError::InvalidConfig);
            }
            v
        },
        None => ctx.lottery_state.min_ticket_requirement,
    };
    let max_tickets: u64 = match max_tickets_per_wallet {
        Some(v) => {
            if v < 1 || v > MAX_TICKETS_PER_WALLET_LIMIT {
                return Err(LotteryError::InvalidConfig);
            }
            v
        },
        None => ctx.lottery_state.max_tickets_per_wallet,
    };
    let fee: u64 = match fee_percentage {
        Some(v) => {
            if v > MAX_FEE_BPS {
                return Err(LotteryError::InvalidConfig);
            }
            v
        },
        None => ctx.lottery_state.fee_percentage,
    };
    ctx.lottery_state.min_ticket_requirement = min_tickets;
    ctx.lottery_state.max_tickets_per_wallet = max_tickets;
    ctx.lottery_state.fee_percentage = fee;
    ctx.lottery_state.last_updated = clock.unix_timestamp;
    Ok(
        ConfigUpdated {
            admin: ctx.admin,
            min_ticket_requirement,
            max_tickets_per_wallet,
            fee_percentage,
            timestamp: clock.unix_timestamp,
        },
    )
}

} // verus!
