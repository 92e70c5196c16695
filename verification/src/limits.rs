//! Numeric limits of the ledger.

use vstd::prelude::*;

verus! {

/// Longest transaction signature, in characters, that a contribution or a
/// draw may carry.
pub const SIGNATURE_MAX_LEN: usize = 88;

/// Advisory ceiling on the participants of one draw; no operation enforces it.
pub const MAX_PARTICIPANTS_PER_LOTTERY: u64 = 10000;

/// Share of a contribution that goes to the hourly jackpot, in percent.
pub const HOURLY_JACKPOT_PERCENTAGE: u64 = 10;

/// Share of a contribution that goes to the daily jackpot, in percent.
pub const DAILY_JACKPOT_PERCENTAGE: u64 = 5;

/// Decimal places of the eligibility token.
pub const BALL_DECIMALS: u8 = 8;

/// Whole eligibility tokens that earn one ticket.
pub const TICKETS_PER_BALL: u64 = 10_000;

/// Token base units that earn one ticket: 10,000 whole tokens of 8 decimals.
pub const TICKETS_PER_BALL_UNIT: u64 = 1_000_000_000_000;

/// Smallest jackpot for which a draw may be created.
pub const MIN_JACKPOT_AMOUNT: u64 = 1_000_000;

/// Largest value either jackpot may hold.
pub const MAX_JACKPOT_AMOUNT: u64 = 1_000_000_000_000;

/// Basis points in a whole: the divisor of the fee rate.
pub const BASIS_POINTS: u64 = 10_000;

/// Highest fee rate that configuration accepts, in basis points.
pub const MAX_FEE_BPS: u64 = 1000;

/// Highest value of the minimum ticket requirement.
pub const MAX_MIN_TICKET_REQUIREMENT: u64 = 100;

/// Highest value of the per-wallet ticket ceiling.
pub const MAX_TICKETS_PER_WALLET_LIMIT: u64 = 10_000;

/// Ticket requirement of a freshly initialized ledger.
pub const DEFAULT_MIN_TICKET_REQUIREMENT: u64 = 1;

/// Per-wallet ticket ceiling of a freshly initialized ledger.
pub const DEFAULT_MAX_TICKETS_PER_WALLET: u64 = 1000;

/// Fee rate of a freshly initialized ledger, in basis points (2.5%).
pub const DEFAULT_FEE_BPS: u64 = 250;

/// Schema version written by `initialize`.
pub const SCHEMA_VERSION: u8 = 1;

} // verus!
