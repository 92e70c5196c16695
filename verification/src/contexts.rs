//! What each operation is handed: the records it reads and writes as a unit,
//! and the identities of the callers who signed for it.

use vstd::prelude::*;
use crate::identity::Identity;
use crate::records::{Lottery, LotteryState, Participant, TokenAccountSnapshot};

verus! {

/// Records of `initialize`.
#[derive(Clone, Copy, Debug, PartialEq, Eq)]
pub struct Initialize {
    pub lottery_state: LotteryState,
    /// The caller who pays for the root record.
    pub admin: Identity,
}

/// Records of `contribute_to_jackpot`.
#[derive(Clone, Copy, Debug, PartialEq, Eq)]
pub struct ContributeToJackpot {
    pub lottery_state: LotteryState,
    pub contributor: Identity,
}

/// Records of `update_participant`.
#[derive(Clone, Copy, Debug, PartialEq, Eq)]
pub struct UpdateParticipant {
    /// The caller's record, blank if this is the first report.
    pub participant: Participant,
    pub lottery_state: LotteryState,
    /// The wallet that signed.
    pub user: Identity,
    pub ball_token_account: TokenAccountSnapshot,
}

/// Records of `create_lottery`.
#[derive(Clone, Debug, PartialEq, Eq)]
pub struct CreateLottery {
    /// The blank record that the new draw is written into.
    pub lottery: Lottery,
    pub lottery_state: LotteryState,
    /// The caller, who must be the stored admin.
    pub admin: Identity,
}

/// Records of `execute_lottery`.
#[derive(Clone, Debug, PartialEq, Eq)]
pub struct ExecuteLottery {
    pub lottery: Lottery,
    pub lottery_state: LotteryState,
    /// The caller, who must be the stored admin.
    pub admin: Identity,
    /// The record of the claimed winner.
    pub winner_participant: Participant,
}

/// Records of `pay_winner`.
#[derive(Clone, Debug, PartialEq, Eq)]
pub struct PayWinner {
    pub lottery: Lottery,
    pub lottery_state: LotteryState,
    /// The identity that is to receive the jackpot.
    pub winner: Identity,
    /// The ledger's custodied funds as they stood when the operation began.
    pub program_balance: u64,
}

/// Records of the admin's operations on the root record alone.
#[derive(Clone, Copy, Debug, PartialEq, Eq)]
pub struct AdminAction {
    pub lottery_state: LotteryState,
    /// The caller, who must be the stored admin.
    pub admin: Identity,
}

/// Records of `withdraw_treasury`.
#[derive(Clone, Copy, Debug, PartialEq, Eq)]
pub struct WithdrawTreasury {
    pub lottery_state: LotteryState,
    /// The caller, who must be the stored admin.
    pub admin: Identity,
    /// Where the withdrawn fees go.
    pub treasury_wallet: Identity,
}

/// Records of `get_lottery_state`.
#[derive(Clone, Copy, Debug, PartialEq, Eq)]
pub struct GetLotteryState {
    pub lottery_state: LotteryState,
}

} // verus!
