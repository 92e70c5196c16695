//! What holds of the operations taken together, proved from their models.

use vstd::prelude::*;
use crate::contexts::{CreateLottery, ExecuteLottery, PayWinner, UpdateParticipant};
use crate::contribution::{
    contribution_error, daily_share, fee_share, hourly_share, lemma_shares_within_amount,
    state_after_contribution,
};
use crate::draw::{
    creation_error, executed_draw, execution_error, is_new_draw, paid_draw, payment_error,
    state_after_creation,
};
use crate::errors::LotteryError;
use crate::identity::Identity;
use crate::limits::{BALL_DECIMALS, TICKETS_PER_BALL, TICKETS_PER_BALL_UNIT};
use crate::participant::{
    participant_after_update, participant_update_error, state_after_participant_update,
    tickets_for,
};
use crate::records::{
    Clock, ContributionSource, Lottery, LotteryState, LotteryStatus, LotteryType, Participant,
};

verus! {

/// One call of `contribute_to_jackpot`, as the ledger sees it.
pub struct ContributionCall {
    pub amount: u64,
    pub signature: Seq<char>,
    pub source: ContributionSource,
    pub clock: Clock,
}

/// Whether the ledger in `state` accepts the call.
pub open spec fn accepts(state: LotteryState, call: ContributionCall) -> bool {
    contribution_error(state, call.amount, call.signature, call.source) is None
}

/// The root record after one call: credited if accepted, untouched if not.
pub open spec fn after_contribution(state: LotteryState, call: ContributionCall) -> LotteryState {
    if accepts(state, call) {
        state_after_contribution(state, call.amount, call.source, call.clock)
    } else {
        state
    }
}

/// The root record after a sequence of calls, first to last.
pub open spec fn after_contributions(
    state: LotteryState,
    calls: Seq<ContributionCall>,
) -> LotteryState
    decreases calls.len(),
{
    if calls.len() == 0 {
        state
    } else {
        after_contribution(after_contributions(state, calls.drop_last()), calls.last())
    }
}

/// The three shares of one call together, or nothing if it is refused.
pub open spec fn credited_by(state: LotteryState, call: ContributionCall) -> int {
    if accepts(state, call) {
        fee_share(call.amount, state.fee_percentage, call.source) + hourly_share(
            call.amount,
            state.fee_percentage,
            call.source,
        ) + daily_share(call.amount, state.fee_percentage, call.source)
    } else {
        0
    }
}

/// The shares of all accepted calls of a sequence together.
pub open spec fn credited(state: LotteryState, calls: Seq<ContributionCall>) -> int
    decreases calls.len(),
{
    if calls.len() == 0 {
        0
    } else {
        credited(state, calls.drop_last()) + credited_by(
            after_contributions(state, calls.drop_last()),
            calls.last(),
        )
    }
}

/// The amounts of all accepted calls of a sequence together.
pub open spec fn accepted_volume(state: LotteryState, calls: Seq<ContributionCall>) -> int
    decreases calls.len(),
{
    if calls.len() == 0 {
        0
    } else {
        accepted_volume(state, calls.drop_last()) + if accepts(
            after_contributions(state, calls.drop_last()),
            calls.last(),
        ) {
            calls.last().amount as int
        } else {
            0
        }
    }
}

/// Conservation.  Over any sequence of contributions, the two jackpots and
/// the treasury together grow by exactly the shares computed for the
/// accepted calls; those shares are never negative and never exceed the
/// amounts contributed, so value is lost to truncation at most and never
/// created; the processed volume grows by exactly the accepted amounts; and
/// the record's invariant is kept.
pub proof fn law_conservation(state: LotteryState, calls: Seq<ContributionCall>)
    ensures
        after_contributions(state, calls).pooled() == state.pooled() + credited(state, calls),
        0 <= credited(state, calls) <= accepted_volume(state, calls),
        after_contributions(state, calls).total_volume_processed
            == state.total_volume_processed + accepted_volume(state, calls),
        state.wf() ==> after_contributions(state, calls).wf(),
    decreases calls.len(),
{
    if calls.len() > 0 {
        law_conservation(state, calls.drop_last());
        let before = after_contributions(state, calls.drop_last());
        let call = calls.last();
        if accepts(before, call) {
            lemma_shares_within_amount(call.amount, before.fee_percentage, call.source);
        }
    }
}

/// The records of `update_participant` after a call: rewritten if the report
/// is accepted, untouched if not.
pub open spec fn after_report(
    ctx: UpdateParticipant,
    ball_balance: u64,
    clock: Clock,
) -> UpdateParticipant {
    if participant_update_error(ctx, ball_balance) is None {
        UpdateParticipant {
            participant: participant_after_update(ctx, ball_balance, clock),
            lottery_state: state_after_participant_update(
                ctx.lottery_state,
                ctx.participant.tickets_count,
                tickets_for(ball_balance),
                clock,
            ),
            ..ctx
        }
    } else {
        ctx
    }
}

/// Repeated reports.  Reporting the same balance a second time is accepted
/// exactly if the first report was, and leaves the number of participants,
/// the number of tickets and the participant's own tickets, eligibility and
/// participations as the first report left them.
pub proof fn law_repeated_report(
    ctx: UpdateParticipant,
    ball_balance: u64,
    first: Clock,
    second: Clock,
)
    ensures
        ({
            let once = after_report(ctx, ball_balance, first);
            let twice = after_report(once, ball_balance, second);
            &&& participant_update_error(once, ball_balance) == participant_update_error(
                ctx,
                ball_balance,
            )
            &&& twice.lottery_state.total_participants == once.lottery_state.total_participants
            &&& twice.lottery_state.total_tickets == once.lottery_state.total_tickets
            &&& twice.participant.tickets_count == once.participant.tickets_count
            &&& twice.participant.is_eligible == once.participant.is_eligible
            &&& twice.participant.participation_count == once.participant.participation_count
        }),
{
}

/// No payout outside `Processing`.  A draw in any other status is refused,
/// whatever else holds.
pub proof fn law_only_processing_is_paid(ctx: PayWinner)
    requires
        ctx.lottery.status != LotteryStatus::Processing,
    ensures
        payment_error(ctx) is Some,
        !ctx.lottery_state.emergency_stop ==> payment_error(ctx) == Some(
            LotteryError::InvalidLotteryStatus,
        ),
{
}

/// No double payout.  Once `pay_winner` has recorded the payout of a draw,
/// every later payout of that draw is refused, in whatever state the ledger
/// then is and whoever asks; unless the ledger is stopped, the reason given
/// is the draw's status.
pub proof fn law_no_double_payout(first: PayWinner, clock: Clock, second: PayWinner)
    requires
        payment_error(first) is None,
        second.lottery == paid_draw(first.lottery, clock),
    ensures
        payment_error(second) is Some,
        !second.lottery_state.emergency_stop ==> payment_error(second) == Some(
            LotteryError::InvalidLotteryStatus,
        ),
{
}

/// Snapshot isolation.  A draw created from `state` carries that moment's
/// jackpot; whatever is contributed afterwards, the draw as executed still
/// carries exactly that amount, and it is the amount named for payout.
pub proof fn law_snapshot_isolation(
    state: LotteryState,
    lottery: Lottery,
    lottery_type: LotteryType,
    scheduled_time: i64,
    created_at: Clock,
    calls: Seq<ContributionCall>,
    admin: Identity,
    winner_participant: Participant,
    winner_wallet: Identity,
    vrf_seed: u64,
    transaction_signature: String,
    executed_at: Clock,
)
    requires
        is_new_draw(lottery, state, lottery_type, scheduled_time, created_at),
    ensures
        ({
            let live = after_contributions(
                state_after_creation(state, lottery_type, created_at),
                calls,
            );
            let ctx = ExecuteLottery { lottery, lottery_state: live, admin, winner_participant };
            let executed = executed_draw(
                ctx.lottery,
                winner_wallet,
                vrf_seed,
                transaction_signature,
                executed_at,
            );
            &&& ctx.lottery.jackpot_amount == state.jackpot_of(lottery_type)
            &&& executed.jackpot_amount == state.jackpot_of(lottery_type)
            &&& executed.total_participants == state.total_participants
            &&& executed.total_tickets == state.total_tickets
        }),
{
}

/// Eligibility gate.  A claimed winner without tickets is always refused.
/// Where the caller is the admin and the ledger is neither paused nor
/// stopped, the reason given is that the winner has no tickets, whatever
/// the draw, the time, the seed, the signature, the claimed winner and the
/// rest of the participant record are.
pub proof fn law_eligibility_gate(
    ctx: ExecuteLottery,
    winner_wallet: Identity,
    vrf_seed: u64,
    transaction_signature: Seq<char>,
    clock: Clock,
)
    requires
        ctx.winner_participant.tickets_count == 0,
    ensures
        execution_error(ctx, winner_wallet, vrf_seed, transaction_signature, clock) is Some,
        ctx.admin == ctx.lottery_state.admin && !ctx.lottery_state.is_paused
            && !ctx.lottery_state.emergency_stop ==> execution_error(
            ctx,
            winner_wallet,
            vrf_seed,
            transaction_signature,
            clock,
        ) == Some(LotteryError::WinnerHasNoTickets),
{
}

/// Bounded signatures.  A draw as created stores no signature, a draw as
/// executed stores one of at most `SIGNATURE_MAX_LEN` characters, and
/// recording the payout keeps it: a draw record that satisfies its
/// invariant keeps satisfying it through its whole lifecycle.
pub proof fn law_draw_signature_is_bounded(
    created: Lottery,
    state: LotteryState,
    lottery_type: LotteryType,
    scheduled_time: i64,
    created_at: Clock,
    ctx: ExecuteLottery,
    winner_wallet: Identity,
    vrf_seed: u64,
    transaction_signature: String,
    executed_at: Clock,
    lottery: Lottery,
    paid_at: Clock,
)
    ensures
        is_new_draw(created, state, lottery_type, scheduled_time, created_at) ==> created.wf(),
        execution_error(ctx, winner_wallet, vrf_seed, transaction_signature@, executed_at)
            is None ==> executed_draw(
            ctx.lottery,
            winner_wallet,
            vrf_seed,
            transaction_signature,
            executed_at,
        ).wf(),
        lottery.wf() ==> paid_draw(lottery, paid_at).wf(),
{
}

/// A draw is sealed once executed.  Execution is refused for every draw that
/// is not `Pending`, and recording the payout changes neither the snapshot
/// jackpot nor the winner nor the seed of the draw.
pub proof fn law_executed_draw_is_sealed(
    execution: ExecuteLottery,
    winner_wallet: Identity,
    vrf_seed: u64,
    transaction_signature: Seq<char>,
    clock: Clock,
    lottery: Lottery,
    paid_at: Clock,
)
    ensures
        execution.lottery.status != LotteryStatus::Pending ==> execution_error(
            execution,
            winner_wallet,
            vrf_seed,
            transaction_signature,
            clock,
        ) is Some,
        paid_draw(lottery, paid_at).jackpot_amount == lottery.jackpot_amount,
        paid_draw(lottery, paid_at).winner == lottery.winner,
        paid_draw(lottery, paid_at).vrf_seed == lottery.vrf_seed,
{
}

/// The stop halts the ledger.  While the pause flag or the emergency stop is
/// set, contributions, balance reports, and the creation and execution of
/// draws are all refused; while the emergency stop is set, so is payout.
pub proof fn law_stop_halts_operations(
    state: LotteryState,
    call: ContributionCall,
    report: UpdateParticipant,
    ball_balance: u64,
    creation: CreateLottery,
    lottery_type: LotteryType,
    scheduled_time: i64,
    execution: ExecuteLottery,
    winner_wallet: Identity,
    vrf_seed: u64,
    transaction_signature: Seq<char>,
    payment: PayWinner,
    clock: Clock,
)
    requires
        state.is_paused || state.emergency_stop,
        report.lottery_state == state,
        creation.lottery_state == state,
        execution.lottery_state == state,
        payment.lottery_state == state,
    ensures
        !accepts(state, call),
        participant_update_error(report, ball_balance) is Some,
        creation_error(creation, lottery_type, scheduled_time, clock) is Some,
        execution_error(execution, winner_wallet, vrf_seed, transaction_signature, clock) is Some,
        state.emergency_stop ==> payment_error(payment) == Some(LotteryError::EmergencyStop),
{
}

/// The ticket unit.  One ticket is earned by `TICKETS_PER_BALL` whole tokens
/// of `BALL_DECIMALS` decimal places.
pub proof fn law_ticket_unit()
    ensures
        TICKETS_PER_BALL_UNIT == TICKETS_PER_BALL * vstd::arithmetic::power::pow(
            10,
            BALL_DECIMALS as nat,
        ),
{
    reveal_with_fuel(vstd::arithmetic::power::pow, 9);
    assert(vstd::arithmetic::power::pow(10, 8) == 100_000_000);
}

/// A well-formed ledger never charges more than it is given: its fee rate is
/// at most a tenth, so the fee of a contribution is at most a tenth of the
/// amount, and no contribution is refused for a fee above the amount.
pub proof fn law_fee_within_amount(state: LotteryState, amount: u64, source: ContributionSource)
    requires
        state.wf(),
    ensures
        0 <= fee_share(amount, state.fee_percentage, source),
        fee_share(amount, state.fee_percentage, source) * 10 <= amount,
{
    if source == ContributionSource::RaydiumSwap {
        assert(0 <= amount * state.fee_percentage <= amount * 1000) by (nonlinear_arith)
            requires
                0 <= state.fee_percentage <= 1000,
                0 <= amount,
        ;
    }
}

/// Identities are their bytes: two identities are equal exactly when their
/// 32 bytes agree.
pub proof fn law_identity_is_its_bytes(a: Identity, b: Identity)
    ensures
        (a == b) <==> (a@ == b@),
{
    if a@ == b@ {
        assert(a.bytes =~= b.bytes);
    }
}

} // verus!
