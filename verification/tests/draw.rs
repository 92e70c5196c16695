use lottery_solana::{
    create_lottery, execute_lottery, pay_winner, payout_transfer, Clock, CreateLottery,
    ExecuteLottery, Identity, Lottery, LotteryError, LotteryState, LotteryStatus, LotteryType,
    Participant, PayWinner,
};

fn key(tag: u8) -> Identity {
    Identity::new([tag; 32])
}

fn at(unix_timestamp: i64) -> Clock {
    Clock { unix_timestamp, slot: 8 }
}

fn running_state() -> LotteryState {
    LotteryState {
        admin: key(2),
        ball_token_mint: key(1),
        hourly_jackpot_sol: 1_000_000,
        daily_jackpot_sol: 2_000_000,
        total_participants: 3,
        total_tickets: 12,
        min_ticket_requirement: 1,
        max_tickets_per_wallet: 1000,
        fee_percentage: 250,
        version: 1,
        ..LotteryState::default()
    }
}

fn creation() -> CreateLottery {
    CreateLottery { lottery: Lottery::default(), lottery_state: running_state(), admin: key(2) }
}

fn pending_draw() -> Lottery {
    Lottery {
        draw_id: 4,
        lottery_type: LotteryType::Hourly,
        scheduled_time: 1_000,
        status: LotteryStatus::Pending,
        jackpot_amount: 1_500_000,
        total_participants: 3,
        total_tickets: 12,
        created_at: 900,
        block_hash: 5,
        ..Lottery::default()
    }
}

fn execution() -> ExecuteLottery {
    ExecuteLottery {
        lottery: pending_draw(),
        lottery_state: running_state(),
        admin: key(2),
        winner_participant: Participant {
            wallet: key(3),
            tickets_count: 4,
            is_eligible: true,
            ..Participant::default()
        },
    }
}

fn payment() -> PayWinner {
    PayWinner {
        lottery: Lottery {
            status: LotteryStatus::Processing,
            winner: key(3),
            vrf_seed: 5,
            executed_time: 1_000,
            ..pending_draw()
        },
        lottery_state: running_state(),
        winner: key(3),
        program_balance: 1_500_000,
    }
}

fn refuse_creation(mut ctx: CreateLottery, scheduled: i64, now: i64, expected: LotteryError) {
    let before = ctx.clone();
    assert_eq!(create_lottery(&mut ctx, LotteryType::Hourly, scheduled, at(now)), Err(expected));
    assert_eq!(ctx, before);
}

fn refuse_execution(mut ctx: ExecuteLottery, winner: Identity, seed: u64, now: i64, expected: LotteryError) {
    let before = ctx.clone();
    assert_eq!(execute_lottery(&mut ctx, winner, seed, String::from("x"), at(now)), Err(expected));
    assert_eq!(ctx, before);
}

fn refuse_payment(mut ctx: PayWinner, expected: LotteryError) {
    let before = ctx.clone();
    assert_eq!(payout_transfer(&ctx), Err(expected));
    assert_eq!(pay_winner(&mut ctx, at(2_000)), Err(expected));
    assert_eq!(ctx, before);
}

#[test]
fn creation_at_the_minimum_jackpot() {
    let mut ctx = creation();
    let event = create_lottery(&mut ctx, LotteryType::Hourly, 101, at(100)).unwrap();
    assert_eq!(event.lottery_id, 1);
    assert_eq!(event.lottery_type, LotteryType::Hourly);
    assert_eq!(event.scheduled_time, 101);
    assert_eq!(event.jackpot_amount, 1_000_000);
    assert_eq!(event.total_participants, 3);
    assert_eq!(event.total_tickets, 12);
    assert_eq!(event.timestamp, 100);
    assert_eq!(
        ctx.lottery,
        Lottery {
            draw_id: 1,
            lottery_type: LotteryType::Hourly,
            scheduled_time: 101,
            executed_time: 0,
            status: LotteryStatus::Pending,
            jackpot_amount: 1_000_000,
            total_participants: 3,
            total_tickets: 12,
            winner: Identity::default(),
            vrf_seed: 0,
            transaction_signature: String::new(),
            slot_number: 0,
            payout_time: 0,
            created_at: 100,
            gas_used: 0,
            block_hash: 8,
        }
    );
    assert_eq!(
        ctx.lottery_state,
        LotteryState { hourly_draw_count: 1, last_updated: 100, ..running_state() }
    );
}

#[test]
fn draw_ids_count_up_per_type() {
    let mut ctx = creation();
    ctx.lottery_state.hourly_draw_count = 6;
    ctx.lottery_state.daily_draw_count = 2;
    let hourly = create_lottery(&mut ctx, LotteryType::Hourly, 101, at(100)).unwrap();
    assert_eq!(hourly.lottery_id, 7);
    let daily = create_lottery(&mut ctx, LotteryType::Daily, 101, at(100)).unwrap();
    assert_eq!(daily.lottery_id, 3);
    assert_eq!(daily.jackpot_amount, 2_000_000);
    assert_eq!(ctx.lottery_state.hourly_draw_count, 7);
    assert_eq!(ctx.lottery_state.daily_draw_count, 3);
}

#[test]
fn creation_by_a_stranger_is_refused() {
    let mut ctx = creation();
    ctx.admin = key(9);
    refuse_creation(ctx, 101, 100, LotteryError::Unauthorized);
}

#[test]
fn creation_is_refused_while_paused_or_stopped() {
    let mut ctx = creation();
    ctx.lottery_state.is_paused = true;
    refuse_creation(ctx, 101, 100, LotteryError::ProgramPaused);
    let mut ctx = creation();
    ctx.lottery_state.emergency_stop = true;
    refuse_creation(ctx, 101, 100, LotteryError::EmergencyStop);
}

#[test]
fn creation_needs_a_time_strictly_in_the_future() {
    refuse_creation(creation(), 100, 100, LotteryError::InvalidScheduledTime);
    refuse_creation(creation(), 99, 100, LotteryError::InvalidScheduledTime);
}

#[test]
fn creation_needs_participants() {
    let mut ctx = creation();
    ctx.lottery_state.total_participants = 0;
    refuse_creation(ctx, 101, 100, LotteryError::NoParticipants);
}

#[test]
fn creation_needs_the_minimum_jackpot() {
    let mut ctx = creation();
    ctx.lottery_state.hourly_jackpot_sol = 999_999;
    refuse_creation(ctx, 101, 100, LotteryError::InsufficientJackpot);
}

#[test]
fn creation_with_a_full_counter_is_refused() {
    let mut ctx = creation();
    ctx.lottery_state.hourly_draw_count = u32::MAX;
    refuse_creation(ctx, 101, 100, LotteryError::ArithmeticOverflow);
}

#[test]
fn execution_at_the_scheduled_time() {
    let mut ctx = execution();
    let event =
        execute_lottery(&mut ctx, key(3), 1, String::from("signature"), at(1_000)).unwrap();
    assert_eq!(event.lottery_id, 4);
    assert_eq!(event.lottery_type, LotteryType::Hourly);
    assert_eq!(event.winner, key(3));
    assert_eq!(event.jackpot_amount, 1_500_000);
    assert_eq!(event.total_participants, 3);
    assert_eq!(event.total_tickets, 12);
    assert_eq!(event.winner_tickets, 4);
    assert_eq!(event.vrf_seed, 1);
    assert_eq!(event.transaction_signature, "signature");
    assert_eq!(event.timestamp, 1_000);
    assert_eq!(event.slot, 8);
    assert_eq!(
        ctx.lottery,
        Lottery {
            status: LotteryStatus::Processing,
            winner: key(3),
            vrf_seed: 1,
            executed_time: 1_000,
            transaction_signature: String::from("signature"),
            slot_number: 8,
            ..pending_draw()
        }
    );
    assert_eq!(
        ctx.lottery_state,
        LotteryState {
            hourly_jackpot_sol: 0,
            last_hourly_draw: 1_000,
            last_updated: 1_000,
            ..running_state()
        }
    );
}

#[test]
fn execution_by_a_stranger_is_refused() {
    let mut ctx = execution();
    ctx.admin = key(9);
    refuse_execution(ctx, key(3), 1, 1_000, LotteryError::Unauthorized);
}

#[test]
fn execution_is_refused_while_paused_or_stopped() {
    let mut ctx = execution();
    ctx.lottery_state.is_paused = true;
    refuse_execution(ctx, key(3), 1, 1_000, LotteryError::ProgramPaused);
    let mut ctx = execution();
    ctx.lottery_state.emergency_stop = true;
    refuse_execution(ctx, key(3), 1, 1_000, LotteryError::EmergencyStop);
}

#[test]
fn only_a_pending_draw_is_executed() {
    for status in [
        LotteryStatus::Processing,
        LotteryStatus::Completed,
        LotteryStatus::Cancelled,
        LotteryStatus::Failed,
    ] {
        let mut ctx = execution();
        ctx.lottery.status = status;
        refuse_execution(ctx, key(3), 1, 1_000, LotteryError::InvalidLotteryStatus);
    }
}

#[test]
fn execution_needs_snapshot_participants_and_jackpot() {
    let mut ctx = execution();
    ctx.lottery.total_participants = 0;
    refuse_execution(ctx, key(3), 1, 1_000, LotteryError::NoParticipants);
    let mut ctx = execution();
    ctx.lottery.jackpot_amount = 0;
    refuse_execution(ctx, key(3), 1, 1_000, LotteryError::InsufficientJackpot);
}

#[test]
fn execution_before_the_scheduled_time_is_refused() {
    refuse_execution(execution(), key(3), 1, 999, LotteryError::TooEarly);
}

#[test]
fn execution_needs_a_seed() {
    refuse_execution(execution(), key(3), 0, 1_000, LotteryError::InvalidVRFSeed);
}

#[test]
fn execution_needs_the_winners_own_record() {
    refuse_execution(execution(), key(7), 1, 1_000, LotteryError::InvalidWinner);
}

#[test]
fn execution_needs_an_eligible_winner() {
    let mut ctx = execution();
    ctx.winner_participant.is_eligible = false;
    refuse_execution(ctx, key(3), 1, 1_000, LotteryError::WinnerNotEligible);
}

#[test]
fn winner_without_tickets_is_refused() {
    let mut ctx = execution();
    ctx.winner_participant.tickets_count = 0;
    refuse_execution(ctx, key(3), 1, 1_000, LotteryError::WinnerHasNoTickets);
}

#[test]
fn winner_without_tickets_is_refused_whatever_else_holds() {
    let mut ctx = execution();
    ctx.winner_participant.tickets_count = 0;
    ctx.winner_participant.is_eligible = false;
    refuse_execution(ctx, key(3), 1, 1_000, LotteryError::WinnerHasNoTickets);

    for status in [
        LotteryStatus::Processing,
        LotteryStatus::Completed,
        LotteryStatus::Cancelled,
        LotteryStatus::Failed,
    ] {
        let mut ctx = execution();
        ctx.winner_participant.tickets_count = 0;
        ctx.lottery.status = status;
        refuse_execution(ctx, key(3), 1, 1_000, LotteryError::WinnerHasNoTickets);
    }

    let mut ctx = execution();
    ctx.winner_participant.tickets_count = 0;
    ctx.lottery.total_participants = 0;
    ctx.lottery.jackpot_amount = 0;
    refuse_execution(ctx, key(3), 1, 1_000, LotteryError::WinnerHasNoTickets);

    // too early, no seed, another wallet's record, all at once
    let mut ctx = execution();
    ctx.winner_participant.tickets_count = 0;
    ctx.winner_participant.is_eligible = false;
    refuse_execution(ctx, key(7), 0, 999, LotteryError::WinnerHasNoTickets);

    let mut ctx = execution();
    ctx.winner_participant.tickets_count = 0;
    let before = ctx.clone();
    assert_eq!(
        execute_lottery(&mut ctx, key(3), 1, "s".repeat(200), at(1_000)),
        Err(LotteryError::WinnerHasNoTickets)
    );
    assert_eq!(ctx, before);
}

#[test]
fn winner_without_tickets_behind_the_admin_and_the_flags() {
    let mut ctx = execution();
    ctx.winner_participant.tickets_count = 0;
    ctx.admin = key(9);
    refuse_execution(ctx, key(3), 1, 1_000, LotteryError::Unauthorized);
    let mut ctx = execution();
    ctx.winner_participant.tickets_count = 0;
    ctx.lottery_state.is_paused = true;
    refuse_execution(ctx, key(3), 1, 1_000, LotteryError::ProgramPaused);
    let mut ctx = execution();
    ctx.winner_participant.tickets_count = 0;
    ctx.lottery_state.emergency_stop = true;
    refuse_execution(ctx, key(3), 1, 1_000, LotteryError::EmergencyStop);
}

#[test]
fn execution_stores_a_signature_of_at_most_88_characters() {
    let mut ctx = execution();
    let event = execute_lottery(&mut ctx, key(3), 1, "s".repeat(88), at(1_000)).unwrap();
    assert_eq!(event.transaction_signature, "s".repeat(88));
    assert_eq!(ctx.lottery.transaction_signature, "s".repeat(88));
    assert!(ctx.lottery.is_well_formed());

    let mut ctx = execution();
    let before = ctx.clone();
    assert_eq!(
        execute_lottery(&mut ctx, key(3), 1, "s".repeat(89), at(1_000)),
        Err(LotteryError::SignatureTooLong)
    );
    assert_eq!(ctx, before);

    let mut ctx = execution();
    assert!(execute_lottery(&mut ctx, key(3), 1, "\u{e9}".repeat(88), at(1_000)).is_ok());
    assert!(ctx.lottery.is_well_formed());
    let mut ctx = execution();
    assert_eq!(
        execute_lottery(&mut ctx, key(3), 1, "\u{e9}".repeat(89), at(1_000)),
        Err(LotteryError::SignatureTooLong)
    );
}

#[test]
fn signature_is_checked_after_the_winner() {
    let mut ctx = execution();
    ctx.winner_participant.is_eligible = false;
    let before = ctx.clone();
    assert_eq!(
        execute_lottery(&mut ctx, key(3), 1, "s".repeat(89), at(1_000)),
        Err(LotteryError::WinnerNotEligible)
    );
    assert_eq!(ctx, before);
}

#[test]
fn draw_records_keep_their_signature_bound() {
    assert!(Lottery::default().is_well_formed());
    let mut create = creation();
    create_lottery(&mut create, LotteryType::Hourly, 101, at(100)).unwrap();
    assert!(create.lottery.is_well_formed());
    let mut paid = payment();
    paid.lottery.transaction_signature = "s".repeat(88);
    pay_winner(&mut paid, at(2_000)).unwrap();
    assert!(paid.lottery.is_well_formed());
    let long = Lottery { transaction_signature: "s".repeat(89), ..Lottery::default() };
    assert!(!long.is_well_formed());
}

#[test]
fn payout_of_a_processing_draw() {
    let mut ctx = payment();
    let transfer = payout_transfer(&ctx).unwrap();
    assert_eq!(transfer.destination, key(3));
    assert_eq!(transfer.amount, 1_500_000);
    let event = pay_winner(&mut ctx, at(2_000)).unwrap();
    assert_eq!(event.lottery_id, 4);
    assert_eq!(event.winner, key(3));
    assert_eq!(event.amount, 1_500_000);
    assert_eq!(event.timestamp, 2_000);
    assert_eq!(
        ctx.lottery,
        Lottery { status: LotteryStatus::Completed, payout_time: 2_000, ..payment().lottery }
    );
    assert_eq!(ctx.lottery_state, running_state());
}

#[test]
fn payout_is_allowed_while_paused_but_not_while_stopped() {
    let mut ctx = payment();
    ctx.lottery_state.is_paused = true;
    assert!(pay_winner(&mut ctx, at(2_000)).is_ok());
    let mut ctx = payment();
    ctx.lottery_state.emergency_stop = true;
    refuse_payment(ctx, LotteryError::EmergencyStop);
}

#[test]
fn only_a_processing_draw_is_paid() {
    for status in [
        LotteryStatus::Pending,
        LotteryStatus::Completed,
        LotteryStatus::Cancelled,
        LotteryStatus::Failed,
    ] {
        let mut ctx = payment();
        ctx.lottery.status = status;
        refuse_payment(ctx, LotteryError::InvalidLotteryStatus);
    }
}

#[test]
fn second_payout_is_refused() {
    let mut ctx = payment();
    assert!(pay_winner(&mut ctx, at(2_000)).is_ok());
    let paid = ctx.clone();
    assert_eq!(payout_transfer(&ctx), Err(LotteryError::InvalidLotteryStatus));
    assert_eq!(pay_winner(&mut ctx, at(2_001)), Err(LotteryError::InvalidLotteryStatus));
    assert_eq!(ctx, paid);
}

#[test]
fn payout_goes_to_the_winner_only() {
    let mut ctx = payment();
    ctx.winner = key(7);
    refuse_payment(ctx, LotteryError::InvalidWinner);
}

#[test]
fn payout_needs_a_jackpot_and_the_funds_for_it() {
    let mut ctx = payment();
    ctx.lottery.jackpot_amount = 0;
    refuse_payment(ctx, LotteryError::InsufficientJackpot);
    let mut ctx = payment();
    ctx.program_balance = 1_499_999;
    refuse_payment(ctx, LotteryError::InsufficientProgramBalance);
}
