use lottery_solana::{
    contribute_to_jackpot, create_lottery, execute_lottery, initialize, pay_winner,
    payout_transfer, update_participant, Clock, ContributeToJackpot, ContributionSource,
    CreateLottery, ExecuteLottery, Identity, Initialize, Lottery, LotteryError, LotteryState,
    LotteryStatus, LotteryType, Participant, PayWinner, TokenAccountSnapshot, UpdateParticipant,
};

fn key(tag: u8) -> Identity {
    Identity::new([tag; 32])
}

fn at(unix_timestamp: i64, slot: u64) -> Clock {
    Clock { unix_timestamp, slot }
}

fn fresh_state(mint: Identity, admin: Identity, clock: Clock) -> LotteryState {
    let mut ctx = Initialize { lottery_state: LotteryState::default(), admin };
    initialize(&mut ctx, mint, admin, clock);
    ctx.lottery_state
}

#[test]
fn minimum_jackpot_gate_scenario() {
    let mint = key(1);
    let admin = key(2);
    let wallet = key(3);
    let now = at(1_700_000_000, 42);

    let mut init = Initialize { lottery_state: LotteryState::default(), admin };
    let initialized = initialize(&mut init, mint, admin, now);
    assert_eq!(initialized.admin, admin);
    assert_eq!(initialized.ball_token_mint, mint);
    assert_eq!(initialized.timestamp, 1_700_000_000);

    let mut contribute = ContributeToJackpot { lottery_state: init.lottery_state, contributor: wallet };
    let credited = contribute_to_jackpot(
        &mut contribute,
        1_000_000,
        String::from("sig"),
        ContributionSource::DirectDeposit,
        now,
    )
    .unwrap();
    assert_eq!(credited.hourly_contribution, 100_000);
    assert_eq!(credited.daily_contribution, 50_000);
    assert_eq!(credited.fee_amount, 0);
    assert_eq!(contribute.lottery_state.hourly_jackpot_sol, 100_000);
    assert_eq!(contribute.lottery_state.daily_jackpot_sol, 50_000);

    let mut update = UpdateParticipant {
        participant: Participant::default(),
        lottery_state: contribute.lottery_state,
        user: wallet,
        ball_token_account: TokenAccountSnapshot {
            key: key(4),
            mint,
            owner: wallet,
            amount: 2_000_000_000_000,
        },
    };
    let updated = update_participant(&mut update, 2_000_000_000_000, now).unwrap();
    assert_eq!(updated.tickets_count, 2);
    assert_eq!(updated.old_tickets, 0);
    assert_eq!(update.participant.tickets_count, 2);
    assert_eq!(update.lottery_state.total_participants, 1);
    assert_eq!(update.lottery_state.total_tickets, 2);

    let mut create = CreateLottery {
        lottery: Lottery::default(),
        lottery_state: update.lottery_state,
        admin,
    };
    let before = create.clone();
    let refused = create_lottery(&mut create, LotteryType::Hourly, 1_700_003_600, now);
    assert_eq!(refused, Err(LotteryError::InsufficientJackpot));
    assert_eq!(create, before);
}

#[test]
fn full_draw_lifecycle() {
    let mint = key(1);
    let admin = key(2);
    let wallet = key(3);
    let t0 = at(1_000, 10);
    let mut state = fresh_state(mint, admin, t0);

    let mut contribute = ContributeToJackpot { lottery_state: state, contributor: wallet };
    contribute_to_jackpot(
        &mut contribute,
        20_000_000,
        String::new(),
        ContributionSource::DirectDeposit,
        t0,
    )
    .unwrap();
    state = contribute.lottery_state;
    assert_eq!(state.hourly_jackpot_sol, 2_000_000);
    assert_eq!(state.daily_jackpot_sol, 1_000_000);

    let mut update = UpdateParticipant {
        participant: Participant::default(),
        lottery_state: state,
        user: wallet,
        ball_token_account: TokenAccountSnapshot {
            key: key(4),
            mint,
            owner: wallet,
            amount: 5_000_000_000_000,
        },
    };
    update_participant(&mut update, 3_000_000_000_000, t0).unwrap();
    state = update.lottery_state;
    let participant = update.participant;
    assert_eq!(participant.tickets_count, 3);
    assert!(participant.is_eligible);
    assert_eq!(participant.participation_count, 1);

    let mut create = CreateLottery { lottery: Lottery::default(), lottery_state: state, admin };
    let created = create_lottery(&mut create, LotteryType::Hourly, 2_000, t0).unwrap();
    assert_eq!(created.lottery_id, 1);
    assert_eq!(created.jackpot_amount, 2_000_000);
    assert_eq!(created.total_participants, 1);
    assert_eq!(created.total_tickets, 3);
    state = create.lottery_state;
    let lottery = create.lottery;
    assert_eq!(state.hourly_draw_count, 1);
    assert_eq!(state.daily_draw_count, 0);
    assert_eq!(lottery.status, LotteryStatus::Pending);
    assert_eq!(lottery.draw_id, 1);
    assert_eq!(lottery.jackpot_amount, 2_000_000);
    assert_eq!(lottery.winner, Identity::default());
    assert_eq!(lottery.block_hash, 10);
    assert_eq!(lottery.created_at, 1_000);

    let t1 = at(2_500, 99);
    let mut execute = ExecuteLottery {
        lottery,
        lottery_state: state,
        admin,
        winner_participant: participant,
    };
    let executed =
        execute_lottery(&mut execute, wallet, 77, String::from("draw-signature"), t1).unwrap();
    assert_eq!(executed.winner, wallet);
    assert_eq!(executed.jackpot_amount, 2_000_000);
    assert_eq!(executed.winner_tickets, 3);
    assert_eq!(executed.slot, 99);
    assert_eq!(executed.transaction_signature, "draw-signature");
    state = execute.lottery_state;
    let lottery = execute.lottery;
    assert_eq!(lottery.status, LotteryStatus::Processing);
    assert_eq!(lottery.winner, wallet);
    assert_eq!(lottery.vrf_seed, 77);
    assert_eq!(lottery.executed_time, 2_500);
    assert_eq!(lottery.slot_number, 99);
    assert_eq!(lottery.transaction_signature, "draw-signature");
    assert_eq!(lottery.jackpot_amount, 2_000_000);
    assert_eq!(state.hourly_jackpot_sol, 0);
    assert_eq!(state.daily_jackpot_sol, 1_000_000);
    assert_eq!(state.last_hourly_draw, 2_500);
    assert_eq!(state.last_daily_draw, 0);

    let t2 = at(2_600, 120);
    let mut pay = PayWinner {
        lottery,
        lottery_state: state,
        winner: wallet,
        program_balance: 2_000_000,
    };
    let transfer = payout_transfer(&pay).unwrap();
    assert_eq!(transfer.destination, wallet);
    assert_eq!(transfer.amount, 2_000_000);
    let paid = pay_winner(&mut pay, t2).unwrap();
    assert_eq!(paid.amount, 2_000_000);
    assert_eq!(paid.winner, wallet);
    assert_eq!(paid.lottery_id, 1);
    assert_eq!(paid.lottery_type, LotteryType::Hourly);
    assert_eq!(paid.transaction_signature, "draw-signature");
    assert_eq!(paid.timestamp, 2_600);
    assert_eq!(pay.lottery.status, LotteryStatus::Completed);
    assert_eq!(pay.lottery.payout_time, 2_600);
    assert_eq!(pay.lottery_state, state);
}

#[test]
fn daily_draw_empties_only_the_daily_jackpot() {
    let mint = key(1);
    let admin = key(2);
    let wallet = key(3);
    let t0 = at(50, 5);
    let mut state = fresh_state(mint, admin, t0);
    state.hourly_jackpot_sol = 3_000_000;
    state.daily_jackpot_sol = 9_000_000;
    state.total_participants = 4;
    state.total_tickets = 11;

    let mut create = CreateLottery { lottery: Lottery::default(), lottery_state: state, admin };
    let created = create_lottery(&mut create, LotteryType::Daily, 60, t0).unwrap();
    assert_eq!(created.lottery_id, 1);
    assert_eq!(created.jackpot_amount, 9_000_000);
    assert_eq!(create.lottery_state.daily_draw_count, 1);
    assert_eq!(create.lottery_state.hourly_draw_count, 0);

    let winner = Participant {
        wallet,
        tickets_count: 2,
        is_eligible: true,
        ..Participant::default()
    };
    let mut execute = ExecuteLottery {
        lottery: create.lottery,
        lottery_state: create.lottery_state,
        admin,
        winner_participant: winner,
    };
    execute_lottery(&mut execute, wallet, 1, String::new(), at(60, 6)).unwrap();
    assert_eq!(execute.lottery_state.daily_jackpot_sol, 0);
    assert_eq!(execute.lottery_state.hourly_jackpot_sol, 3_000_000);
    assert_eq!(execute.lottery_state.last_daily_draw, 60);
    assert_eq!(execute.lottery_state.last_hourly_draw, 0);
    assert_eq!(execute.lottery.total_participants, 4);
    assert_eq!(execute.lottery.total_tickets, 11);
}

#[test]
fn contribution_after_creation_leaves_the_snapshot() {
    let mint = key(1);
    let admin = key(2);
    let wallet = key(3);
    let t0 = at(100, 1);
    let mut state = fresh_state(mint, admin, t0);
    state.hourly_jackpot_sol = 5_000_000;
    state.total_participants = 1;
    state.total_tickets = 2;

    let mut create = CreateLottery { lottery: Lottery::default(), lottery_state: state, admin };
    create_lottery(&mut create, LotteryType::Hourly, 200, t0).unwrap();
    let lottery = create.lottery;
    assert_eq!(lottery.jackpot_amount, 5_000_000);

    let mut contribute =
        ContributeToJackpot { lottery_state: create.lottery_state, contributor: wallet };
    contribute_to_jackpot(
        &mut contribute,
        10_000_000,
        String::new(),
        ContributionSource::DirectDeposit,
        at(150, 2),
    )
    .unwrap();
    assert_eq!(contribute.lottery_state.hourly_jackpot_sol, 6_000_000);

    let winner = Participant {
        wallet,
        tickets_count: 2,
        is_eligible: true,
        ..Participant::default()
    };
    let mut execute = ExecuteLottery {
        lottery,
        lottery_state: contribute.lottery_state,
        admin,
        winner_participant: winner,
    };
    let executed = execute_lottery(&mut execute, wallet, 9, String::new(), at(200, 3)).unwrap();
    assert_eq!(executed.jackpot_amount, 5_000_000);
    assert_eq!(execute.lottery.jackpot_amount, 5_000_000);
    assert_eq!(execute.lottery_state.hourly_jackpot_sol, 0);

    let pay = PayWinner {
        lottery: execute.lottery,
        lottery_state: execute.lottery_state,
        winner: wallet,
        program_balance: 6_000_000,
    };
    assert_eq!(payout_transfer(&pay).unwrap().amount, 5_000_000);
}
