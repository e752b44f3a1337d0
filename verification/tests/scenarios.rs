use ncn_program::ballot_box::BallotBoxState;
use ncn_program::epoch_state::{Outcome, Stage};
use ncn_program::error::{ErrorKind, NcnError};
use ncn_program::process_instruction;
use ncn_program::program::{Context, Instruction, Program};
use ncn_program::pubkey::Pubkey;

const SUNNY: u8 = 0;
const RAINY: u8 = 2;
const EPOCH: u64 = 10;

fn id(n: u128) -> Pubkey {
    Pubkey::new(0, n)
}

fn program_id() -> Pubkey {
    id(1)
}

fn admin() -> Pubkey {
    id(2)
}

fn tie_breaker() -> Pubkey {
    id(3)
}

fn mint() -> Pubkey {
    id(4)
}

fn vault() -> Pubkey {
    id(5)
}

fn operator_a() -> Pubkey {
    id(100)
}

fn operator_b() -> Pubkey {
    id(101)
}

fn operator_c() -> Pubkey {
    id(102)
}

fn at(signer: Pubkey, current_epoch: u64, current_slot: u64) -> Context {
    Context { signer, current_epoch, current_slot }
}

fn send(program: &mut Program, ctx: Context, instruction: Instruction) -> Result<(), NcnError> {
    process_instruction(&program_id(), program, &ctx, &instruction)
}

fn must(program: &mut Program, ctx: Context, instruction: Instruction) {
    assert_eq!(send(program, ctx, instruction), Ok(()));
}

/// A program in which epoch 10 is ready for `operator_count` operators to be
/// snapshotted: one mint of weight one, one vault.
fn program_with_snapshot_started(operator_count: u64) -> Program {
    let mut program = Program::new(program_id());
    let by_admin = at(admin(), EPOCH, 1000);
    must(
        &mut program,
        by_admin,
        Instruction::InitializeConfig {
            tie_breaker_admin: tie_breaker(),
            epochs_before_stall: 3,
            epochs_after_consensus_before_close: 2,
            valid_slots_after_consensus: 100,
        },
    );
    must(&mut program, by_admin, Instruction::InitializeVaultRegistry);
    must(
        &mut program,
        by_admin,
        Instruction::AdminRegisterStMint { st_mint: mint(), weight: Some(1) },
    );
    must(&mut program, by_admin, Instruction::RegisterVault { vault: vault(), st_mint: mint() });
    must(&mut program, by_admin, Instruction::InitializeEpochState { epoch: EPOCH });
    must(&mut program, by_admin, Instruction::InitializeWeightTable { epoch: EPOCH });
    must(&mut program, by_admin, Instruction::SetEpochWeights { epoch: EPOCH });
    must(
        &mut program,
        by_admin,
        Instruction::InitializeEpochSnapshot { epoch: EPOCH, operator_count },
    );
    program
}

/// A program in which the vote of epoch 10 is open, with the given stakes.
fn program_with_open_vote(stakes: &[(Pubkey, u64)]) -> Program {
    let mut program = program_with_snapshot_started(stakes.len() as u64);
    let by_admin = at(admin(), EPOCH, 1000);
    for (operator, amount) in stakes {
        must(
            &mut program,
            by_admin,
            Instruction::InitializeOperatorSnapshot { epoch: EPOCH, operator: *operator },
        );
        must(
            &mut program,
            by_admin,
            Instruction::SnapshotVaultOperatorDelegation {
                epoch: EPOCH,
                operator: *operator,
                vault: vault(),
                delegated_amount: *amount,
            },
        );
    }
    must(&mut program, by_admin, Instruction::InitializeBallotBox { epoch: EPOCH });
    program
}

fn vote(program: &mut Program, operator: Pubkey, value: u8, slot: u64) -> Result<(), NcnError> {
    send(
        program,
        at(operator, EPOCH, slot),
        Instruction::CastVote { operator, weather_status: value, epoch: EPOCH },
    )
}

#[test]
fn supermajority_of_one_hundred_is_reached_at_seventy() {
    let mut program =
        program_with_open_vote(&[(operator_a(), 40), (operator_b(), 30), (operator_c(), 30)]);
    assert_eq!(program.epochs[0].epoch_snapshot.unwrap().total_stake_weight, 100);
    assert_eq!(vote(&mut program, operator_c(), RAINY, 2001), Ok(()));
    assert_eq!(vote(&mut program, operator_a(), SUNNY, 2002), Ok(()));
    assert_eq!(program.epochs[0].state.stage, Stage::VotingOpen);
    assert_eq!(program.epochs[0].state.outcome, None);
    assert_eq!(vote(&mut program, operator_b(), SUNNY, 2003), Ok(()));
    let expected = Outcome {
        value: SUNNY,
        stake_weight: 70,
        tie_break: false,
        slot: 2003,
        recorded_epoch: EPOCH,
    };
    assert_eq!(program.epochs[0].state.stage, Stage::ResultRecorded);
    assert_eq!(program.epochs[0].state.outcome, Some(expected));
    let ballot_box = program.epochs[0].ballot_box.as_ref().unwrap();
    assert_eq!(ballot_box.state, BallotBoxState::ConsensusReached);
    assert_eq!(ballot_box.winner, Some(expected));
    assert_eq!(ballot_box.tally_weight(SUNNY), 70);
    assert_eq!(ballot_box.tally_weight(RAINY), 30);
    assert_eq!(ballot_box.tally_voters(SUNNY), 2);
    assert_eq!(ballot_box.tally_voters(RAINY), 1);
}

#[test]
fn vote_after_consensus_is_refused_and_changes_nothing() {
    let mut program =
        program_with_open_vote(&[(operator_a(), 40), (operator_b(), 30), (operator_c(), 30)]);
    assert_eq!(vote(&mut program, operator_a(), SUNNY, 2001), Ok(()));
    assert_eq!(vote(&mut program, operator_b(), SUNNY, 2002), Ok(()));
    let outcome = program.epochs[0].state.outcome;
    assert_eq!(outcome.map(|o| o.value), Some(SUNNY));
    let votes = program.epochs[0].ballot_box.as_ref().unwrap().votes.clone();
    let tallies = program.epochs[0].ballot_box.as_ref().unwrap().tallies.clone();

    let refused = vote(&mut program, operator_c(), RAINY, 2003);
    assert_eq!(refused, Err(NcnError::ConsensusAlreadyReached));
    assert_eq!(refused.unwrap_err().kind(), ErrorKind::Stage);
    let again = vote(&mut program, operator_a(), RAINY, 2004);
    assert_eq!(again.unwrap_err().kind(), ErrorKind::Stage);

    assert_eq!(program.epochs[0].state.outcome, outcome);
    assert_eq!(program.epochs[0].ballot_box.as_ref().unwrap().votes, votes);
    assert_eq!(program.epochs[0].ballot_box.as_ref().unwrap().tallies, tallies);
}

#[test]
fn stalled_vote_is_decided_by_the_tie_breaker() {
    let mut program =
        program_with_open_vote(&[(operator_a(), 40), (operator_b(), 35), (operator_c(), 25)]);
    assert_eq!(vote(&mut program, operator_a(), SUNNY, 2001), Ok(()));
    assert_eq!(vote(&mut program, operator_b(), RAINY, 2002), Ok(()));
    assert_eq!(program.epochs[0].state.outcome, None);
    assert_eq!(
        program.epochs[0].ballot_box.as_ref().unwrap().state,
        BallotBoxState::AwaitingVotes
    );

    // Too early: the vote has not stalled.
    let config = program.config.unwrap();
    assert_eq!(program.epochs[0].stall(&config, EPOCH + 2, 3000), Err(NcnError::NotReady));
    assert_eq!(
        send(
            &mut program,
            at(tie_breaker(), EPOCH + 2, 3000),
            Instruction::AdminSetTieBreaker { weather_status: RAINY, epoch: EPOCH },
        ),
        Err(NcnError::InvalidStageTransition)
    );

    // Three epochs after the vote opened it has.
    assert_eq!(program.epochs[0].stall(&config, EPOCH + 3, 4000), Ok(()));
    assert_eq!(program.epochs[0].ballot_box.as_ref().unwrap().state, BallotBoxState::Stalled);
    assert_eq!(program.epochs[0].ballot_box.as_ref().unwrap().stalled_slot, 4000);
    assert_eq!(
        send(
            &mut program,
            at(operator_c(), EPOCH + 3, 4001),
            Instruction::CastVote { operator: operator_c(), weather_status: RAINY, epoch: EPOCH },
        ),
        Err(NcnError::EpochClosed)
    );

    // Only the tie-breaker breaks the tie.
    assert_eq!(
        send(
            &mut program,
            at(admin(), EPOCH + 3, 4050),
            Instruction::AdminSetTieBreaker { weather_status: RAINY, epoch: EPOCH },
        ),
        Err(NcnError::Unauthorized)
    );
    must(
        &mut program,
        at(tie_breaker(), EPOCH + 3, 4050),
        Instruction::AdminSetTieBreaker { weather_status: RAINY, epoch: EPOCH },
    );
    let expected = Outcome {
        value: RAINY,
        stake_weight: 35,
        tie_break: true,
        slot: 4050,
        recorded_epoch: EPOCH + 3,
    };
    assert_eq!(program.epochs[0].state.stage, Stage::ResultRecorded);
    assert_eq!(program.epochs[0].state.outcome, Some(expected));
    assert_eq!(
        program.epochs[0].ballot_box.as_ref().unwrap().state,
        BallotBoxState::TieBreakResolved
    );

    // The result is final.
    assert_eq!(
        send(
            &mut program,
            at(tie_breaker(), EPOCH + 3, 4060),
            Instruction::AdminSetTieBreaker { weather_status: SUNNY, epoch: EPOCH },
        ),
        Err(NcnError::EpochClosed)
    );
    assert_eq!(program.epochs[0].state.outcome, Some(expected));
}

#[test]
fn tie_break_marks_an_overdue_vote_as_stalled_itself() {
    let mut program = program_with_open_vote(&[(operator_a(), 50), (operator_b(), 50)]);
    assert_eq!(vote(&mut program, operator_a(), SUNNY, 2001), Ok(()));
    assert_eq!(vote(&mut program, operator_b(), RAINY, 2002), Ok(()));
    must(
        &mut program,
        at(tie_breaker(), EPOCH + 5, 9000),
        Instruction::AdminSetTieBreaker { weather_status: SUNNY, epoch: EPOCH },
    );
    let ballot_box = program.epochs[0].ballot_box.as_ref().unwrap();
    assert_eq!(ballot_box.state, BallotBoxState::TieBreakResolved);
    assert_eq!(ballot_box.stalled_slot, 9000);
    assert_eq!(program.epochs[0].state.outcome.unwrap().value, SUNNY);
    assert_eq!(program.epochs[0].state.outcome.unwrap().stake_weight, 50);
}

#[test]
fn tie_break_window_runs_out() {
    let mut program = program_with_open_vote(&[(operator_a(), 50), (operator_b(), 50)]);
    let config = program.config.unwrap();
    assert_eq!(program.epochs[0].stall(&config, EPOCH + 3, 4000), Ok(()));
    // valid_slots_after_consensus is 100: slot 4100 is the last one.
    assert_eq!(
        send(
            &mut program,
            at(tie_breaker(), EPOCH + 3, 4101),
            Instruction::AdminSetTieBreaker { weather_status: SUNNY, epoch: EPOCH },
        ),
        Err(NcnError::EpochClosed)
    );
    must(
        &mut program,
        at(tie_breaker(), EPOCH + 3, 4100),
        Instruction::AdminSetTieBreaker { weather_status: SUNNY, epoch: EPOCH },
    );
    assert_eq!(program.epochs[0].state.outcome.unwrap().slot, 4100);
}

#[test]
fn vote_before_operator_snapshot_is_final_is_refused() {
    // Two vaults, so that one fold leaves the operator's snapshot open.
    let mut program = Program::new(program_id());
    let by_admin = at(admin(), EPOCH, 1000);
    must(
        &mut program,
        by_admin,
        Instruction::InitializeConfig {
            tie_breaker_admin: tie_breaker(),
            epochs_before_stall: 3,
            epochs_after_consensus_before_close: 2,
            valid_slots_after_consensus: 100,
        },
    );
    must(&mut program, by_admin, Instruction::InitializeVaultRegistry);
    must(
        &mut program,
        by_admin,
        Instruction::AdminRegisterStMint { st_mint: mint(), weight: Some(1) },
    );
    must(&mut program, by_admin, Instruction::RegisterVault { vault: vault(), st_mint: mint() });
    must(&mut program, by_admin, Instruction::RegisterVault { vault: id(6), st_mint: mint() });
    must(&mut program, by_admin, Instruction::InitializeEpochState { epoch: EPOCH });
    must(&mut program, by_admin, Instruction::InitializeWeightTable { epoch: EPOCH });
    must(&mut program, by_admin, Instruction::SetEpochWeights { epoch: EPOCH });
    must(
        &mut program,
        by_admin,
        Instruction::InitializeEpochSnapshot { epoch: EPOCH, operator_count: 1 },
    );
    must(
        &mut program,
        by_admin,
        Instruction::InitializeOperatorSnapshot { epoch: EPOCH, operator: operator_a() },
    );
    must(
        &mut program,
        by_admin,
        Instruction::SnapshotVaultOperatorDelegation {
            epoch: EPOCH,
            operator: operator_a(),
            vault: vault(),
            delegated_amount: 40,
        },
    );
    assert!(!program.epochs[0].operator_snapshots[0].finalized);
    assert_eq!(
        send(&mut program, by_admin, Instruction::InitializeBallotBox { epoch: EPOCH }),
        Err(NcnError::SnapshotNotFinalized)
    );
    assert_eq!(vote(&mut program, operator_a(), SUNNY, 2000), Err(NcnError::SnapshotNotFinalized));
    assert!(program.epochs[0].ballot_box.is_none());
    assert_eq!(program.epochs[0].state.stage, Stage::SnapshotStarted);
}

#[test]
fn vote_of_an_operator_whose_snapshot_is_open_leaves_the_box_as_it_was() {
    // The records of an epoch put together by hand: the aggregate is final
    // and the vote is open, but the snapshot of operator B is not final.
    let mut program = program_with_open_vote(&[(operator_a(), 40), (operator_b(), 60)]);
    assert_eq!(vote(&mut program, operator_a(), SUNNY, 2001), Ok(()));
    program.epochs[0].operator_snapshots[1].finalized = false;
    let votes = program.epochs[0].ballot_box.as_ref().unwrap().votes.clone();
    let tallies = program.epochs[0].ballot_box.as_ref().unwrap().tallies.clone();
    assert_eq!(vote(&mut program, operator_b(), SUNNY, 2002), Err(NcnError::SnapshotNotFinalized));
    let ballot_box = program.epochs[0].ballot_box.as_ref().unwrap();
    assert_eq!(ballot_box.votes, votes);
    assert_eq!(ballot_box.tallies, tallies);
    assert_eq!(ballot_box.state, BallotBoxState::AwaitingVotes);
    assert_eq!(ballot_box.winner, None);
}
