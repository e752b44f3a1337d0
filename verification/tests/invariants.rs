use ncn_program::ballot_box::BallotBoxState;
use ncn_program::config::AdminRole;
use ncn_program::epoch::Epoch;
use ncn_program::epoch_state::{Outcome, Stage};
use ncn_program::process_instruction;
use ncn_program::program::{Context, Instruction, Program};
use ncn_program::pubkey::Pubkey;
use ncn_program::vault_registry::StMintEntry;

/// A small generator of numbers that look random and are the same in every
/// run.
struct Dice(u64);

impl Dice {
    fn roll(&mut self, sides: u64) -> u64 {
        self.0 = self.0.wrapping_mul(6364136223846793005).wrapping_add(1442695040888963407);
        (self.0 >> 33) % sides
    }
}

fn who(n: u64) -> Pubkey {
    Pubkey::new(1, n as u128)
}

fn the_program() -> Pubkey {
    who(1000)
}

fn some_signer(dice: &mut Dice) -> Pubkey {
    // Mostly the administrator; else the tie-breaker or a stranger.
    match dice.roll(6) {
        0 | 1 => who(1),
        2 => who(2),
        _ => who(0),
    }
}

fn some_mint(dice: &mut Dice) -> Pubkey {
    who(10 + dice.roll(3))
}

fn some_vault(dice: &mut Dice) -> Pubkey {
    who(20 + dice.roll(3))
}

fn some_operator(dice: &mut Dice) -> Pubkey {
    who(30 + dice.roll(4))
}

fn some_epoch(dice: &mut Dice) -> u64 {
    5 + dice.roll(4)
}

fn some_weight(dice: &mut Dice) -> Option<u128> {
    match dice.roll(4) {
        0 => None,
        n => Some(n as u128),
    }
}

fn some_instruction(dice: &mut Dice) -> Instruction {
    match dice.roll(30) {
        0 => Instruction::InitializeConfig {
            tie_breaker_admin: who(1),
            epochs_before_stall: 1 + dice.roll(3),
            epochs_after_consensus_before_close: dice.roll(3),
            valid_slots_after_consensus: dice.roll(50),
        },
        1 => Instruction::InitializeVaultRegistry,
        2 => Instruction::ReallocVaultRegistry,
        3 | 4 => Instruction::RegisterVault { vault: some_vault(dice), st_mint: some_mint(dice) },
        5 => Instruction::InitializeEpochState { epoch: some_epoch(dice) },
        6 => Instruction::InitializeWeightTable { epoch: some_epoch(dice) },
        7 => Instruction::ReallocWeightTable { epoch: some_epoch(dice) },
        8 => Instruction::SetEpochWeights { epoch: some_epoch(dice) },
        9 => Instruction::InitializeEpochSnapshot {
            epoch: some_epoch(dice),
            operator_count: dice.roll(4),
        },
        10 | 11 => Instruction::InitializeOperatorSnapshot {
            epoch: some_epoch(dice),
            operator: some_operator(dice),
        },
        12..=16 => Instruction::SnapshotVaultOperatorDelegation {
            epoch: some_epoch(dice),
            operator: some_operator(dice),
            vault: some_vault(dice),
            delegated_amount: dice.roll(50),
        },
        17 => Instruction::InitializeBallotBox { epoch: some_epoch(dice) },
        18 => Instruction::ReallocBallotBox { epoch: some_epoch(dice) },
        19..=23 => Instruction::CastVote {
            operator: some_operator(dice),
            weather_status: dice.roll(3) as u8,
            epoch: some_epoch(dice),
        },
        24 => Instruction::CloseEpochAccount { epoch: some_epoch(dice) },
        25 => Instruction::AdminSetParameters {
            starting_valid_epoch: None,
            epochs_before_stall: Some(1 + dice.roll(3)),
            epochs_after_consensus_before_close: None,
            valid_slots_after_consensus: Some(dice.roll(50)),
        },
        26 => Instruction::AdminSetNewAdmin { role: AdminRole::TieBreaker, new_admin: who(1) },
        27 => Instruction::AdminSetTieBreaker {
            weather_status: dice.roll(3) as u8,
            epoch: some_epoch(dice),
        },
        28 => Instruction::AdminSetWeight {
            st_mint: some_mint(dice),
            weight: 1 + dice.roll(5) as u128,
            epoch: some_epoch(dice),
        },
        _ => {
            if dice.roll(2) == 0 {
                Instruction::AdminRegisterStMint {
                    st_mint: some_mint(dice),
                    weight: some_weight(dice),
                }
            } else {
                Instruction::AdminSetStMint { st_mint: some_mint(dice), weight: some_weight(dice) }
            }
        }
    }
}

/// An instruction that is likely to take one of the started epochs a step
/// further, or to start one.
fn some_next_step(dice: &mut Dice, program: &Program, current_epoch: u64) -> Instruction {
    if program.epochs.is_empty() || dice.roll(12) == 0 {
        return Instruction::InitializeEpochState { epoch: current_epoch };
    }
    let e = &program.epochs[dice.roll(program.epochs.len() as u64) as usize];
    let epoch = e.state.epoch;
    match e.state.stage {
        Stage::Initialized => match &e.weight_table {
            None => Instruction::InitializeWeightTable { epoch },
            Some(table) => match table.entries.iter().find(|entry| entry.weight.is_none()) {
                Some(entry) => Instruction::AdminSetWeight {
                    st_mint: entry.st_mint,
                    weight: 1 + dice.roll(5) as u128,
                    epoch,
                },
                None => Instruction::SetEpochWeights { epoch },
            },
        },
        Stage::WeightsFinalized => {
            Instruction::InitializeEpochSnapshot { epoch, operator_count: 1 + dice.roll(4) }
        }
        Stage::SnapshotStarted => {
            let expected = e.epoch_snapshot.unwrap().operator_count as usize;
            if e.operator_snapshots.len() < expected && dice.roll(2) == 0 {
                Instruction::InitializeOperatorSnapshot { epoch, operator: some_operator(dice) }
            } else {
                Instruction::SnapshotVaultOperatorDelegation {
                    epoch,
                    operator: some_operator(dice),
                    vault: some_vault(dice),
                    delegated_amount: dice.roll(50),
                }
            }
        }
        Stage::SnapshotFinalized => Instruction::InitializeBallotBox { epoch },
        Stage::VotingOpen => {
            if dice.roll(8) == 0 {
                Instruction::AdminSetTieBreaker { weather_status: dice.roll(3) as u8, epoch }
            } else {
                Instruction::CastVote {
                    operator: some_operator(dice),
                    weather_status: dice.roll(2) as u8,
                    epoch,
                }
            }
        }
        Stage::ResultRecorded | Stage::Closed => Instruction::CloseEpochAccount { epoch },
    }
}

/// What is remembered of an epoch to hold its later records against.
struct Remembered {
    epoch: u64,
    stage: Stage,
    frozen: Option<Vec<StMintEntry>>,
    locked: Option<(u128, Vec<u128>)>,
    outcome: Option<Outcome>,
}

fn remember(e: &Epoch) -> Remembered {
    Remembered {
        epoch: e.state.epoch,
        stage: e.state.stage,
        frozen: e.weight_table.as_ref().filter(|t| t.finalized).map(|t| t.entries.clone()),
        locked: e.epoch_snapshot.filter(|s| s.finalized).map(|s| {
            (s.total_stake_weight, e.operator_snapshots.iter().map(|o| o.stake_weight).collect())
        }),
        outcome: e.state.outcome,
    }
}

fn check_epoch(e: &Epoch) {
    if let Some(table) = &e.weight_table {
        assert_eq!(table.epoch, e.state.epoch);
        if table.finalized {
            assert!(table.entries.iter().all(|entry| entry.weight.is_some()));
        }
    }
    match e.epoch_snapshot {
        None => assert!(e.operator_snapshots.is_empty()),
        Some(snapshot) => {
            let sum: u128 = e.operator_snapshots.iter().map(|o| o.stake_weight).sum();
            assert_eq!(snapshot.total_stake_weight, sum);
            assert_eq!(snapshot.operators_registered as usize, e.operator_snapshots.len());
            let final_ones = e.operator_snapshots.iter().filter(|o| o.finalized).count();
            assert_eq!(snapshot.operators_finalized as usize, final_ones);
            if snapshot.finalized {
                assert_eq!(final_ones, e.operator_snapshots.len());
            }
            for o in &e.operator_snapshots {
                let folded: u128 = o.ledger.iter().map(|entry| entry.contribution).sum();
                assert_eq!(o.stake_weight, folded);
                assert_eq!(o.finalized, o.ledger.len() as u64 == o.expected_vaults);
                for (i, entry) in o.ledger.iter().enumerate() {
                    assert!(o.ledger[..i].iter().all(|earlier| earlier.vault != entry.vault));
                }
            }
        }
    }
    if let Some(b) = &e.ballot_box {
        let total = e.epoch_snapshot.unwrap().total_stake_weight;
        for value in 0..=255u8 {
            let behind: u128 =
                b.votes.iter().filter(|v| v.value == value).map(|v| v.stake_weight).sum();
            let voters = b.votes.iter().filter(|v| v.value == value).count() as u64;
            assert_eq!(b.tally_weight(value), behind);
            assert_eq!(b.tally_voters(value), voters);
            let wins = 3 * behind > 2 * total;
            match b.state {
                BallotBoxState::AwaitingVotes | BallotBoxState::Stalled => assert!(!wins),
                BallotBoxState::ConsensusReached => {
                    assert_eq!(wins, value == b.winner.unwrap().value)
                }
                BallotBoxState::TieBreakResolved => {}
            }
        }
        for (i, vote) in b.votes.iter().enumerate() {
            assert!(b.votes[..i].iter().all(|earlier| earlier.operator != vote.operator));
            let snapshot =
                e.operator_snapshots.iter().find(|o| o.operator == vote.operator).unwrap();
            assert_eq!(snapshot.stake_weight, vote.stake_weight);
        }
        assert_eq!(
            b.winner.is_some(),
            matches!(b.state, BallotBoxState::ConsensusReached | BallotBoxState::TieBreakResolved)
        );
        if e.state.stage == Stage::ResultRecorded {
            assert_eq!(b.winner, e.state.outcome);
        }
    }
    assert_eq!(e.state.outcome.is_some(), e.state.stage.rank() >= Stage::ResultRecorded.rank());
}

fn check_against(before: &Remembered, e: &Epoch) {
    assert_eq!(e.state.epoch, before.epoch);
    assert!(e.state.stage.rank() >= before.stage.rank());
    if before.outcome.is_some() {
        assert_eq!(e.state.outcome, before.outcome);
    }
    if e.state.stage != Stage::Closed {
        if let Some(frozen) = &before.frozen {
            let table = e.weight_table.as_ref().unwrap();
            assert!(table.finalized);
            assert_eq!(&table.entries, frozen);
        }
        if let Some((total, weights)) = &before.locked {
            assert_eq!(e.epoch_snapshot.unwrap().total_stake_weight, *total);
            let now: Vec<u128> = e.operator_snapshots.iter().map(|o| o.stake_weight).collect();
            assert_eq!(&now, weights);
        }
    }
}

fn run_many(seed: u64, steps: usize) -> (usize, usize) {
    let mut dice = Dice(seed);
    let mut program = Program::new(the_program());
    let start = Context { signer: who(0), current_epoch: 5, current_slot: 0 };
    for instruction in [
        Instruction::InitializeConfig {
            tie_breaker_admin: who(1),
            epochs_before_stall: 2,
            epochs_after_consensus_before_close: 1,
            valid_slots_after_consensus: 30,
        },
        Instruction::InitializeVaultRegistry,
        Instruction::AdminRegisterStMint { st_mint: who(10), weight: Some(2) },
        Instruction::RegisterVault { vault: who(20), st_mint: who(10) },
    ] {
        assert_eq!(process_instruction(&the_program(), &mut program, &start, &instruction), Ok(()));
    }
    let mut taken = 0;
    let mut results = 0;
    for step in 0..steps {
        let ctx = Context {
            signer: some_signer(&mut dice),
            current_epoch: 5 + (step as u64) / 150,
            current_slot: step as u64,
        };
        let instruction = if dice.roll(3) == 0 {
            some_instruction(&mut dice)
        } else {
            some_next_step(&mut dice, &program, ctx.current_epoch)
        };
        let remembered: Vec<Remembered> = program.epochs.iter().map(remember).collect();
        let written = format!("{:?}", program);
        match process_instruction(&the_program(), &mut program, &ctx, &instruction) {
            Err(_) => assert_eq!(format!("{:?}", program), written),
            Ok(()) => taken += 1,
        }
        assert!(program.epochs.len() >= remembered.len());
        for (before, e) in remembered.iter().zip(program.epochs.iter()) {
            check_against(before, e);
        }
        for pair in program.epochs.windows(2) {
            assert!(pair[0].state.epoch < pair[1].state.epoch);
        }
        for e in &program.epochs {
            check_epoch(e);
        }
        results = program.epochs.iter().filter(|e| e.state.outcome.is_some()).count();
    }
    (taken, results)
}

#[test]
fn every_state_that_is_reached_keeps_its_promises() {
    let mut taken = 0;
    let mut results = 0;
    for seed in 1..=40 {
        let (t, r) = run_many(seed, 600);
        taken += t;
        results += r;
    }
    // The walk is no empty one: instructions are taken and epochs decided.
    assert!(taken > 2000);
    assert!(results > 50);
}
