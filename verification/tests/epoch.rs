use ncn_program::ballot_box::BallotBoxState;
use ncn_program::config::Config;
use ncn_program::epoch::Epoch;
use ncn_program::epoch_state::{EpochState, Outcome, Stage};
use ncn_program::error::NcnError;
use ncn_program::pubkey::Pubkey;
use ncn_program::vault_registry::VaultRegistry;

const SUNNY: u8 = 0;
const RAINY: u8 = 2;

fn the_mint() -> Pubkey {
    Pubkey::new(4, 1)
}

fn other_mint() -> Pubkey {
    Pubkey::new(4, 2)
}

fn the_vault(n: u128) -> Pubkey {
    Pubkey::new(5, n)
}

fn the_operator(n: u128) -> Pubkey {
    Pubkey::new(6, n)
}

fn epoch_config() -> Config {
    Config::new(Pubkey::new(0, 1), Pubkey::new(0, 2), 5, 3, 2, 100)
}

fn registry_with_weights(weight: Option<u128>, other: Option<u128>) -> VaultRegistry {
    let mut r = VaultRegistry::new();
    assert_eq!(r.register_st_mint(the_mint(), weight), Ok(()));
    assert_eq!(r.register_st_mint(other_mint(), other), Ok(()));
    r
}

/// An epoch with frozen weights 3 and 5, and a started snapshot.
fn epoch_with_snapshot(operator_count: u64, vault_count: u64) -> Epoch {
    let mut e = Epoch::new(10, 1000);
    assert_eq!(e.initialize_weight_table(&registry_with_weights(Some(3), Some(5))), Ok(()));
    assert_eq!(e.set_epoch_weights(), Ok(()));
    assert_eq!(e.initialize_epoch_snapshot(operator_count, vault_count), Ok(()));
    e
}

fn sum_of_operator_weights(e: &Epoch) -> u128 {
    e.operator_snapshots.iter().map(|s| s.stake_weight).sum()
}

#[test]
fn stages_follow_each_other_in_order() {
    assert_eq!(Stage::Initialized.rank(), 0);
    assert_eq!(Stage::WeightsFinalized.rank(), 1);
    assert_eq!(Stage::SnapshotStarted.rank(), 2);
    assert_eq!(Stage::SnapshotFinalized.rank(), 3);
    assert_eq!(Stage::VotingOpen.rank(), 4);
    assert_eq!(Stage::ResultRecorded.rank(), 5);
    assert_eq!(Stage::Closed.rank(), 6);
    assert_eq!(Stage::Initialized.next(), Some(Stage::WeightsFinalized));
    assert_eq!(Stage::VotingOpen.next(), Some(Stage::ResultRecorded));
    assert_eq!(Stage::Closed.next(), None);
}

#[test]
fn stage_advances_one_step_at_a_time() {
    let mut s = EpochState::new(10, 1000);
    assert_eq!(s, EpochState { epoch: 10, stage: Stage::Initialized, outcome: None, slot_created: 1000 });
    assert_eq!(s.require(Stage::Initialized), Ok(()));
    assert_eq!(s.require(Stage::VotingOpen), Err(NcnError::InvalidStageTransition));
    assert_eq!(s.advance(Stage::SnapshotStarted), Err(NcnError::InvalidStageTransition));
    assert_eq!(s.advance(Stage::Initialized), Err(NcnError::InvalidStageTransition));
    assert_eq!(s.advance(Stage::WeightsFinalized), Ok(()));
    assert_eq!(s.advance(Stage::WeightsFinalized), Err(NcnError::InvalidStageTransition));
    assert_eq!(s.advance(Stage::SnapshotStarted), Ok(()));
    assert_eq!(s.advance(Stage::SnapshotFinalized), Ok(()));
    assert_eq!(s.advance(Stage::VotingOpen), Ok(()));
    // The step to the result is taken with a result only.
    assert_eq!(s.advance(Stage::ResultRecorded), Err(NcnError::InvalidStageTransition));
    assert_eq!(s.advance(Stage::Closed), Err(NcnError::InvalidStageTransition));
    let outcome =
        Outcome { value: SUNNY, stake_weight: 70, tie_break: false, slot: 5, recorded_epoch: 10 };
    assert_eq!(s.record_result(outcome), Ok(()));
    assert_eq!(s.stage, Stage::ResultRecorded);
    assert_eq!(s.outcome, Some(outcome));
    let other =
        Outcome { value: RAINY, stake_weight: 1, tie_break: true, slot: 6, recorded_epoch: 11 };
    assert_eq!(s.record_result(other), Err(NcnError::InvalidStageTransition));
    assert_eq!(s.outcome, Some(outcome));
    assert_eq!(s.advance(Stage::Closed), Ok(()));
    assert_eq!(s.outcome, Some(outcome));
    assert_eq!(s.advance(Stage::Closed), Err(NcnError::InvalidStageTransition));
}

#[test]
fn result_cannot_be_recorded_before_voting_is_open() {
    let mut s = EpochState::new(10, 1000);
    let outcome =
        Outcome { value: SUNNY, stake_weight: 70, tie_break: false, slot: 5, recorded_epoch: 10 };
    assert_eq!(s.record_result(outcome), Err(NcnError::InvalidStageTransition));
    assert_eq!(s.outcome, None);
    assert_eq!(s.stage, Stage::Initialized);
}

#[test]
fn new_epoch_holds_its_lifecycle_record_alone() {
    let e = Epoch::new(10, 1000);
    assert_eq!(e.state, EpochState::new(10, 1000));
    assert!(e.weight_table.is_none());
    assert!(e.epoch_snapshot.is_none());
    assert!(e.operator_snapshots.is_empty());
    assert!(e.ballot_box.is_none());
    assert!(!e.snapshot_final());
    assert_eq!(e.folding(), None);
}

#[test]
fn weight_table_is_created_once() {
    let mut e = Epoch::new(10, 1000);
    assert_eq!(e.realloc_weight_table(), Err(NcnError::NotInitialized));
    assert_eq!(e.set_weight(the_mint(), 1), Err(NcnError::NotInitialized));
    assert_eq!(e.set_epoch_weights(), Err(NcnError::NotInitialized));
    assert_eq!(e.initialize_weight_table(&VaultRegistry::new()), Err(NcnError::RegistryEmpty));
    assert!(e.weight_table.is_none());
    assert_eq!(e.initialize_weight_table(&registry_with_weights(Some(3), None)), Ok(()));
    assert_eq!(
        e.initialize_weight_table(&registry_with_weights(Some(3), None)),
        Err(NcnError::AlreadyInitialized)
    );
    assert_eq!(e.weight_table.as_ref().unwrap().epoch, 10);
    assert_eq!(e.state.stage, Stage::Initialized);
}

#[test]
fn weights_are_frozen_when_every_mint_has_one() {
    let mut e = Epoch::new(10, 1000);
    assert_eq!(e.initialize_weight_table(&registry_with_weights(Some(3), None)), Ok(()));
    assert_eq!(e.set_epoch_weights(), Err(NcnError::NotReady));
    assert_eq!(e.state.stage, Stage::Initialized);
    assert_eq!(e.initialize_epoch_snapshot(1, 1), Err(NcnError::WeightTableNotFinalized));
    assert_eq!(e.set_weight(other_mint(), 5), Ok(()));
    assert_eq!(e.set_epoch_weights(), Ok(()));
    assert_eq!(e.state.stage, Stage::WeightsFinalized);
    // Freezing again is a success that changes nothing.
    assert_eq!(e.set_epoch_weights(), Ok(()));
    assert_eq!(e.state.stage, Stage::WeightsFinalized);
    assert_eq!(e.set_weight(other_mint(), 6), Err(NcnError::WeightTableFinalized));
    assert_eq!(e.realloc_weight_table(), Ok(()));
    assert_eq!(e.weight_table.as_ref().unwrap().lookup(other_mint()), Ok(5));
}

#[test]
fn snapshot_is_created_once_after_the_weights_are_frozen() {
    let mut e = Epoch::new(10, 1000);
    assert_eq!(e.initialize_epoch_snapshot(1, 1), Err(NcnError::WeightTableNotFinalized));
    assert_eq!(e.initialize_operator_snapshot(the_operator(1)), Err(NcnError::InvalidStageTransition));
    assert_eq!(e.finalize_epoch_snapshot(true), Err(NcnError::InvalidStageTransition));
    let mut e = epoch_with_snapshot(2, 1);
    assert_eq!(e.state.stage, Stage::SnapshotStarted);
    assert_eq!(e.initialize_epoch_snapshot(2, 1), Err(NcnError::AlreadyInitialized));
    assert_eq!(e.epoch_snapshot.unwrap().operator_count, 2);
    assert_eq!(e.epoch_snapshot.unwrap().vault_count, 1);
    assert_eq!(e.folding(), e.epoch_snapshot);
}

#[test]
fn epoch_without_operators_has_a_final_snapshot_at_once() {
    let e = epoch_with_snapshot(0, 1);
    assert_eq!(e.state.stage, Stage::SnapshotFinalized);
    assert!(e.snapshot_final());
    assert_eq!(e.epoch_snapshot.unwrap().total_stake_weight, 0);
}

#[test]
fn operator_without_vaults_is_final_at_once() {
    let mut e = epoch_with_snapshot(2, 0);
    assert_eq!(e.initialize_operator_snapshot(the_operator(1)), Ok(()));
    assert!(e.operator_snapshots[0].finalized);
    assert_eq!(e.epoch_snapshot.unwrap().operators_finalized, 1);
    assert_eq!(e.state.stage, Stage::SnapshotStarted);
    assert_eq!(e.initialize_operator_snapshot(the_operator(2)), Ok(()));
    assert_eq!(e.state.stage, Stage::SnapshotFinalized);
    assert!(e.snapshot_final());
}

#[test]
fn operator_snapshot_is_created_once_and_no_more_than_expected() {
    let mut e = epoch_with_snapshot(1, 1);
    assert_eq!(e.initialize_operator_snapshot(the_operator(1)), Ok(()));
    assert_eq!(e.initialize_operator_snapshot(the_operator(1)), Err(NcnError::AlreadyInitialized));
    assert_eq!(e.initialize_operator_snapshot(the_operator(2)), Err(NcnError::CapacityExceeded));
    assert_eq!(e.operator_snapshots.len(), 1);
    assert_eq!(e.find_operator(the_operator(1)), Some(0));
    assert_eq!(e.find_operator(the_operator(2)), None);
    assert_eq!(e.operator_snapshots[0].expected_vaults, 1);
    assert_eq!(e.operator_snapshots[0].epoch, 10);
}

#[test]
fn fold_weighs_the_amount_with_the_frozen_weight() {
    let mut e = epoch_with_snapshot(2, 2);
    assert_eq!(e.initialize_operator_snapshot(the_operator(1)), Ok(()));
    assert_eq!(e.initialize_operator_snapshot(the_operator(2)), Ok(()));
    assert_eq!(e.fold_delegation(the_operator(1), the_vault(1), 10, the_mint()), Ok(()));
    assert_eq!(e.operator_snapshots[0].stake_weight, 30);
    assert_eq!(e.epoch_snapshot.unwrap().total_stake_weight, 30);
    assert_eq!(e.fold_delegation(the_operator(2), the_vault(1), 7, the_mint()), Ok(()));
    assert_eq!(e.fold_delegation(the_operator(1), the_vault(2), 4, other_mint()), Ok(()));
    assert_eq!(e.operator_snapshots[0].stake_weight, 50);
    assert_eq!(e.operator_snapshots[1].stake_weight, 21);
    assert_eq!(e.epoch_snapshot.unwrap().total_stake_weight, 71);
    assert_eq!(e.epoch_snapshot.unwrap().total_stake_weight, sum_of_operator_weights(&e));
    assert!(e.operator_snapshots[0].finalized);
    assert!(!e.operator_snapshots[1].finalized);
    assert_eq!(e.epoch_snapshot.unwrap().operators_finalized, 1);
    assert_eq!(e.state.stage, Stage::SnapshotStarted);
    assert_eq!(e.fold_delegation(the_operator(2), the_vault(2), 1, other_mint()), Ok(()));
    assert_eq!(e.epoch_snapshot.unwrap().total_stake_weight, 76);
    assert_eq!(e.epoch_snapshot.unwrap().total_stake_weight, sum_of_operator_weights(&e));
    assert!(e.snapshot_final());
    assert_eq!(e.state.stage, Stage::SnapshotFinalized);
    assert!(e.operator_snapshots.iter().all(|s| s.finalized));
}

#[test]
fn fold_of_the_same_delegation_is_refused_and_changes_no_total() {
    let mut e = epoch_with_snapshot(1, 2);
    assert_eq!(e.initialize_operator_snapshot(the_operator(1)), Ok(()));
    assert_eq!(e.fold_delegation(the_operator(1), the_vault(1), 10, the_mint()), Ok(()));
    assert_eq!(
        e.fold_delegation(the_operator(1), the_vault(1), 10, the_mint()),
        Err(NcnError::DuplicateDelegation)
    );
    assert_eq!(
        e.fold_delegation(the_operator(1), the_vault(1), 99, other_mint()),
        Err(NcnError::DuplicateDelegation)
    );
    assert_eq!(e.operator_snapshots[0].stake_weight, 30);
    assert_eq!(e.operator_snapshots[0].ledger.len(), 1);
    assert_eq!(e.epoch_snapshot.unwrap().total_stake_weight, 30);
    // Also after the snapshots have become final.
    assert_eq!(e.fold_delegation(the_operator(1), the_vault(2), 1, the_mint()), Ok(()));
    assert!(e.snapshot_final());
    assert_eq!(
        e.fold_delegation(the_operator(1), the_vault(2), 1, the_mint()),
        Err(NcnError::DuplicateDelegation)
    );
    assert_eq!(e.epoch_snapshot.unwrap().total_stake_weight, 33);
}

#[test]
fn fold_is_refused_for_what_the_epoch_does_not_know() {
    let mut e = epoch_with_snapshot(1, 1);
    assert_eq!(
        e.fold_delegation(the_operator(1), the_vault(1), 10, the_mint()),
        Err(NcnError::UnknownOperator)
    );
    assert_eq!(e.initialize_operator_snapshot(the_operator(1)), Ok(()));
    assert_eq!(
        e.fold_delegation(the_operator(1), the_vault(1), 10, Pubkey::new(4, 99)),
        Err(NcnError::UnknownMint)
    );
    assert_eq!(
        e.fold_delegation(the_operator(1), the_vault(1), u64::MAX, the_mint()),
        Ok(())
    );
    assert_eq!(e.epoch_snapshot.unwrap().total_stake_weight, 3 * (u64::MAX as u128));
}

#[test]
fn fold_that_does_not_fit_is_a_failure_and_changes_nothing() {
    let mut e = Epoch::new(10, 1000);
    assert_eq!(
        e.initialize_weight_table(&registry_with_weights(Some(u128::MAX), Some(u128::MAX - 5))),
        Ok(())
    );
    assert_eq!(e.set_epoch_weights(), Ok(()));
    assert_eq!(e.initialize_epoch_snapshot(2, 2), Ok(()));
    assert_eq!(e.initialize_operator_snapshot(the_operator(1)), Ok(()));
    assert_eq!(e.initialize_operator_snapshot(the_operator(2)), Ok(()));
    assert_eq!(
        e.fold_delegation(the_operator(1), the_vault(1), 2, the_mint()),
        Err(NcnError::WeightArithmeticOverflow)
    );
    assert_eq!(e.fold_delegation(the_operator(1), the_vault(1), 1, other_mint()), Ok(()));
    // The operator's own weight would fit, the epoch's total would not.
    assert_eq!(
        e.fold_delegation(the_operator(2), the_vault(1), 1, other_mint()),
        Err(NcnError::WeightArithmeticOverflow)
    );
    assert_eq!(e.operator_snapshots[1].stake_weight, 0);
    assert!(e.operator_snapshots[1].ledger.is_empty());
    assert_eq!(e.epoch_snapshot.unwrap().total_stake_weight, u128::MAX - 5);
}

#[test]
fn snapshots_can_be_locked_by_hand() {
    let mut e = epoch_with_snapshot(3, 1);
    assert_eq!(e.initialize_operator_snapshot(the_operator(1)), Ok(()));
    assert_eq!(e.finalize_operator_snapshot(the_operator(2)), Err(NcnError::UnknownOperator));
    assert_eq!(e.finalize_operator_snapshot(the_operator(1)), Err(NcnError::NotReady));
    assert_eq!(e.finalize_epoch_snapshot(true), Err(NcnError::NotReady));
    assert_eq!(e.fold_delegation(the_operator(1), the_vault(1), 10, the_mint()), Ok(()));
    assert!(e.operator_snapshots[0].finalized);
    // Locking a final snapshot is a success that changes nothing.
    assert_eq!(e.finalize_operator_snapshot(the_operator(1)), Ok(()));
    assert_eq!(e.epoch_snapshot.unwrap().operators_finalized, 1);
    // Three operators were expected; only with the word that no more will
    // come is the total locked.
    assert_eq!(e.finalize_epoch_snapshot(false), Err(NcnError::NotReady));
    assert_eq!(e.state.stage, Stage::SnapshotStarted);
    assert_eq!(e.finalize_epoch_snapshot(true), Ok(()));
    assert_eq!(e.state.stage, Stage::SnapshotFinalized);
    assert!(e.snapshot_final());
    assert_eq!(e.finalize_epoch_snapshot(false), Ok(()));
    assert_eq!(e.initialize_operator_snapshot(the_operator(2)), Err(NcnError::InvalidStageTransition));
    assert_eq!(
        e.fold_delegation(the_operator(1), the_vault(2), 10, the_mint()),
        Err(NcnError::InvalidStageTransition)
    );
    assert_eq!(e.epoch_snapshot.unwrap().total_stake_weight, 30);
}

#[test]
fn vote_is_opened_once_after_the_snapshots_are_final() {
    let mut e = epoch_with_snapshot(1, 1);
    assert_eq!(e.realloc_ballot_box(), Err(NcnError::NotInitialized));
    assert_eq!(e.stall(&epoch_config(), 20, 1), Err(NcnError::NotInitialized));
    assert_eq!(e.initialize_ballot_box(10), Err(NcnError::SnapshotNotFinalized));
    assert_eq!(e.initialize_operator_snapshot(the_operator(1)), Ok(()));
    assert_eq!(e.fold_delegation(the_operator(1), the_vault(1), 10, the_mint()), Ok(()));
    assert_eq!(
        e.cast_vote(&epoch_config(), the_operator(1), SUNNY, 10, 1),
        Err(NcnError::NotInitialized)
    );
    assert_eq!(e.initialize_ballot_box(11), Ok(()));
    assert_eq!(e.state.stage, Stage::VotingOpen);
    assert_eq!(e.ballot_box.as_ref().unwrap().opened_epoch, 11);
    assert_eq!(e.ballot_box.as_ref().unwrap().epoch, 10);
    assert_eq!(e.initialize_ballot_box(11), Err(NcnError::AlreadyInitialized));
    assert_eq!(e.realloc_ballot_box(), Ok(()));
}

#[test]
fn vote_counts_with_the_weight_of_the_final_snapshot() {
    let mut e = epoch_with_snapshot(2, 1);
    assert_eq!(e.initialize_operator_snapshot(the_operator(1)), Ok(()));
    assert_eq!(e.initialize_operator_snapshot(the_operator(2)), Ok(()));
    assert_eq!(e.fold_delegation(the_operator(1), the_vault(1), 10, the_mint()), Ok(()));
    assert_eq!(e.fold_delegation(the_operator(2), the_vault(1), 4, other_mint()), Ok(()));
    assert_eq!(e.initialize_ballot_box(10), Ok(()));
    assert_eq!(
        e.cast_vote(&epoch_config(), the_operator(3), SUNNY, 10, 1),
        Err(NcnError::UnknownOperator)
    );
    // 20 of 50 is no supermajority.
    assert_eq!(e.cast_vote(&epoch_config(), the_operator(2), RAINY, 10, 1), Ok(()));
    assert_eq!(e.ballot_box.as_ref().unwrap().tally_weight(RAINY), 20);
    assert_eq!(e.state.stage, Stage::VotingOpen);
    // The operator changes its mind; 20 + 30 of 50 is one.
    assert_eq!(e.cast_vote(&epoch_config(), the_operator(2), SUNNY, 10, 2), Ok(()));
    assert_eq!(e.cast_vote(&epoch_config(), the_operator(1), SUNNY, 10, 3), Ok(()));
    assert_eq!(e.ballot_box.as_ref().unwrap().tally_weight(RAINY), 0);
    assert_eq!(e.ballot_box.as_ref().unwrap().tally_weight(SUNNY), 50);
    assert_eq!(e.ballot_box.as_ref().unwrap().state, BallotBoxState::ConsensusReached);
    assert_eq!(e.state.stage, Stage::ResultRecorded);
    assert_eq!(
        e.state.outcome,
        Some(Outcome {
            value: SUNNY,
            stake_weight: 50,
            tie_break: false,
            slot: 3,
            recorded_epoch: 10
        })
    );
}

#[test]
fn operator_without_stake_cannot_vote() {
    let mut e = epoch_with_snapshot(2, 1);
    assert_eq!(e.initialize_operator_snapshot(the_operator(1)), Ok(()));
    assert_eq!(e.initialize_operator_snapshot(the_operator(2)), Ok(()));
    assert_eq!(e.fold_delegation(the_operator(1), the_vault(1), 10, the_mint()), Ok(()));
    assert_eq!(e.fold_delegation(the_operator(2), the_vault(1), 0, the_mint()), Ok(()));
    assert_eq!(e.initialize_ballot_box(10), Ok(()));
    assert_eq!(
        e.cast_vote(&epoch_config(), the_operator(2), SUNNY, 10, 1),
        Err(NcnError::UnknownOperator)
    );
    assert!(e.ballot_box.as_ref().unwrap().votes.is_empty());
}

#[test]
fn records_are_closed_after_the_result_was_kept_long_enough() {
    let mut e = epoch_with_snapshot(1, 1);
    assert_eq!(e.close(&epoch_config(), 100), Err(NcnError::InvalidStageTransition));
    assert_eq!(e.initialize_operator_snapshot(the_operator(1)), Ok(()));
    assert_eq!(e.fold_delegation(the_operator(1), the_vault(1), 10, the_mint()), Ok(()));
    assert_eq!(e.initialize_ballot_box(10), Ok(()));
    assert_eq!(e.close(&epoch_config(), 100), Err(NcnError::InvalidStageTransition));
    assert_eq!(e.cast_vote(&epoch_config(), the_operator(1), SUNNY, 11, 5), Ok(()));
    let outcome = e.state.outcome;
    assert_eq!(outcome.unwrap().recorded_epoch, 11);
    // The result is kept for two epochs.
    assert_eq!(e.close(&epoch_config(), 12), Err(NcnError::NotReady));
    assert!(e.ballot_box.is_some());
    assert_eq!(e.close(&epoch_config(), 13), Ok(()));
    assert_eq!(e.state.stage, Stage::Closed);
    assert_eq!(e.state.outcome, outcome);
    assert!(e.weight_table.is_none());
    assert!(e.epoch_snapshot.is_none());
    assert!(e.operator_snapshots.is_empty());
    assert!(e.ballot_box.is_none());
    assert_eq!(e.close(&epoch_config(), 14), Err(NcnError::EpochClosed));
    assert_eq!(
        e.cast_vote(&epoch_config(), the_operator(1), SUNNY, 14, 6),
        Err(NcnError::EpochClosed)
    );
    assert_eq!(
        e.tie_break(&epoch_config(), Pubkey::new(0, 2), SUNNY, 14, 6),
        Err(NcnError::EpochClosed)
    );
    assert_eq!(
        e.initialize_weight_table(&registry_with_weights(Some(3), Some(5))),
        Err(NcnError::InvalidStageTransition)
    );
    assert_eq!(e.state.outcome, outcome);
}

#[test]
fn folds_in_either_order_give_the_same_snapshots() {
    let delegations = [
        (the_operator(1), the_vault(1), 10u64, the_mint()),
        (the_operator(2), the_vault(2), 7, other_mint()),
        (the_operator(1), the_vault(2), 4, other_mint()),
        (the_operator(2), the_vault(1), 1, the_mint()),
    ];
    let orders: [[usize; 4]; 4] = [[0, 1, 2, 3], [3, 2, 1, 0], [2, 0, 3, 1], [1, 3, 0, 2]];
    let mut seen = Vec::new();
    for order in orders {
        let mut e = epoch_with_snapshot(2, 2);
        assert_eq!(e.initialize_operator_snapshot(the_operator(1)), Ok(()));
        assert_eq!(e.initialize_operator_snapshot(the_operator(2)), Ok(()));
        for i in order {
            let (operator, vault, amount, mint) = delegations[i];
            assert_eq!(e.fold_delegation(operator, vault, amount, mint), Ok(()));
        }
        seen.push((
            e.epoch_snapshot,
            e.state,
            e.operator_snapshots[0].stake_weight,
            e.operator_snapshots[1].stake_weight,
            e.operator_snapshots[0].finalized,
            e.operator_snapshots[1].finalized,
        ));
    }
    assert!(seen.iter().all(|one| *one == seen[0]));
    assert_eq!(seen[0].0.unwrap().total_stake_weight, 30 + 35 + 20 + 3);
    assert_eq!(seen[0].1.stage, Stage::SnapshotFinalized);
    assert_eq!(seen[0].2, 50);
    assert_eq!(seen[0].3, 38);
}
