use ncn_program::epoch_snapshot::EpochSnapshot;
use ncn_program::error::NcnError;
use ncn_program::operator_snapshot::{contribution, LedgerEntry, OperatorSnapshot};
use ncn_program::pubkey::Pubkey;

fn vault_no(n: u128) -> Pubkey {
    Pubkey::new(9, n)
}

#[test]
fn contribution_is_the_product_of_amount_and_weight() {
    assert_eq!(contribution(40, 1), Ok(40));
    assert_eq!(contribution(0, 12345), Ok(0));
    assert_eq!(contribution(7, 0), Ok(0));
    assert_eq!(contribution(1_000_000, 3_000_000_000), Ok(3_000_000_000_000_000));
    assert_eq!(contribution(u64::MAX, 1 << 64), Ok(340282366920938463444927863358058659840));
    assert_eq!(contribution(1, u128::MAX), Ok(u128::MAX));
}

#[test]
fn contribution_that_does_not_fit_is_a_failure() {
    assert_eq!(contribution(2, u128::MAX), Err(NcnError::WeightArithmeticOverflow));
    assert_eq!(contribution(u64::MAX, (1 << 64) + 1), Ok(u128::MAX));
    assert_eq!(contribution(u64::MAX, (1 << 64) + 2), Err(NcnError::WeightArithmeticOverflow));
    assert_eq!(contribution(2, (u128::MAX / 2) + 1), Err(NcnError::WeightArithmeticOverflow));
    assert_eq!(contribution(2, u128::MAX / 2), Ok(u128::MAX - 1));
}

#[test]
fn new_operator_snapshot_has_no_weight() {
    let s = OperatorSnapshot::new(10, Pubkey::new(1, 1), 3);
    assert_eq!(s.epoch, 10);
    assert_eq!(s.operator, Pubkey::new(1, 1));
    assert_eq!(s.expected_vaults, 3);
    assert_eq!(s.stake_weight, 0);
    assert!(s.ledger.is_empty());
    assert!(!s.finalized);
    assert!(!s.complete());
}

#[test]
fn fold_adds_the_contribution_and_enters_the_vault() {
    let mut s = OperatorSnapshot::new(10, Pubkey::new(1, 1), 3);
    assert_eq!(s.check_fold(vault_no(1), 40), Ok(40));
    assert_eq!(s.stake_weight, 0);
    assert_eq!(s.fold(vault_no(1), 40), Ok(()));
    assert_eq!(s.fold(vault_no(2), 2), Ok(()));
    assert_eq!(s.stake_weight, 42);
    assert_eq!(
        s.ledger,
        vec![
            LedgerEntry { vault: vault_no(1), contribution: 40 },
            LedgerEntry { vault: vault_no(2), contribution: 2 },
        ]
    );
    assert!(s.has_folded(vault_no(1)));
    assert!(!s.has_folded(vault_no(3)));
    assert_eq!(s.find_vault(vault_no(2)), Some(1));
}

#[test]
fn folding_a_vault_twice_is_refused_and_changes_nothing() {
    let mut s = OperatorSnapshot::new(10, Pubkey::new(1, 1), 3);
    assert_eq!(s.fold(vault_no(1), 40), Ok(()));
    assert_eq!(s.fold(vault_no(1), 40), Err(NcnError::DuplicateDelegation));
    assert_eq!(s.fold(vault_no(1), 7), Err(NcnError::DuplicateDelegation));
    assert_eq!(s.stake_weight, 40);
    assert_eq!(s.ledger.len(), 1);
}

#[test]
fn folds_in_either_order_give_the_same_weight() {
    let mut one = OperatorSnapshot::new(10, Pubkey::new(1, 1), 2);
    assert_eq!(one.fold(vault_no(1), 40), Ok(()));
    assert_eq!(one.fold(vault_no(2), 2), Ok(()));
    let mut other = OperatorSnapshot::new(10, Pubkey::new(1, 1), 2);
    assert_eq!(other.fold(vault_no(2), 2), Ok(()));
    assert_eq!(other.fold(vault_no(1), 40), Ok(()));
    assert_eq!(one.stake_weight, other.stake_weight);
    assert_eq!(one.stake_weight, 42);
}

#[test]
fn operator_weight_that_does_not_fit_is_a_failure() {
    let mut s = OperatorSnapshot::new(10, Pubkey::new(1, 1), 3);
    assert_eq!(s.fold(vault_no(1), u128::MAX), Ok(()));
    assert_eq!(s.fold(vault_no(2), 1), Err(NcnError::WeightArithmeticOverflow));
    assert_eq!(s.stake_weight, u128::MAX);
    assert_eq!(s.ledger.len(), 1);
    assert_eq!(s.fold(vault_no(2), 0), Ok(()));
}

#[test]
fn operator_snapshot_is_final_once_every_vault_is_folded() {
    let mut s = OperatorSnapshot::new(10, Pubkey::new(1, 1), 2);
    assert_eq!(s.finalize(), Err(NcnError::NotReady));
    assert_eq!(s.fold(vault_no(1), 40), Ok(()));
    assert_eq!(s.finalize(), Err(NcnError::NotReady));
    assert_eq!(s.fold(vault_no(2), 2), Ok(()));
    assert!(s.complete());
    assert_eq!(s.fold(vault_no(3), 1), Err(NcnError::UnknownVault));
    assert_eq!(s.finalize(), Ok(()));
    assert!(s.finalized);
    // Finalizing again is a success that changes nothing.
    assert_eq!(s.finalize(), Ok(()));
    assert_eq!(s.fold(vault_no(3), 1), Err(NcnError::InvalidStageTransition));
    assert_eq!(s.fold(vault_no(1), 1), Err(NcnError::DuplicateDelegation));
    assert_eq!(s.stake_weight, 42);
}

#[test]
fn operator_without_vaults_is_complete_at_once() {
    let mut s = OperatorSnapshot::new(10, Pubkey::new(1, 1), 0);
    assert!(s.complete());
    assert_eq!(s.finalize(), Ok(()));
    assert!(s.finalized);
    assert_eq!(s.stake_weight, 0);
}

#[test]
fn epoch_snapshot_counts_operators_and_stake() {
    let mut s = EpochSnapshot::new(10, 2, 1);
    assert_eq!(
        s,
        EpochSnapshot {
            epoch: 10,
            operator_count: 2,
            vault_count: 1,
            operators_registered: 0,
            operators_finalized: 0,
            total_stake_weight: 0,
            finalized: false,
        }
    );
    assert_eq!(s.operator_finalized(), Err(NcnError::InvalidStageTransition));
    assert_eq!(s.register_operator(), Ok(()));
    assert_eq!(s.register_operator(), Ok(()));
    assert_eq!(s.register_operator(), Err(NcnError::CapacityExceeded));
    assert_eq!(s.operators_registered, 2);
    assert_eq!(s.add_stake(40), Ok(()));
    assert_eq!(s.add_stake(60), Ok(()));
    assert_eq!(s.total_stake_weight, 100);
    assert_eq!(s.add_stake(u128::MAX), Err(NcnError::WeightArithmeticOverflow));
    assert_eq!(s.total_stake_weight, 100);
    assert_eq!(s.finalize(false), Err(NcnError::NotReady));
    assert_eq!(s.operator_finalized(), Ok(()));
    assert!(!s.complete(false));
    assert_eq!(s.finalize(true), Err(NcnError::NotReady));
    assert_eq!(s.operator_finalized(), Ok(()));
    assert!(s.complete(false));
    assert_eq!(s.finalize(false), Ok(()));
    assert!(s.finalized);
    assert_eq!(s.finalize(false), Ok(()));
    assert_eq!(s.add_stake(1), Err(NcnError::InvalidStageTransition));
    assert_eq!(s.register_operator(), Err(NcnError::InvalidStageTransition));
    assert_eq!(s.total_stake_weight, 100);
}

#[test]
fn epoch_snapshot_can_be_locked_when_no_more_operators_are_expected() {
    let mut s = EpochSnapshot::new(10, 5, 1);
    assert_eq!(s.register_operator(), Ok(()));
    assert_eq!(s.operator_finalized(), Ok(()));
    assert_eq!(s.finalize(false), Err(NcnError::NotReady));
    assert_eq!(s.finalize(true), Ok(()));
    assert!(s.finalized);
}
