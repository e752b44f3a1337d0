use ncn_program::capacity::{grown, CAPACITY_STEP, INITIAL_CAPACITY, MAX_ST_MINTS, MAX_VAULTS};
use ncn_program::config::{AdminRole, Config};
use ncn_program::error::{ErrorKind, NcnError};
use ncn_program::pubkey::Pubkey;
use ncn_program::vault_registry::{StMintEntry, VaultEntry, VaultRegistry};
use ncn_program::weight_table::WeightTable;

fn mint_no(n: u128) -> Pubkey {
    Pubkey::new(4, n)
}

fn vault_id(n: u128) -> Pubkey {
    Pubkey::new(5, n)
}

#[test]
fn identities_are_equal_when_both_halves_agree() {
    assert_eq!(Pubkey::new(1, 2), Pubkey { hi: 1, lo: 2 });
    assert_ne!(Pubkey::new(1, 2), Pubkey::new(2, 1));
    assert_ne!(Pubkey::new(1, 2), Pubkey::new(1, 3));
}

#[test]
fn capacity_grows_by_steps_up_to_its_bound() {
    assert_eq!(grown(16, 64), 32);
    assert_eq!(grown(48, 64), 64);
    assert_eq!(grown(60, 64), 64);
    assert_eq!(grown(64, 64), 64);
    assert_eq!(grown(70, 64), 70);
    assert_eq!(grown(0, 5), 5);
    assert_eq!(grown(usize::MAX - 1, usize::MAX), usize::MAX);
}

#[test]
fn config_is_created_for_the_current_epoch() {
    let c = Config::new(Pubkey::new(0, 1), Pubkey::new(0, 2), 7, 3, 2, 100);
    assert_eq!(
        c,
        Config {
            admin: Pubkey::new(0, 1),
            tie_breaker_admin: Pubkey::new(0, 2),
            starting_valid_epoch: 7,
            epochs_before_stall: 3,
            epochs_after_consensus_before_close: 2,
            valid_slots_after_consensus: 100,
        }
    );
}

#[test]
fn parameters_change_only_where_a_value_is_given() {
    let mut c = Config::new(Pubkey::new(0, 1), Pubkey::new(0, 2), 7, 3, 2, 100);
    assert_eq!(c.set_parameters(Pubkey::new(0, 1), None, Some(5), None, Some(9)), Ok(()));
    assert_eq!(c.starting_valid_epoch, 7);
    assert_eq!(c.epochs_before_stall, 5);
    assert_eq!(c.epochs_after_consensus_before_close, 2);
    assert_eq!(c.valid_slots_after_consensus, 9);
    assert_eq!(c.set_parameters(Pubkey::new(0, 1), Some(8), None, Some(4), None), Ok(()));
    assert_eq!(c.starting_valid_epoch, 8);
    assert_eq!(c.epochs_after_consensus_before_close, 4);
    let before = c;
    assert_eq!(
        c.set_parameters(Pubkey::new(0, 2), Some(1), Some(1), Some(1), Some(1)),
        Err(NcnError::Unauthorized)
    );
    assert_eq!(c, before);
}

#[test]
fn authorities_are_rotated_by_the_administrator_only() {
    let mut c = Config::new(Pubkey::new(0, 1), Pubkey::new(0, 2), 7, 3, 2, 100);
    assert_eq!(
        c.set_new_admin(Pubkey::new(0, 2), AdminRole::TieBreaker, Pubkey::new(0, 3)),
        Err(NcnError::Unauthorized)
    );
    assert_eq!(c.set_new_admin(Pubkey::new(0, 1), AdminRole::TieBreaker, Pubkey::new(0, 3)), Ok(()));
    assert_eq!(c.tie_breaker_admin, Pubkey::new(0, 3));
    assert_eq!(c.admin, Pubkey::new(0, 1));
    assert_eq!(c.set_new_admin(Pubkey::new(0, 1), AdminRole::Primary, Pubkey::new(0, 4)), Ok(()));
    assert_eq!(c.admin, Pubkey::new(0, 4));
    assert_eq!(
        c.set_new_admin(Pubkey::new(0, 1), AdminRole::Primary, Pubkey::new(0, 1)),
        Err(NcnError::Unauthorized)
    );
    assert_eq!(c.epochs_before_stall, 3);
}

#[test]
fn clock_rules_compare_against_the_configuration() {
    let c = Config::new(Pubkey::new(0, 1), Pubkey::new(0, 2), 7, 3, 2, 100);
    assert!(!c.stall_due(10, 12));
    assert!(c.stall_due(10, 13));
    assert!(!c.stall_due(10, 9));
    assert!(!c.stall_due(u64::MAX, u64::MAX));
    assert!(c.tie_break_open(4000, 4100));
    assert!(!c.tie_break_open(4000, 4101));
    assert!(c.tie_break_open(4000, 3000));
    assert!(c.tie_break_open(u64::MAX, u64::MAX));
    assert!(!c.close_due(13, 14));
    assert!(c.close_due(13, 15));
    assert!(!c.close_due(u64::MAX, u64::MAX));
}

#[test]
fn registry_starts_empty() {
    let r = VaultRegistry::new();
    assert_eq!(r.capacity, INITIAL_CAPACITY);
    assert_eq!(r.st_mint_count(), 0);
    assert_eq!(r.vault_count(), 0);
    assert_eq!(r.weight_of(mint_no(1)), None);
    assert_eq!(r.mint_of(vault_id(1)), None);
}

#[test]
fn mints_and_vaults_are_registered_once() {
    let mut r = VaultRegistry::new();
    assert_eq!(r.register_vault(vault_id(1), mint_no(1)), Err(NcnError::UnknownMint));
    assert_eq!(r.register_st_mint(mint_no(1), Some(3)), Ok(()));
    assert_eq!(r.register_st_mint(mint_no(2), None), Ok(()));
    assert_eq!(r.register_st_mint(mint_no(1), Some(9)), Err(NcnError::AlreadyRegistered));
    assert_eq!(
        r.st_mints,
        vec![
            StMintEntry { st_mint: mint_no(1), weight: Some(3) },
            StMintEntry { st_mint: mint_no(2), weight: None },
        ]
    );
    assert_eq!(r.register_vault(vault_id(1), mint_no(2)), Ok(()));
    assert_eq!(r.register_vault(vault_id(2), mint_no(1)), Ok(()));
    assert_eq!(r.register_vault(vault_id(1), mint_no(1)), Err(NcnError::AlreadyRegistered));
    assert_eq!(
        r.vaults,
        vec![
            VaultEntry { vault: vault_id(1), st_mint: mint_no(2) },
            VaultEntry { vault: vault_id(2), st_mint: mint_no(1) },
        ]
    );
    assert_eq!(r.find_st_mint(mint_no(2)), Some(1));
    assert_eq!(r.find_vault(vault_id(2)), Some(1));
    assert_eq!(r.find_vault(vault_id(3)), None);
    assert_eq!(r.mint_of(vault_id(1)), Some(mint_no(2)));
    assert_eq!(r.weight_of(mint_no(1)), Some(3));
    assert_eq!(r.weight_of(mint_no(2)), None);
}

#[test]
fn weight_of_a_registered_mint_is_set_and_kept() {
    let mut r = VaultRegistry::new();
    assert_eq!(r.register_st_mint(mint_no(1), None), Ok(()));
    assert_eq!(r.set_st_mint(mint_no(2), Some(5)), Err(NcnError::UnknownMint));
    assert_eq!(r.set_st_mint(mint_no(1), Some(5)), Ok(()));
    assert_eq!(r.weight_of(mint_no(1)), Some(5));
    assert_eq!(r.set_st_mint(mint_no(1), None), Ok(()));
    assert_eq!(r.weight_of(mint_no(1)), Some(5));
    assert_eq!(r.set_st_mint(mint_no(1), Some(6)), Ok(()));
    assert_eq!(r.weight_of(mint_no(1)), Some(6));
}

#[test]
fn registry_is_full_until_it_is_expanded() {
    let mut r = VaultRegistry::new();
    for n in 0..INITIAL_CAPACITY {
        assert_eq!(r.register_st_mint(mint_no(n as u128), Some(1)), Ok(()));
        assert_eq!(r.register_vault(vault_id(n as u128), mint_no(0)), Ok(()));
    }
    assert_eq!(r.register_st_mint(mint_no(1000), Some(1)), Err(NcnError::CapacityExceeded));
    assert_eq!(r.register_vault(vault_id(1000), mint_no(0)), Err(NcnError::CapacityExceeded));
    assert_eq!(NcnError::CapacityExceeded.kind(), ErrorKind::Capacity);
    r.realloc();
    assert_eq!(r.capacity, INITIAL_CAPACITY + CAPACITY_STEP);
    assert_eq!(r.register_st_mint(mint_no(1000), Some(1)), Ok(()));
    assert_eq!(r.register_vault(vault_id(1000), mint_no(0)), Ok(()));
    assert_eq!(r.st_mint_count(), INITIAL_CAPACITY + 1);
    assert_eq!(r.vault_count(), INITIAL_CAPACITY + 1);
}

#[test]
fn registry_never_holds_more_than_its_bounds() {
    let mut r = VaultRegistry::new();
    for _ in 0..10 {
        r.realloc();
    }
    assert_eq!(r.capacity, MAX_ST_MINTS);
    for n in 0..MAX_ST_MINTS {
        assert_eq!(r.register_st_mint(mint_no(n as u128), Some(1)), Ok(()));
    }
    assert_eq!(r.register_st_mint(mint_no(5000), Some(1)), Err(NcnError::CapacityExceeded));
    for n in 0..MAX_VAULTS {
        assert_eq!(r.register_vault(vault_id(n as u128), mint_no(0)), Ok(()));
    }
    assert_eq!(r.register_vault(vault_id(5000), mint_no(0)), Err(NcnError::CapacityExceeded));
}

#[test]
fn weight_table_needs_a_registered_mint() {
    let r = VaultRegistry::new();
    assert_eq!(WeightTable::initialize(10, &r).err(), Some(NcnError::RegistryEmpty));
}

#[test]
fn weight_table_copies_the_registry() {
    let mut r = VaultRegistry::new();
    assert_eq!(r.register_st_mint(mint_no(1), Some(3)), Ok(()));
    assert_eq!(r.register_st_mint(mint_no(2), None), Ok(()));
    let t = WeightTable::initialize(10, &r).unwrap();
    assert_eq!(t.epoch, 10);
    assert_eq!(t.capacity, INITIAL_CAPACITY);
    assert!(!t.finalized);
    assert_eq!(t.entries, r.st_mints);
    assert_eq!(t.find(mint_no(2)), Some(1));
    assert_eq!(t.find(mint_no(3)), None);
    assert!(!t.all_set());
}

#[test]
fn weight_table_is_not_read_before_it_is_final() {
    let mut r = VaultRegistry::new();
    assert_eq!(r.register_st_mint(mint_no(1), Some(3)), Ok(()));
    let mut t = WeightTable::initialize(10, &r).unwrap();
    assert_eq!(t.lookup(mint_no(1)), Err(NcnError::WeightTableNotFinalized));
    assert_eq!(t.finalize(), Ok(()));
    assert_eq!(t.lookup(mint_no(1)), Ok(3));
    assert_eq!(t.lookup(mint_no(2)), Err(NcnError::UnknownMint));
}

#[test]
fn weight_table_is_final_only_with_every_weight_set() {
    let mut r = VaultRegistry::new();
    assert_eq!(r.register_st_mint(mint_no(1), Some(3)), Ok(()));
    assert_eq!(r.register_st_mint(mint_no(2), None), Ok(()));
    let mut t = WeightTable::initialize(10, &r).unwrap();
    assert_eq!(t.finalize(), Err(NcnError::NotReady));
    assert!(!t.finalized);
    assert_eq!(t.set_weight(mint_no(3), 8), Err(NcnError::UnknownMint));
    assert_eq!(t.set_weight(mint_no(2), 8), Ok(()));
    assert!(t.all_set());
    assert_eq!(t.finalize(), Ok(()));
    assert!(t.finalized);
    // Finalizing again is a success that changes nothing.
    assert_eq!(t.finalize(), Ok(()));
    assert_eq!(t.lookup(mint_no(2)), Ok(8));
}

#[test]
fn final_weight_table_cannot_be_written() {
    let mut r = VaultRegistry::new();
    assert_eq!(r.register_st_mint(mint_no(1), Some(3)), Ok(()));
    let mut t = WeightTable::initialize(10, &r).unwrap();
    assert_eq!(t.set_weight(mint_no(1), 4), Ok(()));
    assert_eq!(t.finalize(), Ok(()));
    assert_eq!(t.set_weight(mint_no(1), 5), Err(NcnError::WeightTableFinalized));
    assert_eq!(t.lookup(mint_no(1)), Ok(4));
    t.realloc();
    assert_eq!(t.capacity, INITIAL_CAPACITY + CAPACITY_STEP);
    assert_eq!(t.lookup(mint_no(1)), Ok(4));
    assert!(t.finalized);
}

#[test]
fn later_registry_weight_does_not_reach_the_table() {
    let mut r = VaultRegistry::new();
    assert_eq!(r.register_st_mint(mint_no(1), Some(3)), Ok(()));
    let mut t = WeightTable::initialize(10, &r).unwrap();
    assert_eq!(t.finalize(), Ok(()));
    assert_eq!(r.set_st_mint(mint_no(1), Some(1000)), Ok(()));
    assert_eq!(r.weight_of(mint_no(1)), Some(1000));
    assert_eq!(t.lookup(mint_no(1)), Ok(3));
}

#[test]
fn large_registry_gives_a_table_that_holds_it() {
    let mut r = VaultRegistry::new();
    r.realloc();
    for n in 0..20u128 {
        assert_eq!(r.register_st_mint(mint_no(n), Some(n + 1)), Ok(()));
    }
    let mut t = WeightTable::initialize(10, &r).unwrap();
    assert_eq!(t.capacity, 20);
    assert_eq!(t.entries.len(), 20);
    assert_eq!(t.finalize(), Ok(()));
    assert_eq!(t.lookup(mint_no(19)), Ok(20));
}
