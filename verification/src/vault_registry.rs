//! The live set of vaults and the current weight of each stake mint.

use vstd::prelude::*;
use crate::capacity::{grown, spec_grown, INITIAL_CAPACITY, MAX_ST_MINTS, MAX_VAULTS};
use crate::error::NcnError;
use crate::pubkey::Pubkey;
use crate::seq_model::{
    absent, distinct, is_first, lemma_position_is, lemma_position_none, position,
};

verus! {

/// A registered stake mint and its current weight, if one has been set.
#[derive(Clone, Copy, Debug, PartialEq, Eq, Structural)]
pub struct StMintEntry {
    pub st_mint: Pubkey,
    pub weight: Option<u128>,
}

/// A registered vault and the mint in which its stake is denominated.
#[derive(Clone, Copy, Debug, PartialEq, Eq, Structural)]
pub struct VaultEntry {
    pub vault: Pubkey,
    pub st_mint: Pubkey,
}

/// The registry: mints and vaults in the order of their registration.
#[derive(Clone, Debug)]
pub struct VaultRegistry {
    /// How many mints, and how many vaults, fit.
    pub capacity: usize,
    pub st_mints: Vec<StMintEntry>,
    pub vaults: Vec<VaultEntry>,
}

/// The registry as a mathematical value.
pub ghost struct VaultRegistryView {
    pub capacity: usize,
    pub st_mints: Seq<StMintEntry>,
    pub vaults: Seq<VaultEntry>,
}

impl VaultRegistryView {
    /// The registered mints, in order.
    pub open spec fn mint_keys(self) -> Seq<Pubkey> {
        Seq::new(self.st_mints.len(), |i: int| self.st_mints[i].st_mint)
    }

    /// The registered vaults, in order.
    pub open spec fn vault_keys(self) -> Seq<Pubkey> {
        Seq::new(self.vaults.len(), |i: int| self.vaults[i].vault)
    }

    /// The current weight of `st_mint`: `None` where the mint is not
    /// registered or has no weight yet.
    pub open spec fn weight_of(self, st_mint: Pubkey) -> Option<u128> {
        match position(self.mint_keys(), st_mint) {
            Some(i) => self.st_mints[i].weight,
            None => None,
        }
    }

    /// The mint of `vault`, if the vault is registered.
    pub open spec fn mint_of(self, vault: Pubkey) -> Option<Pubkey> {
        match position(self.vault_keys(), vault) {
            Some(i) => Some(self.vaults[i].st_mint),
            None => None,
        }
    }

    /// Nothing is registered twice, both lists fit, and every vault's mint is
    /// registered.
    pub open spec fn wf(self) -> bool {
        &&& distinct(self.mint_keys())
        &&& distinct(self.vault_keys())
        &&& self.st_mints.len() <= self.capacity
        &&& self.vaults.len() <= self.capacity
        &&& forall|i: int|
            0 <= i < self.vaults.len() ==> position(
                self.mint_keys(),
                #[trigger] self.vaults[i].st_mint,
            ) is Some
    }

    /// The registry after one expansion.
    pub open spec fn realloc(self) -> VaultRegistryView {
        VaultRegistryView {
            capacity: spec_grown(
                self.capacity,
                if MAX_ST_MINTS >= MAX_VAULTS {
                    MAX_ST_MINTS
                } else {
                    MAX_VAULTS
                },
            ),
            ..self
        }
    }

    /// The registry after `st_mint` was registered with `weight`, or the
    /// reason for which it cannot be.
    pub open spec fn register_st_mint(self, st_mint: Pubkey, weight: Option<u128>) -> Result<
        VaultRegistryView,
        NcnError,
    > {
        if position(self.mint_keys(), st_mint) is Some {
            Err(NcnError::AlreadyRegistered)
        } else if self.st_mints.len() >= self.capacity || self.st_mints.len() >= MAX_ST_MINTS {
            Err(NcnError::CapacityExceeded)
        } else {
            Ok(
                VaultRegistryView {
                    st_mints: self.st_mints.push(StMintEntry { st_mint, weight }),
                    ..self
                },
            )
        }
    }

    /// The registry after the weight of `st_mint` was set, or the reason for
    /// which it cannot be. Without a weight the mint stays as it is.
    pub open spec fn set_st_mint(self, st_mint: Pubkey, weight: Option<u128>) -> Result<
        VaultRegistryView,
        NcnError,
    > {
        match position(self.mint_keys(), st_mint) {
            None => Err(NcnError::UnknownMint),
            Some(i) => match weight {
                None => Ok(self),
                Some(w) => Ok(
                    VaultRegistryView {
                        st_mints: self.st_mints.update(i, StMintEntry { st_mint, weight: Some(w) }),
                        ..self
                    },
                ),
            },
        }
    }

    /// The registry after `vault`, with stake in `st_mint`, was registered, or
    /// the reason for which it cannot be.
    pub open spec fn register_vault(self, vault: Pubkey, st_mint: Pubkey) -> Result<
        VaultRegistryView,
        NcnError,
    > {
        if position(self.mint_keys(), st_mint) is None {
            Err(NcnError::UnknownMint)
        } else if position(self.vault_keys(), vault) is Some {
            Err(NcnError::AlreadyRegistered)
        } else if self.vaults.len() >= self.capacity || self.vaults.len() >= MAX_VAULTS {
            Err(NcnError::CapacityExceeded)
        } else {
            Ok(VaultRegistryView { vaults: self.vaults.push(VaultEntry { vault, st_mint }), ..self })
        }
    }
}

impl View for VaultRegistry {
    type V = VaultRegistryView;

    open spec fn view(&self) -> VaultRegistryView {
        VaultRegistryView { capacity: self.capacity, st_mints: self.st_mints@, vaults: self.vaults@ }
    }
}

impl VaultRegistry {
    /// An empty registry.
    pub fn new() -> (r: VaultRegistry)
        ensures
            r@.capacity == INITIAL_CAPACITY,
            r@.st_mints.len() == 0,
            r@.vaults.len() == 0,
            r@.wf(),
    {
        VaultRegistry { capacity: INITIAL_CAPACITY, st_mints: Vec::new(), vaults: Vec::new() }
    }

    /// Lets the registry hold a step more mints and vaults, up to the most it
    /// can ever hold; a registry that is at that bound stays as it is.
    pub fn realloc(&mut self)
        ensures
            final(self)@ == old(self)@.realloc(),
            old(self)@.wf() ==> final(self)@.wf(),
    {
        let max = if MAX_ST_MINTS >= MAX_VAULTS {
            MAX_ST_MINTS
        } else {
            MAX_VAULTS
        };
        self.capacity = grown(self.capacity, max);
    }

    /// The number of registered mints.
    pub fn st_mint_count(&self) -> (n: usize)
        ensures
            n == self@.st_mints.len(),
    {
        self.st_mints.len()
    }

    /// The number of registered vaults.
    pub fn vault_count(&self) -> (n: usize)
        ensures
            n == self@.vaults.len(),
    {
        self.vaults.len()
    }

    /// The place of `st_mint` among the registered mints.
    pub fn find_st_mint(&self, st_mint: Pubkey) -> (r: Option<usize>)
        ensures
            match r {
                Some(i) => position(self@.mint_keys(), st_mint) == Some(i as int),
                None => position(self@.mint_keys(), st_mint) is None,
            },
    {
        let ghost keys = self@.mint_keys();
        let mut i: usize = 0;
        while i < self.st_mints.len()
            invariant
                i <= self.st_mints.len(),
                keys == self@.mint_keys(),
                forall|j: int| 0 <= j < i ==> keys[j] != st_mint,
            decreases self.st_mints.len() - i,
        {
            if self.st_mints[i].st_mint == st_mint {
                proof {
                    assert(is_first(keys, st_mint, i as int));
                    lemma_position_is(keys, st_mint, i as int);
                }
                return Some(i);
            }
            i += 1;
        }
        proof {
            assert(absent(keys, st_mint));
            lemma_position_none(keys, st_mint);
        }
        None
    }

    /// The place of `vault` among the registered vaults.
    pub fn find_vault(&self, vault: Pubkey) -> (r: Option<usize>)
        ensures
            match r {
                Some(i) => position(self@.vault_keys(), vault) == Some(i as int),
                None => position(self@.vault_keys(), vault) is None,
            },
    {
        let ghost keys = self@.vault_keys();
        let mut i: usize = 0;
        while i < self.vaults.len()
            invariant
                i <= self.vaults.len(),
                keys == self@.vault_keys(),
                forall|j: int| 0 <= j < i ==> keys[j] != vault,
            decreases self.vaults.len() - i,
        {
            if self.vaults[i].vault == vault {
                proof {
                    assert(is_first(keys, vault, i as int));
                    lemma_position_is(keys, vault, i as int);
                }
                return Some(i);
            }
            i += 1;
        }
        proof {
            assert(absent(keys, vault));
            lemma_position_none(keys, vault);
        }
        None
    }

    /// The current weight of `st_mint`, if it is registered and has one.
    pub fn weight_of(&self, st_mint: Pubkey) -> (w: Option<u128>)
        ensures
            w == self@.weight_of(st_mint),
    {
        match self.find_st_mint(st_mint) {
            Some(i) => self.st_mints[i].weight,
            None => None,
        }
    }

    /// The mint of `vault`, if the vault is registered.
    pub fn mint_of(&self, vault: Pubkey) -> (m: Option<Pubkey>)
        ensures
            m == self@.mint_of(vault),
    {
        match self.find_vault(vault) {
            Some(i) => Some(self.vaults[i].st_mint),
            None => None,
        }
    }

    /// Registers a stake mint, with or without a first weight.
    pub fn register_st_mint(&mut self, st_mint: Pubkey, weight: Option<u128>) -> (r: Result<
        (),
        NcnError,
    >)
        ensures
            match old(self)@.register_st_mint(st_mint, weight) {
                Ok(post) => r is Ok && final(self)@ == post,
                Err(e) => r == Err::<(), NcnError>(e) && *final(self) == *old(self),
            },
            old(self)@.wf() ==> final(self)@.wf(),
    {
        if self.find_st_mint(st_mint).is_some() {
            return Err(NcnError::AlreadyRegistered);
        }
        if self.st_mints.len() >= self.capacity || self.st_mints.len() >= MAX_ST_MINTS {
            return Err(NcnError::CapacityExceeded);
        }
        self.st_mints.push(StMintEntry { st_mint, weight });
        proof {
            if old(self)@.wf() {
                lemma_register_st_mint_wf(old(self)@, st_mint, weight);
            }
        }
        Ok(())
    }

    /// Sets the current weight of a registered mint. Without a weight the
    /// mint stays as it is.
    pub fn set_st_mint(&mut self, st_mint: Pubkey, weight: Option<u128>) -> (r: Result<
        (),
        NcnError,
    >)
        ensures
            match old(self)@.set_st_mint(st_mint, weight) {
                Ok(post) => r is Ok && final(self)@ == post,
                Err(e) => r == Err::<(), NcnError>(e) && *final(self) == *old(self),
            },
            old(self)@.wf() ==> final(self)@.wf(),
    {
        match self.find_st_mint(st_mint) {
            None => Err(NcnError::UnknownMint),
            Some(i) => {
                if let Some(w) = weight {
                    self.st_mints[i] = StMintEntry { st_mint, weight: Some(w) };
                    proof {
                        if old(self)@.wf() {
                lemma_set_st_mint_wf(old(self)@, st_mint, weight);
            }
                    }
                }
                Ok(())
            },
        }
    }

    /// Registers a vault whose stake is denominated in a registered mint.
    pub fn register_vault(&mut self, vault: Pubkey, st_mint: Pubkey) -> (r: Result<(), NcnError>)
        ensures
            match old(self)@.register_vault(vault, st_mint) {
                Ok(post) => r is Ok && final(self)@ == post,
                Err(e) => r == Err::<(), NcnError>(e) && *final(self) == *old(self),
            },
            old(self)@.wf() ==> final(self)@.wf(),
    {
        if self.find_st_mint(st_mint).is_none() {
            return Err(NcnError::UnknownMint);
        }
        if self.find_vault(vault).is_some() {
            return Err(NcnError::AlreadyRegistered);
        }
        if self.vaults.len() >= self.capacity || self.vaults.len() >= MAX_VAULTS {
            return Err(NcnError::CapacityExceeded);
        }
        self.vaults.push(VaultEntry { vault, st_mint });
        proof {
            if old(self)@.wf() {
                lemma_register_vault_wf(old(self)@, vault, st_mint);
            }
        }
        Ok(())
    }
}

/// Registering a mint keeps a registry well formed.
pub proof fn lemma_register_st_mint_wf(pre: VaultRegistryView, st_mint: Pubkey, weight: Option<u128>)
    requires
        pre.wf(),
        pre.register_st_mint(st_mint, weight) is Ok,
    ensures
        pre.register_st_mint(st_mint, weight)->Ok_0.wf(),
{
    let post = pre.register_st_mint(st_mint, weight)->Ok_0;
    crate::seq_model::lemma_position(pre.mint_keys(), st_mint);
    assert(post.mint_keys() =~= pre.mint_keys().push(st_mint));
    assert(post.vault_keys() =~= pre.vault_keys());
    assert forall|i: int| 0 <= i < post.vaults.len() implies position(
        post.mint_keys(),
        #[trigger] post.vaults[i].st_mint,
    ) is Some by {
        let m = post.vaults[i].st_mint;
        crate::seq_model::lemma_position(pre.mint_keys(), m);
        let p = position(pre.mint_keys(), m)->0;
        assert(is_first(post.mint_keys(), m, p));
        lemma_position_is(post.mint_keys(), m, p);
    }
}

/// Setting a mint's weight keeps a registry well formed.
pub proof fn lemma_set_st_mint_wf(pre: VaultRegistryView, st_mint: Pubkey, weight: Option<u128>)
    requires
        pre.wf(),
        pre.set_st_mint(st_mint, weight) is Ok,
    ensures
        pre.set_st_mint(st_mint, weight)->Ok_0.wf(),
{
    let post = pre.set_st_mint(st_mint, weight)->Ok_0;
    crate::seq_model::lemma_position(pre.mint_keys(), st_mint);
    assert(post.mint_keys() =~= pre.mint_keys());
}

/// Registering a vault keeps a registry well formed.
pub proof fn lemma_register_vault_wf(pre: VaultRegistryView, vault: Pubkey, st_mint: Pubkey)
    requires
        pre.wf(),
        pre.register_vault(vault, st_mint) is Ok,
    ensures
        pre.register_vault(vault, st_mint)->Ok_0.wf(),
{
    let post = pre.register_vault(vault, st_mint)->Ok_0;
    crate::seq_model::lemma_position(pre.vault_keys(), vault);
    assert(post.vault_keys() =~= pre.vault_keys().push(vault));
    assert(post.mint_keys() =~= pre.mint_keys());
}

} // verus!
