//! The weights of one epoch: copied from the registry when the epoch starts,
//! then frozen, so that a later change of a mint's weight cannot reach an
//! epoch that is under way.

use vstd::prelude::*;
use crate::capacity::{grown, spec_grown, INITIAL_CAPACITY, MAX_ST_MINTS};
use crate::error::NcnError;
use crate::pubkey::Pubkey;
use crate::seq_model::{
    absent, distinct, is_first, lemma_position, lemma_position_is, lemma_position_none, position,
};
use crate::vault_registry::{StMintEntry, VaultRegistry, VaultRegistryView};

verus! {

/// The weight table of one epoch.
#[derive(Clone, Debug)]
pub struct WeightTable {
    pub epoch: u64,
    /// How many mints fit.
    pub capacity: usize,
    /// The mints in the registry's order, each with its weight for the epoch.
    pub entries: Vec<StMintEntry>,
    /// Once set, nothing in the table changes.
    pub finalized: bool,
}

/// The weight table as a mathematical value.
pub ghost struct WeightTableView {
    pub epoch: u64,
    pub capacity: usize,
    pub entries: Seq<StMintEntry>,
    pub finalized: bool,
}

/// Every entry has a weight.
pub open spec fn all_weights_set(entries: Seq<StMintEntry>) -> bool {
    forall|i: int| 0 <= i < entries.len() ==> (#[trigger] entries[i]).weight is Some
}

/// The capacity with which a table of `len` entries is created.
pub open spec fn initial_capacity(len: nat) -> usize {
    if len > INITIAL_CAPACITY {
        len as usize
    } else {
        INITIAL_CAPACITY
    }
}

impl WeightTableView {
    /// The mints of the table, in order.
    pub open spec fn mint_keys(self) -> Seq<Pubkey> {
        Seq::new(self.entries.len(), |i: int| self.entries[i].st_mint)
    }

    /// The weight that the table holds for `st_mint`, final or not.
    pub open spec fn weight_of(self, st_mint: Pubkey) -> Option<u128> {
        match position(self.mint_keys(), st_mint) {
            Some(i) => self.entries[i].weight,
            None => None,
        }
    }

    /// No mint stands twice, the entries fit, and a final table has a weight
    /// for every mint.
    pub open spec fn wf(self) -> bool {
        &&& distinct(self.mint_keys())
        &&& self.entries.len() <= self.capacity
        &&& self.finalized ==> all_weights_set(self.entries)
    }

    /// The table that an epoch starts with, or the reason for which none can
    /// be made: a copy of the registry's mints and their current weights.
    pub open spec fn from_registry(epoch: u64, registry: VaultRegistryView) -> Result<
        WeightTableView,
        NcnError,
    > {
        if registry.st_mints.len() == 0 {
            Err(NcnError::RegistryEmpty)
        } else {
            Ok(
                WeightTableView {
                    epoch,
                    capacity: initial_capacity(registry.st_mints.len()),
                    entries: registry.st_mints,
                    finalized: false,
                },
            )
        }
    }

    /// The table after one expansion.
    pub open spec fn realloc(self) -> WeightTableView {
        WeightTableView { capacity: spec_grown(self.capacity, MAX_ST_MINTS), ..self }
    }

    /// The table after the weight of `st_mint` was set for the epoch, or the
    /// reason for which it cannot be.
    pub open spec fn set_weight(self, st_mint: Pubkey, weight: u128) -> Result<
        WeightTableView,
        NcnError,
    > {
        if self.finalized {
            Err(NcnError::WeightTableFinalized)
        } else {
            match position(self.mint_keys(), st_mint) {
                None => Err(NcnError::UnknownMint),
                Some(i) => Ok(
                    WeightTableView {
                        entries: self.entries.update(
                            i,
                            StMintEntry { st_mint, weight: Some(weight) },
                        ),
                        ..self
                    },
                ),
            }
        }
    }

    /// The table after it was asked to become final, or the reason for which
    /// it cannot: a final table stays as it is.
    pub open spec fn finalize(self) -> Result<WeightTableView, NcnError> {
        if self.finalized {
            Ok(self)
        } else if !all_weights_set(self.entries) {
            Err(NcnError::NotReady)
        } else {
            Ok(WeightTableView { finalized: true, ..self })
        }
    }

    /// The frozen weight of `st_mint`, or the reason for which there is none
    /// to read.
    pub open spec fn lookup(self, st_mint: Pubkey) -> Result<u128, NcnError> {
        if !self.finalized {
            Err(NcnError::WeightTableNotFinalized)
        } else {
            match self.weight_of(st_mint) {
                Some(w) => Ok(w),
                None => Err(NcnError::UnknownMint),
            }
        }
    }
}

impl View for WeightTable {
    type V = WeightTableView;

    open spec fn view(&self) -> WeightTableView {
        WeightTableView {
            epoch: self.epoch,
            capacity: self.capacity,
            entries: self.entries@,
            finalized: self.finalized,
        }
    }
}

impl WeightTable {
    /// Starts the table of `epoch` as a copy of the registry's mints and
    /// their current weights. The copy is not final yet.
    pub fn initialize(epoch: u64, registry: &VaultRegistry) -> (r: Result<WeightTable, NcnError>)
        ensures
            match WeightTableView::from_registry(epoch, registry@) {
                Ok(post) => r is Ok && r->Ok_0@ == post,
                Err(e) => r == Err::<WeightTable, NcnError>(e),
            },
            registry@.wf() && r is Ok ==> r->Ok_0@.wf(),
    {
        let n = registry.st_mints.len();
        if n == 0 {
            return Err(NcnError::RegistryEmpty);
        }
        let mut entries: Vec<StMintEntry> = Vec::new();
        let mut i: usize = 0;
        while i < n
            invariant
                n == registry.st_mints.len(),
                i <= n,
                entries@ == registry.st_mints@.subrange(0, i as int),
            decreases n - i,
        {
            entries.push(registry.st_mints[i]);
            assert(entries@ =~= registry.st_mints@.subrange(0, i + 1));
            i += 1;
        }
        assert(entries@ =~= registry.st_mints@);
        let capacity = if n > INITIAL_CAPACITY {
            n
        } else {
            INITIAL_CAPACITY
        };
        let table = WeightTable { epoch, capacity, entries, finalized: false };
        proof {
            assert(table@.mint_keys() =~= registry@.mint_keys());
        }
        Ok(table)
    }

    /// Lets the table hold a step more mints, up to the most it can ever
    /// hold. The weights are not touched.
    pub fn realloc(&mut self)
        ensures
            final(self)@ == old(self)@.realloc(),
            old(self)@.wf() ==> final(self)@.wf(),
    {
        self.capacity = grown(self.capacity, MAX_ST_MINTS);
    }

    /// The place of `st_mint` in the table.
    pub fn find(&self, st_mint: Pubkey) -> (r: Option<usize>)
        ensures
            match r {
                Some(i) => position(self@.mint_keys(), st_mint) == Some(i as int),
                None => position(self@.mint_keys(), st_mint) is None,
            },
    {
        let ghost keys = self@.mint_keys();
        let mut i: usize = 0;
        while i < self.entries.len()
            invariant
                i <= self.entries.len(),
                keys == self@.mint_keys(),
                forall|j: int| 0 <= j < i ==> keys[j] != st_mint,
            decreases self.entries.len() - i,
        {
            if self.entries[i].st_mint == st_mint {
                proof {
                    assert(is_first(keys, st_mint, i as int));
                    lemma_position_is(keys, st_mint, i as int);
                }
                return Some(i);
            }
            i += 1;
        }
        proof {
            assert(absent(keys, st_mint));
            lemma_position_none(keys, st_mint);
        }
        None
    }

    /// Sets the weight of one of the table's mints for this epoch, while the
    /// table is not final.
    pub fn set_weight(&mut self, st_mint: Pubkey, weight: u128) -> (r: Result<(), NcnError>)
        ensures
            match old(self)@.set_weight(st_mint, weight) {
                Ok(post) => r is Ok && final(self)@ == post,
                Err(e) => r == Err::<(), NcnError>(e) && *final(self) == *old(self),
            },
            old(self)@.wf() ==> final(self)@.wf(),
    {
        if self.finalized {
            return Err(NcnError::WeightTableFinalized);
        }
        match self.find(st_mint) {
            None => Err(NcnError::UnknownMint),
            Some(i) => {
                self.entries[i] = StMintEntry { st_mint, weight: Some(weight) };
                proof {
                    lemma_position(old(self)@.mint_keys(), st_mint);
                    assert(final(self)@.mint_keys() =~= old(self)@.mint_keys());
                }
                Ok(())
            },
        }
    }

    /// Whether every mint of the table has a weight.
    pub fn all_set(&self) -> (b: bool)
        ensures
            b == all_weights_set(self@.entries),
    {
        let mut i: usize = 0;
        while i < self.entries.len()
            invariant
                i <= self.entries.len(),
                forall|j: int| 0 <= j < i ==> (#[trigger] self.entries@[j]).weight is Some,
            decreases self.entries.len() - i,
        {
            if self.entries[i].weight.is_none() {
                return false;
            }
            i += 1;
        }
        true
    }

    /// Freezes the table. Every mint must have a weight by then. A table
    /// that is final already stays as it is, and the call succeeds.
    pub fn finalize(&mut self) -> (r: Result<(), NcnError>)
        ensures
            match old(self)@.finalize() {
                Ok(post) => r is Ok && final(self)@ == post,
                Err(e) => r == Err::<(), NcnError>(e) && *final(self) == *old(self),
            },
            old(self)@.wf() ==> final(self)@.wf(),
            r is Ok ==> final(self)@.finalized,
    {
        if self.finalized {
            return Ok(());
        }
        if !self.all_set() {
            return Err(NcnError::NotReady);
        }
        self.finalized = true;
        Ok(())
    }

    /// Reads the frozen weight of `st_mint`. A table that can still change is
    /// not read.
    pub fn lookup(&self, st_mint: Pubkey) -> (r: Result<u128, NcnError>)
        ensures
            r == self@.lookup(st_mint),
    {
        if !self.finalized {
            return Err(NcnError::WeightTableNotFinalized);
        }
        match self.find(st_mint) {
            None => Err(NcnError::UnknownMint),
            Some(i) => match self.entries[i].weight {
                Some(w) => Ok(w),
                None => Err(NcnError::UnknownMint),
            },
        }
    }
}

/// Nothing that can be asked of a final table changes it: an expansion keeps
/// every entry, a write of a weight is refused, and to finalize it again is
/// to leave it as it is. So the weight that `lookup` reads for a mint stays
/// the one that the table held when it became final.
pub proof fn lemma_final_table_is_frozen(table: WeightTableView, st_mint: Pubkey, weight: u128)
    requires
        table.finalized,
    ensures
        table.set_weight(st_mint, weight) == Err::<WeightTableView, NcnError>(
            NcnError::WeightTableFinalized,
        ),
        table.finalize() == Ok::<WeightTableView, NcnError>(table),
        table.realloc().entries == table.entries,
        table.realloc().finalized,
        forall|m: Pubkey| table.realloc().lookup(m) == table.lookup(m),
{
    assert(table.realloc().mint_keys() =~= table.mint_keys());
}

/// A table copies the registry as it is when the epoch starts: for every
/// mint, the table's weight is the registry's weight of that moment.
pub proof fn lemma_table_copies_registry(epoch: u64, registry: VaultRegistryView, st_mint: Pubkey)
    requires
        WeightTableView::from_registry(epoch, registry) is Ok,
    ensures
        WeightTableView::from_registry(epoch, registry)->Ok_0.weight_of(st_mint)
            == registry.weight_of(st_mint),
{
    let table = WeightTableView::from_registry(epoch, registry)->Ok_0;
    assert(table.mint_keys() =~= registry.mint_keys());
}

} // verus!
