//! The frozen voting weight of one operator in one epoch, built up from the
//! delegations of the epoch's vaults, each of which counts once.

use vstd::prelude::*;
use crate::error::NcnError;
use crate::pubkey::Pubkey;
use crate::seq_model::{
    absent, distinct, is_first, lemma_position, lemma_position_is, lemma_position_none,
    lemma_sum_push, position, sum,
};

verus! {

/// What one vault's delegation added to the operator's weight.
#[derive(Clone, Copy, Debug, PartialEq, Eq, Structural)]
pub struct LedgerEntry {
    pub vault: Pubkey,
    pub contribution: u128,
}

/// The snapshot of one operator.
#[derive(Clone, Debug)]
pub struct OperatorSnapshot {
    pub epoch: u64,
    pub operator: Pubkey,
    /// The number of vaults whose delegations make up the operator's weight.
    pub expected_vaults: u64,
    /// The weight accumulated so far.
    pub stake_weight: u128,
    /// The vaults folded in so far, in the order of their folding.
    pub ledger: Vec<LedgerEntry>,
    /// Once set, the weight is the operator's voting weight for the epoch.
    pub finalized: bool,
}

/// The snapshot as a mathematical value.
pub ghost struct OperatorSnapshotView {
    pub epoch: u64,
    pub operator: Pubkey,
    pub expected_vaults: u64,
    pub stake_weight: u128,
    pub ledger: Seq<LedgerEntry>,
    pub finalized: bool,
}

/// The weight that a delegation of `delegated_amount` in a mint of weight
/// `weight` contributes, as a mathematical integer.
pub open spec fn contribution_of(delegated_amount: u64, weight: u128) -> int {
    delegated_amount as int * weight as int
}

/// The weight that a delegation contributes, or the failure where it does
/// not fit.
pub open spec fn spec_contribution(delegated_amount: u64, weight: u128) -> Result<u128, NcnError> {
    if contribution_of(delegated_amount, weight) > u128::MAX {
        Err(NcnError::WeightArithmeticOverflow)
    } else {
        Ok(contribution_of(delegated_amount, weight) as u128)
    }
}

/// The weight that a delegation of `delegated_amount` in a mint of weight
/// `weight` contributes: their product. A product that does not fit is a
/// failure, never a wrapped or clipped number.
#[verifier::when_used_as_spec(spec_contribution)]
pub fn contribution(delegated_amount: u64, weight: u128) -> (r: Result<u128, NcnError>)
    ensures
        r == spec_contribution(delegated_amount, weight),
{
    match (delegated_amount as u128).checked_mul(weight) {
        Some(c) => Ok(c),
        None => Err(NcnError::WeightArithmeticOverflow),
    }
}

impl OperatorSnapshotView {
    /// The vaults folded in so far, in order.
    pub open spec fn vault_keys(self) -> Seq<Pubkey> {
        Seq::new(self.ledger.len(), |i: int| self.ledger[i].vault)
    }

    /// The contributions folded in so far, in order.
    pub open spec fn contributions(self) -> Seq<int> {
        Seq::new(self.ledger.len(), |i: int| self.ledger[i].contribution as int)
    }

    /// Whether the delegation of `vault` has been folded in.
    pub open spec fn has_folded(self, vault: Pubkey) -> bool {
        position(self.vault_keys(), vault) is Some
    }

    /// No vault stands twice in the ledger, the weight is the sum of the
    /// ledger's contributions, the ledger holds no more vaults than expected,
    /// and a final snapshot holds them all.
    pub open spec fn wf(self) -> bool {
        &&& distinct(self.vault_keys())
        &&& self.stake_weight == sum(self.contributions())
        &&& self.ledger.len() <= self.expected_vaults
        &&& self.finalized ==> self.ledger.len() == self.expected_vaults
    }

    /// The snapshot that an operator starts with.
    pub open spec fn new(epoch: u64, operator: Pubkey, expected_vaults: u64) -> OperatorSnapshotView {
        OperatorSnapshotView {
            epoch,
            operator,
            expected_vaults,
            stake_weight: 0,
            ledger: Seq::empty(),
            finalized: false,
        }
    }

    /// The snapshot after the delegation of `vault` was folded in with the
    /// given contribution, or the reason for which it cannot be.
    pub open spec fn fold(self, vault: Pubkey, contribution: u128) -> Result<
        OperatorSnapshotView,
        NcnError,
    > {
        if self.has_folded(vault) {
            Err(NcnError::DuplicateDelegation)
        } else if self.finalized {
            Err(NcnError::InvalidStageTransition)
        } else if self.ledger.len() >= self.expected_vaults {
            Err(NcnError::UnknownVault)
        } else if self.stake_weight + contribution > u128::MAX {
            Err(NcnError::WeightArithmeticOverflow)
        } else {
            Ok(
                OperatorSnapshotView {
                    stake_weight: (self.stake_weight + contribution) as u128,
                    ledger: self.ledger.push(LedgerEntry { vault, contribution }),
                    ..self
                },
            )
        }
    }

    /// Whether every expected vault has been folded in.
    pub open spec fn complete(self) -> bool {
        self.ledger.len() >= self.expected_vaults
    }

    /// The snapshot after it was asked to become final, or the reason for
    /// which it cannot: a final snapshot stays as it is.
    pub open spec fn finalize(self) -> Result<OperatorSnapshotView, NcnError> {
        if self.finalized {
            Ok(self)
        } else if !self.complete() {
            Err(NcnError::NotReady)
        } else {
            Ok(OperatorSnapshotView { finalized: true, ..self })
        }
    }
}

impl View for OperatorSnapshot {
    type V = OperatorSnapshotView;

    open spec fn view(&self) -> OperatorSnapshotView {
        OperatorSnapshotView {
            epoch: self.epoch,
            operator: self.operator,
            expected_vaults: self.expected_vaults,
            stake_weight: self.stake_weight,
            ledger: self.ledger@,
            finalized: self.finalized,
        }
    }
}

impl OperatorSnapshot {
    /// The snapshot that an operator starts with: no weight, nothing folded.
    pub fn new(epoch: u64, operator: Pubkey, expected_vaults: u64) -> (r: OperatorSnapshot)
        ensures
            r@ == OperatorSnapshotView::new(epoch, operator, expected_vaults),
            r@.wf(),
    {
        let r = OperatorSnapshot {
            epoch,
            operator,
            expected_vaults,
            stake_weight: 0,
            ledger: Vec::new(),
            finalized: false,
        };
        assert(r@.ledger =~= Seq::empty());
        assert(r@.contributions() =~= Seq::empty());
        r
    }

    /// The place of `vault` in the ledger.
    pub fn find_vault(&self, vault: Pubkey) -> (r: Option<usize>)
        ensures
            match r {
                Some(i) => position(self@.vault_keys(), vault) == Some(i as int),
                None => position(self@.vault_keys(), vault) is None,
            },
    {
        let ghost keys = self@.vault_keys();
        let mut i: usize = 0;
        while i < self.ledger.len()
            invariant
                i <= self.ledger.len(),
                keys == self@.vault_keys(),
                forall|j: int| 0 <= j < i ==> keys[j] != vault,
            decreases self.ledger.len() - i,
        {
            if self.ledger[i].vault == vault {
                proof {
                    assert(is_first(keys, vault, i as int));
                    lemma_position_is(keys, vault, i as int);
                }
                return Some(i);
            }
            i += 1;
        }
        proof {
            assert(absent(keys, vault));
            lemma_position_none(keys, vault);
        }
        None
    }

    /// Whether the delegation of `vault` has been folded in.
    pub fn has_folded(&self, vault: Pubkey) -> (b: bool)
        ensures
            b == self@.has_folded(vault),
    {
        self.find_vault(vault).is_some()
    }

    /// Whether every expected vault has been folded in.
    pub fn complete(&self) -> (b: bool)
        ensures
            b == self@.complete(),
    {
        self.ledger.len() as u64 >= self.expected_vaults
    }

    /// Whether the delegation of `vault` can be folded in with the given
    /// contribution: the weight that the operator would then have, or the
    /// reason for which the fold would be refused. Nothing is changed.
    pub fn check_fold(&self, vault: Pubkey, contribution: u128) -> (r: Result<u128, NcnError>)
        ensures
            match self@.fold(vault, contribution) {
                Ok(post) => r == Ok::<u128, NcnError>(post.stake_weight),
                Err(e) => r == Err::<u128, NcnError>(e),
            },
    {
        if self.has_folded(vault) {
            return Err(NcnError::DuplicateDelegation);
        }
        if self.finalized {
            return Err(NcnError::InvalidStageTransition);
        }
        if self.ledger.len() as u64 >= self.expected_vaults {
            return Err(NcnError::UnknownVault);
        }
        match self.stake_weight.checked_add(contribution) {
            None => Err(NcnError::WeightArithmeticOverflow),
            Some(weight) => Ok(weight),
        }
    }

    /// Folds the delegation of `vault` in: its contribution is added to the
    /// weight and the vault is entered in the ledger, so that it cannot
    /// count again.
    pub fn fold(&mut self, vault: Pubkey, contribution: u128) -> (r: Result<(), NcnError>)
        ensures
            match old(self)@.fold(vault, contribution) {
                Ok(post) => r is Ok && final(self)@ == post,
                Err(e) => r == Err::<(), NcnError>(e) && *final(self) == *old(self),
            },
            old(self)@.wf() ==> final(self)@.wf(),
    {
        if self.has_folded(vault) {
            return Err(NcnError::DuplicateDelegation);
        }
        if self.finalized {
            return Err(NcnError::InvalidStageTransition);
        }
        if self.ledger.len() as u64 >= self.expected_vaults {
            return Err(NcnError::UnknownVault);
        }
        match self.stake_weight.checked_add(contribution) {
            None => Err(NcnError::WeightArithmeticOverflow),
            Some(weight) => {
                self.stake_weight = weight;
                self.ledger.push(LedgerEntry { vault, contribution });
                proof {
                    if old(self)@.wf() {
                        lemma_fold_wf(old(self)@, vault, contribution);
                    }
                }
                Ok(())
            },
        }
    }

    /// Locks the weight once every expected vault has been folded in. A
    /// snapshot that is final already stays as it is, and the call succeeds.
    pub fn finalize(&mut self) -> (r: Result<(), NcnError>)
        ensures
            match old(self)@.finalize() {
                Ok(post) => r is Ok && final(self)@ == post,
                Err(e) => r == Err::<(), NcnError>(e) && *final(self) == *old(self),
            },
            old(self)@.wf() ==> final(self)@.wf(),
    {
        if self.finalized {
            return Ok(());
        }
        if !self.complete() {
            return Err(NcnError::NotReady);
        }
        self.finalized = true;
        Ok(())
    }
}

/// A fold keeps a snapshot well formed: the weight stays the sum of the
/// ledger, in which no vault stands twice.
pub proof fn lemma_fold_wf(pre: OperatorSnapshotView, vault: Pubkey, contribution: u128)
    requires
        pre.wf(),
        pre.fold(vault, contribution) is Ok,
    ensures
        pre.fold(vault, contribution)->Ok_0.wf(),
{
    let post = pre.fold(vault, contribution)->Ok_0;
    lemma_position(pre.vault_keys(), vault);
    assert(post.vault_keys() =~= pre.vault_keys().push(vault));
    assert(post.contributions() =~= pre.contributions().push(contribution as int));
    lemma_sum_push(pre.contributions(), contribution as int);
}

/// A vault counts once: after its delegation was folded in, every further
/// fold of the same vault is refused as a duplicate, whatever the amount.
pub proof fn lemma_fold_twice_is_refused(
    pre: OperatorSnapshotView,
    vault: Pubkey,
    first: u128,
    second: u128,
)
    requires
        pre.fold(vault, first) is Ok,
    ensures
        pre.fold(vault, first)->Ok_0.fold(vault, second) == Err::<OperatorSnapshotView, NcnError>(
            NcnError::DuplicateDelegation,
        ),
{
    let post = pre.fold(vault, first)->Ok_0;
    lemma_position(pre.vault_keys(), vault);
    let keys = post.vault_keys();
    assert(keys =~= pre.vault_keys().push(vault));
    assert(is_first(keys, vault, pre.ledger.len() as int));
    lemma_position_is(keys, vault, pre.ledger.len() as int);
}

/// Folding two different vaults gives the same weight in either order.
pub proof fn lemma_fold_commutes(
    pre: OperatorSnapshotView,
    vault_a: Pubkey,
    a: u128,
    vault_b: Pubkey,
    b: u128,
)
    requires
        pre.fold(vault_a, a) is Ok,
        pre.fold(vault_a, a)->Ok_0.fold(vault_b, b) is Ok,
    ensures
        pre.fold(vault_b, b) is Ok,
        pre.fold(vault_b, b)->Ok_0.fold(vault_a, a) is Ok,
        pre.fold(vault_b, b)->Ok_0.fold(vault_a, a)->Ok_0.stake_weight == pre.fold(
            vault_a,
            a,
        )->Ok_0.fold(vault_b, b)->Ok_0.stake_weight,
{
    let mid_a = pre.fold(vault_a, a)->Ok_0;
    let mid_b_keys = pre.vault_keys().push(vault_b);
    lemma_position(pre.vault_keys(), vault_a);
    lemma_position(mid_a.vault_keys(), vault_b);
    assert(mid_a.vault_keys() =~= pre.vault_keys().push(vault_a));
    assert(vault_a != vault_b) by {
        assert(mid_a.vault_keys()[pre.ledger.len() as int] == vault_a);
    }
    assert(absent(pre.vault_keys(), vault_b)) by {
        assert forall|j: int| 0 <= j < pre.vault_keys().len() implies pre.vault_keys()[j]
            != vault_b by {
            assert(mid_a.vault_keys()[j] == pre.vault_keys()[j]);
        }
    }
    lemma_position_none(pre.vault_keys(), vault_b);
    let mid_b = pre.fold(vault_b, b)->Ok_0;
    assert(mid_b.vault_keys() =~= mid_b_keys);
    assert(absent(mid_b.vault_keys(), vault_a));
    lemma_position_none(mid_b.vault_keys(), vault_a);
}

} // verus!
