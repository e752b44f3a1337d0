//! The aggregate stake of one epoch: the sum of what has been folded into the
//! epoch's operator snapshots, and the count of those that are final.

use vstd::prelude::*;
use crate::error::NcnError;

verus! {

/// The aggregate snapshot of one epoch.
#[derive(Clone, Copy, Debug, PartialEq, Eq, Structural)]
pub struct EpochSnapshot {
    pub epoch: u64,
    /// The number of operators expected to take part.
    pub operator_count: u64,
    /// The number of vaults whose delegations each operator's weight is made of.
    pub vault_count: u64,
    /// The operators whose snapshots have been created.
    pub operators_registered: u64,
    /// The operators whose snapshots are final.
    pub operators_finalized: u64,
    /// The sum of every contribution folded into the epoch so far.
    pub total_stake_weight: u128,
    /// Once set, the total is the epoch's total voting weight.
    pub finalized: bool,
}

impl EpochSnapshot {
    /// The counts are in order, and in a final snapshot every registered
    /// operator is final.
    pub open spec fn wf(self) -> bool {
        &&& self.operators_finalized <= self.operators_registered
        &&& self.operators_registered <= self.operator_count
        &&& self.finalized ==> self.operators_finalized == self.operators_registered
    }

    /// The snapshot that an epoch starts with.
    pub open spec fn spec_new(epoch: u64, operator_count: u64, vault_count: u64) -> EpochSnapshot {
        EpochSnapshot {
            epoch,
            operator_count,
            vault_count,
            operators_registered: 0,
            operators_finalized: 0,
            total_stake_weight: 0,
            finalized: false,
        }
    }

    /// The snapshot that an epoch starts with: no operator, no stake.
    pub fn new(epoch: u64, operator_count: u64, vault_count: u64) -> (r: EpochSnapshot)
        ensures
            r == Self::spec_new(epoch, operator_count, vault_count),
            r.wf(),
    {
        EpochSnapshot {
            epoch,
            operator_count,
            vault_count,
            operators_registered: 0,
            operators_finalized: 0,
            total_stake_weight: 0,
            finalized: false,
        }
    }

    /// The snapshot after one more operator's snapshot was created, or the
    /// reason for which none can be.
    pub open spec fn spec_register_operator(self) -> Result<EpochSnapshot, NcnError> {
        if self.finalized {
            Err(NcnError::InvalidStageTransition)
        } else if self.operators_registered >= self.operator_count {
            Err(NcnError::CapacityExceeded)
        } else {
            Ok(
                EpochSnapshot {
                    operators_registered: (self.operators_registered + 1) as u64,
                    ..self
                },
            )
        }
    }

    /// Counts one more operator's snapshot as created. No more than the
    /// expected number of operators can be.
    pub fn register_operator(&mut self) -> (r: Result<(), NcnError>)
        ensures
            match old(self).spec_register_operator() {
                Ok(post) => r is Ok && *final(self) == post,
                Err(e) => r == Err::<(), NcnError>(e) && *final(self) == *old(self),
            },
            old(self).wf() ==> final(self).wf(),
    {
        if self.finalized {
            return Err(NcnError::InvalidStageTransition);
        }
        if self.operators_registered >= self.operator_count {
            return Err(NcnError::CapacityExceeded);
        }
        self.operators_registered = self.operators_registered + 1;
        Ok(())
    }

    /// The snapshot after `contribution` was added to the total, or the
    /// reason for which it cannot be.
    pub open spec fn spec_add_stake(self, contribution: u128) -> Result<EpochSnapshot, NcnError> {
        if self.finalized {
            Err(NcnError::InvalidStageTransition)
        } else if self.total_stake_weight + contribution > u128::MAX {
            Err(NcnError::WeightArithmeticOverflow)
        } else {
            Ok(
                EpochSnapshot {
                    total_stake_weight: (self.total_stake_weight + contribution) as u128,
                    ..self
                },
            )
        }
    }

    /// Adds a folded contribution to the total. A total that does not fit is
    /// a failure; a final snapshot takes no more stake.
    pub fn add_stake(&mut self, contribution: u128) -> (r: Result<(), NcnError>)
        ensures
            match old(self).spec_add_stake(contribution) {
                Ok(post) => r is Ok && *final(self) == post,
                Err(e) => r == Err::<(), NcnError>(e) && *final(self) == *old(self),
            },
            old(self).wf() ==> final(self).wf(),
    {
        if self.finalized {
            return Err(NcnError::InvalidStageTransition);
        }
        match self.total_stake_weight.checked_add(contribution) {
            None => Err(NcnError::WeightArithmeticOverflow),
            Some(total) => {
                self.total_stake_weight = total;
                Ok(())
            },
        }
    }

    /// The snapshot after one more operator's snapshot became final, or the
    /// reason for which none can have.
    pub open spec fn spec_operator_finalized(self) -> Result<EpochSnapshot, NcnError> {
        if self.finalized || self.operators_finalized >= self.operators_registered {
            Err(NcnError::InvalidStageTransition)
        } else {
            Ok(EpochSnapshot { operators_finalized: (self.operators_finalized + 1) as u64, ..self })
        }
    }

    /// Counts one more operator's snapshot as final. No more can be final
    /// than were created.
    pub fn operator_finalized(&mut self) -> (r: Result<(), NcnError>)
        ensures
            match old(self).spec_operator_finalized() {
                Ok(post) => r is Ok && *final(self) == post,
                Err(e) => r == Err::<(), NcnError>(e) && *final(self) == *old(self),
            },
            old(self).wf() ==> final(self).wf(),
    {
        if self.finalized || self.operators_finalized >= self.operators_registered {
            return Err(NcnError::InvalidStageTransition);
        }
        self.operators_finalized = self.operators_finalized + 1;
        Ok(())
    }

    /// Whether the total can be locked: every created operator snapshot is
    /// final, and either all expected operators have one or no more are
    /// expected.
    pub open spec fn spec_complete(&self, no_more_operators: bool) -> bool {
        &&& self.operators_finalized >= self.operators_registered
        &&& (no_more_operators || self.operators_registered >= self.operator_count)
    }

    /// Whether the total can be locked: every created operator snapshot is
    /// final, and either all expected operators have one or no more are
    /// expected.
    #[verifier::when_used_as_spec(spec_complete)]
    pub fn complete(&self, no_more_operators: bool) -> (b: bool)
        ensures
            b == self.spec_complete(no_more_operators),
    {
        self.operators_finalized >= self.operators_registered && (no_more_operators
            || self.operators_registered >= self.operator_count)
    }

    /// The snapshot after it was asked to become final, or the reason for
    /// which it cannot: a final snapshot stays as it is.
    pub open spec fn spec_finalize(self, no_more_operators: bool) -> Result<EpochSnapshot, NcnError> {
        if self.finalized {
            Ok(self)
        } else if !self.spec_complete(no_more_operators) {
            Err(NcnError::NotReady)
        } else {
            Ok(EpochSnapshot { finalized: true, ..self })
        }
    }

    /// Locks the total once the snapshot is complete. A snapshot that is
    /// final already stays as it is, and the call succeeds.
    pub fn finalize(&mut self, no_more_operators: bool) -> (r: Result<(), NcnError>)
        ensures
            match old(self).spec_finalize(no_more_operators) {
                Ok(post) => r is Ok && *final(self) == post,
                Err(e) => r == Err::<(), NcnError>(e) && *final(self) == *old(self),
            },
            old(self).wf() ==> final(self).wf(),
    {
        if self.finalized {
            return Ok(());
        }
        if !self.complete(no_more_operators) {
            return Err(NcnError::NotReady);
        }
        self.finalized = true;
        Ok(())
    }
}

} // verus!
