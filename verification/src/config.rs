//! The global parameters and the two administrative authorities.

use vstd::prelude::*;
use crate::error::NcnError;
use crate::pubkey::Pubkey;

verus! {

/// The authority that an administrative rotation replaces.
#[derive(Clone, Copy, Debug, PartialEq, Eq, Structural)]
pub enum AdminRole {
    /// The primary administrator, who changes parameters, weights and the
    /// registry, and rotates either authority.
    Primary,
    /// The authority that may break a tie when voting has stalled.
    TieBreaker,
}

/// The global parameters.
#[derive(Clone, Copy, Debug, PartialEq, Eq, Structural)]
pub struct Config {
    /// The primary administrator.
    pub admin: Pubkey,
    /// The tie-breaker authority.
    pub tie_breaker_admin: Pubkey,
    /// The first epoch that can be started.
    pub starting_valid_epoch: u64,
    /// Epochs after voting opens before an undecided epoch has stalled.
    pub epochs_before_stall: u64,
    /// Epochs after the result before an epoch's records can be closed.
    pub epochs_after_consensus_before_close: u64,
    /// Slots after stalling within which the tie can still be broken.
    pub valid_slots_after_consensus: u64,
}

/// `current` if `change` is absent, else the changed value.
pub open spec fn changed(current: u64, change: Option<u64>) -> u64 {
    match change {
        Some(v) => v,
        None => current,
    }
}

impl Config {
    /// The configuration that `admin` creates in `current_epoch`: the first
    /// valid epoch is the current one.
    pub fn new(
        admin: Pubkey,
        tie_breaker_admin: Pubkey,
        current_epoch: u64,
        epochs_before_stall: u64,
        epochs_after_consensus_before_close: u64,
        valid_slots_after_consensus: u64,
    ) -> (c: Config)
        ensures
            c == (Config {
                admin,
                tie_breaker_admin,
                starting_valid_epoch: current_epoch,
                epochs_before_stall,
                epochs_after_consensus_before_close,
                valid_slots_after_consensus,
            }),
    {
        Config {
            admin,
            tie_breaker_admin,
            starting_valid_epoch: current_epoch,
            epochs_before_stall,
            epochs_after_consensus_before_close,
            valid_slots_after_consensus,
        }
    }

    /// The configuration after `signer` asked for the given changes, or the
    /// reason for which they are refused.
    pub open spec fn spec_set_parameters(
        self,
        signer: Pubkey,
        starting_valid_epoch: Option<u64>,
        epochs_before_stall: Option<u64>,
        epochs_after_consensus_before_close: Option<u64>,
        valid_slots_after_consensus: Option<u64>,
    ) -> Result<Config, NcnError> {
        if signer != self.admin {
            Err(NcnError::Unauthorized)
        } else {
            Ok(
                Config {
                    starting_valid_epoch: changed(self.starting_valid_epoch, starting_valid_epoch),
                    epochs_before_stall: changed(self.epochs_before_stall, epochs_before_stall),
                    epochs_after_consensus_before_close: changed(
                        self.epochs_after_consensus_before_close,
                        epochs_after_consensus_before_close,
                    ),
                    valid_slots_after_consensus: changed(
                        self.valid_slots_after_consensus,
                        valid_slots_after_consensus,
                    ),
                    ..self
                },
            )
        }
    }

    /// Replaces each parameter for which a value is given. Only the primary
    /// administrator may do so; the authorities stay as they are.
    pub fn set_parameters(
        &mut self,
        signer: Pubkey,
        starting_valid_epoch: Option<u64>,
        epochs_before_stall: Option<u64>,
        epochs_after_consensus_before_close: Option<u64>,
        valid_slots_after_consensus: Option<u64>,
    ) -> (r: Result<(), NcnError>)
        ensures
            match old(self).spec_set_parameters(
                signer,
                starting_valid_epoch,
                epochs_before_stall,
                epochs_after_consensus_before_close,
                valid_slots_after_consensus,
            ) {
                Ok(post) => r is Ok && *final(self) == post,
                Err(e) => r == Err::<(), NcnError>(e) && *final(self) == *old(self),
            },
    {
        if signer != self.admin {
            return Err(NcnError::Unauthorized);
        }
        if let Some(v) = starting_valid_epoch {
            self.starting_valid_epoch = v;
        }
        if let Some(v) = epochs_before_stall {
            self.epochs_before_stall = v;
        }
        if let Some(v) = epochs_after_consensus_before_close {
            self.epochs_after_consensus_before_close = v;
        }
        if let Some(v) = valid_slots_after_consensus {
            self.valid_slots_after_consensus = v;
        }
        Ok(())
    }

    /// The configuration after `signer` handed the authority of `role` to
    /// `new_admin`, or the reason for which that is refused.
    pub open spec fn spec_set_new_admin(
        self,
        signer: Pubkey,
        role: AdminRole,
        new_admin: Pubkey,
    ) -> Result<Config, NcnError> {
        if signer != self.admin {
            Err(NcnError::Unauthorized)
        } else {
            match role {
                AdminRole::Primary => Ok(Config { admin: new_admin, ..self }),
                AdminRole::TieBreaker => Ok(Config { tie_breaker_admin: new_admin, ..self }),
            }
        }
    }

    /// Hands the authority of `role` to `new_admin`. Only the primary
    /// administrator may do so; the parameters stay as they are.
    pub fn set_new_admin(&mut self, signer: Pubkey, role: AdminRole, new_admin: Pubkey) -> (r:
        Result<(), NcnError>)
        ensures
            match old(self).spec_set_new_admin(signer, role, new_admin) {
                Ok(post) => r is Ok && *final(self) == post,
                Err(e) => r == Err::<(), NcnError>(e) && *final(self) == *old(self),
            },
    {
        if signer != self.admin {
            return Err(NcnError::Unauthorized);
        }
        match role {
            AdminRole::Primary => {
                self.admin = new_admin;
            },
            AdminRole::TieBreaker => {
                self.tie_breaker_admin = new_admin;
            },
        }
        Ok(())
    }

    /// Whether an epoch in which voting opened in `opened_epoch` and that has
    /// no result has stalled by `current_epoch`.
    pub open spec fn spec_stall_due(&self, opened_epoch: u64, current_epoch: u64) -> bool {
        current_epoch >= opened_epoch + self.epochs_before_stall
    }

    /// Whether an epoch in which voting opened in `opened_epoch` and that has
    /// no result has stalled by `current_epoch`.
    #[verifier::when_used_as_spec(spec_stall_due)]
    pub fn stall_due(&self, opened_epoch: u64, current_epoch: u64) -> (b: bool)
        ensures
            b == self.spec_stall_due(opened_epoch, current_epoch),
    {
        current_epoch >= opened_epoch && current_epoch - opened_epoch >= self.epochs_before_stall
    }

    /// Whether the tie of an epoch that stalled at `stalled_slot` can still be
    /// broken at `current_slot`.
    pub open spec fn spec_tie_break_open(&self, stalled_slot: u64, current_slot: u64) -> bool {
        current_slot <= stalled_slot + self.valid_slots_after_consensus
    }

    /// Whether the tie of an epoch that stalled at `stalled_slot` can still be
    /// broken at `current_slot`.
    #[verifier::when_used_as_spec(spec_tie_break_open)]
    pub fn tie_break_open(&self, stalled_slot: u64, current_slot: u64) -> (b: bool)
        ensures
            b == self.spec_tie_break_open(stalled_slot, current_slot),
    {
        current_slot <= stalled_slot || current_slot - stalled_slot
            <= self.valid_slots_after_consensus
    }

    /// Whether the records of an epoch whose result was recorded in
    /// `result_epoch` can be closed in `current_epoch`.
    pub open spec fn spec_close_due(&self, result_epoch: u64, current_epoch: u64) -> bool {
        current_epoch >= result_epoch + self.epochs_after_consensus_before_close
    }

    /// Whether the records of an epoch whose result was recorded in
    /// `result_epoch` can be closed in `current_epoch`.
    #[verifier::when_used_as_spec(spec_close_due)]
    pub fn close_due(&self, result_epoch: u64, current_epoch: u64) -> (b: bool)
        ensures
            b == self.spec_close_due(result_epoch, current_epoch),
    {
        current_epoch >= result_epoch && current_epoch - result_epoch
            >= self.epochs_after_consensus_before_close
    }
}

} // verus!
