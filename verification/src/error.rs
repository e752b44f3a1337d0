//! The typed failures of every operation, and the class each belongs to.

use vstd::prelude::*;

verus! {

/// Why an operation was refused.
#[derive(Clone, Copy, Debug, PartialEq, Eq, Structural)]
pub enum NcnError {
    /// The instruction was addressed to another program.
    IncorrectProgramId,
    /// The signer is not the authority that the operation asks for.
    Unauthorized,
    /// A record that the operation needs has not been created.
    NotInitialized,
    /// The record that the operation would create exists.
    AlreadyInitialized,
    /// The epoch lies before the first valid epoch, or before an epoch that
    /// has been started already.
    InvalidEpoch,
    /// The operation does not belong to the epoch's current stage.
    InvalidStageTransition,
    /// No stake mint is registered.
    RegistryEmpty,
    /// Something that the operation waits for is still missing.
    NotReady,
    /// The epoch's weights can still change.
    WeightTableNotFinalized,
    /// The epoch's weights are frozen and cannot be written.
    WeightTableFinalized,
    /// A stake snapshot that the operation reads is not final.
    SnapshotNotFinalized,
    /// Consensus has been recorded for the epoch.
    ConsensusAlreadyReached,
    /// The epoch no longer takes the operation: voting stalled, the tie was
    /// broken, the tie-break window ran out, or the records were closed.
    EpochClosed,
    /// The operator has no voting weight in the epoch.
    UnknownOperator,
    /// The vault is not registered, or not part of the epoch.
    UnknownVault,
    /// The stake mint is not registered, or has no weight in the epoch.
    UnknownMint,
    /// The vault's delegation to the operator was folded in before.
    DuplicateDelegation,
    /// The vault or mint is registered already.
    AlreadyRegistered,
    /// A stake weight does not fit its integer type.
    WeightArithmeticOverflow,
    /// The record is full and must grow first.
    CapacityExceeded,
}

/// The classes of failure.
#[derive(Clone, Copy, Debug, PartialEq, Eq, Structural)]
pub enum ErrorKind {
    /// Wrong signer or authority.
    Authorization,
    /// Invoked before a prerequisite stage, or after the result is final.
    Stage,
    /// An unknown operator, vault, mint or program.
    Identity,
    /// A duplicate, or an arithmetic overflow.
    Integrity,
    /// A record needs to grow before the operation fits.
    Capacity,
}

impl NcnError {
    /// The class of this failure.
    pub open spec fn spec_kind(self) -> ErrorKind {
        match self {
            NcnError::Unauthorized => ErrorKind::Authorization,
            NcnError::IncorrectProgramId
            | NcnError::UnknownOperator
            | NcnError::UnknownVault
            | NcnError::UnknownMint => ErrorKind::Identity,
            NcnError::DuplicateDelegation
            | NcnError::AlreadyRegistered
            | NcnError::WeightArithmeticOverflow => ErrorKind::Integrity,
            NcnError::CapacityExceeded => ErrorKind::Capacity,
            _ => ErrorKind::Stage,
        }
    }

    /// The class of this failure.
    #[verifier::when_used_as_spec(spec_kind)]
    pub fn kind(self) -> (k: ErrorKind)
        ensures
            k == self.spec_kind(),
    {
        match self {
            NcnError::Unauthorized => ErrorKind::Authorization,
            NcnError::IncorrectProgramId
            | NcnError::UnknownOperator
            | NcnError::UnknownVault
            | NcnError::UnknownMint => ErrorKind::Identity,
            NcnError::DuplicateDelegation
            | NcnError::AlreadyRegistered
            | NcnError::WeightArithmeticOverflow => ErrorKind::Integrity,
            NcnError::CapacityExceeded => ErrorKind::Capacity,
            _ => ErrorKind::Stage,
        }
    }

    /// The number under which the failure is reported to a host.
    pub open spec fn spec_code(self) -> u32 {
        match self {
            NcnError::IncorrectProgramId => 0,
            NcnError::Unauthorized => 1,
            NcnError::NotInitialized => 2,
            NcnError::AlreadyInitialized => 3,
            NcnError::InvalidEpoch => 4,
            NcnError::InvalidStageTransition => 5,
            NcnError::RegistryEmpty => 6,
            NcnError::NotReady => 7,
            NcnError::WeightTableNotFinalized => 8,
            NcnError::WeightTableFinalized => 9,
            NcnError::SnapshotNotFinalized => 10,
            NcnError::ConsensusAlreadyReached => 11,
            NcnError::EpochClosed => 12,
            NcnError::UnknownOperator => 13,
            NcnError::UnknownVault => 14,
            NcnError::UnknownMint => 15,
            NcnError::DuplicateDelegation => 16,
            NcnError::AlreadyRegistered => 17,
            NcnError::WeightArithmeticOverflow => 18,
            NcnError::CapacityExceeded => 19,
        }
    }

    /// The number under which the failure is reported to a host.
    #[verifier::when_used_as_spec(spec_code)]
    pub fn code(self) -> (c: u32)
        ensures
            c == self.spec_code(),
    {
        match self {
            NcnError::IncorrectProgramId => 0,
            NcnError::Unauthorized => 1,
            NcnError::NotInitialized => 2,
            NcnError::AlreadyInitialized => 3,
            NcnError::InvalidEpoch => 4,
            NcnError::InvalidStageTransition => 5,
            NcnError::RegistryEmpty => 6,
            NcnError::NotReady => 7,
            NcnError::WeightTableNotFinalized => 8,
            NcnError::WeightTableFinalized => 9,
            NcnError::SnapshotNotFinalized => 10,
            NcnError::ConsensusAlreadyReached => 11,
            NcnError::EpochClosed => 12,
            NcnError::UnknownOperator => 13,
            NcnError::UnknownVault => 14,
            NcnError::UnknownMint => 15,
            NcnError::DuplicateDelegation => 16,
            NcnError::AlreadyRegistered => 17,
            NcnError::WeightArithmeticOverflow => 18,
            NcnError::CapacityExceeded => 19,
        }
    }
}

/// Two failures with the same code are the same failure.
pub proof fn lemma_code_injective(a: NcnError, b: NcnError)
    requires
        a.spec_code() == b.spec_code(),
    ensures
        a == b,
{
}

} // verus!
