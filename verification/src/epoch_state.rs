//! The stage machine of one epoch. Each step of the pipeline is taken from
//! exactly one stage and leads to the next one, so that a step can neither
//! be skipped nor taken twice.

use vstd::prelude::*;
use crate::error::NcnError;

verus! {

/// The stages of an epoch, in the order in which they are passed.
#[derive(Clone, Copy, Debug, PartialEq, Eq, Structural)]
pub enum Stage {
    /// The epoch has been started; its weights can still change.
    Initialized,
    /// The epoch's weights are frozen.
    WeightsFinalized,
    /// Stake is being folded into the snapshots.
    SnapshotStarted,
    /// The snapshots are final: the voting weights are fixed.
    SnapshotFinalized,
    /// Votes are taken.
    VotingOpen,
    /// The epoch has its result.
    ResultRecorded,
    /// The epoch's records have been given up.
    Closed,
}

/// The final result of an epoch.
#[derive(Clone, Copy, Debug, PartialEq, Eq, Structural)]
pub struct Outcome {
    /// The agreed value.
    pub value: u8,
    /// The stake that stood behind the value when it was recorded.
    pub stake_weight: u128,
    /// Whether the tie-breaker chose the value.
    pub tie_break: bool,
    /// The slot at which the result was recorded.
    pub slot: u64,
    /// The epoch in which the result was recorded.
    pub recorded_epoch: u64,
}

/// The lifecycle record of one epoch.
#[derive(Clone, Copy, Debug, PartialEq, Eq, Structural)]
pub struct EpochState {
    pub epoch: u64,
    pub stage: Stage,
    /// The result, from the stage `ResultRecorded` on.
    pub outcome: Option<Outcome>,
    /// The slot at which the epoch was started.
    pub slot_created: u64,
}

impl Stage {
    /// The place of the stage in the order of stages.
    pub open spec fn spec_rank(self) -> u8 {
        match self {
            Stage::Initialized => 0,
            Stage::WeightsFinalized => 1,
            Stage::SnapshotStarted => 2,
            Stage::SnapshotFinalized => 3,
            Stage::VotingOpen => 4,
            Stage::ResultRecorded => 5,
            Stage::Closed => 6,
        }
    }

    /// The place of the stage in the order of stages.
    #[verifier::when_used_as_spec(spec_rank)]
    pub fn rank(self) -> (r: u8)
        ensures
            r == self.spec_rank(),
    {
        match self {
            Stage::Initialized => 0,
            Stage::WeightsFinalized => 1,
            Stage::SnapshotStarted => 2,
            Stage::SnapshotFinalized => 3,
            Stage::VotingOpen => 4,
            Stage::ResultRecorded => 5,
            Stage::Closed => 6,
        }
    }

    /// The stage that follows, if any does.
    pub open spec fn spec_next(self) -> Option<Stage> {
        match self {
            Stage::Initialized => Some(Stage::WeightsFinalized),
            Stage::WeightsFinalized => Some(Stage::SnapshotStarted),
            Stage::SnapshotStarted => Some(Stage::SnapshotFinalized),
            Stage::SnapshotFinalized => Some(Stage::VotingOpen),
            Stage::VotingOpen => Some(Stage::ResultRecorded),
            Stage::ResultRecorded => Some(Stage::Closed),
            Stage::Closed => None,
        }
    }

    /// The stage that follows, if any does.
    #[verifier::when_used_as_spec(spec_next)]
    pub fn next(self) -> (r: Option<Stage>)
        ensures
            r == self.spec_next(),
    {
        match self {
            Stage::Initialized => Some(Stage::WeightsFinalized),
            Stage::WeightsFinalized => Some(Stage::SnapshotStarted),
            Stage::SnapshotStarted => Some(Stage::SnapshotFinalized),
            Stage::SnapshotFinalized => Some(Stage::VotingOpen),
            Stage::VotingOpen => Some(Stage::ResultRecorded),
            Stage::ResultRecorded => Some(Stage::Closed),
            Stage::Closed => None,
        }
    }
}

impl EpochState {
    /// The record has a result exactly from the stage `ResultRecorded` on.
    pub open spec fn wf(self) -> bool {
        self.outcome is Some <==> self.stage.spec_rank() >= Stage::ResultRecorded.spec_rank()
    }

    /// The record of an epoch that starts at `slot`.
    pub open spec fn spec_new(epoch: u64, slot: u64) -> EpochState {
        EpochState { epoch, stage: Stage::Initialized, outcome: None, slot_created: slot }
    }

    /// The record of an epoch that starts at `slot`.
    pub fn new(epoch: u64, slot: u64) -> (r: EpochState)
        ensures
            r == Self::spec_new(epoch, slot),
            r.wf(),
    {
        EpochState { epoch, stage: Stage::Initialized, outcome: None, slot_created: slot }
    }

    /// Nothing, if the epoch is at `stage`; else the failure of a step that
    /// is taken out of order.
    pub open spec fn spec_require(self, stage: Stage) -> Result<(), NcnError> {
        if self.stage == stage {
            Ok(())
        } else {
            Err(NcnError::InvalidStageTransition)
        }
    }

    /// Checks that the epoch is at `stage`.
    #[verifier::when_used_as_spec(spec_require)]
    pub fn require(self, stage: Stage) -> (r: Result<(), NcnError>)
        ensures
            r == self.spec_require(stage),
    {
        if self.stage == stage {
            Ok(())
        } else {
            Err(NcnError::InvalidStageTransition)
        }
    }

    /// The record after the step to `to`, or the failure of a step that is
    /// taken out of order. The step to `ResultRecorded` is taken with a
    /// result only, by `record_result`.
    pub open spec fn spec_advance(self, to: Stage) -> Result<EpochState, NcnError> {
        if self.stage.spec_next() == Some(to) && to != Stage::ResultRecorded {
            Ok(EpochState { stage: to, ..self })
        } else {
            Err(NcnError::InvalidStageTransition)
        }
    }

    /// Takes the step to `to`, which must be the stage that follows the
    /// current one.
    pub fn advance(&mut self, to: Stage) -> (r: Result<(), NcnError>)
        ensures
            match old(self).spec_advance(to) {
                Ok(post) => r is Ok && *final(self) == post,
                Err(e) => r == Err::<(), NcnError>(e) && *final(self) == *old(self),
            },
            old(self).wf() ==> final(self).wf(),
    {
        if to == Stage::ResultRecorded {
            return Err(NcnError::InvalidStageTransition);
        }
        match self.stage.next() {
            Some(n) => {
                if n == to {
                    self.stage = to;
                    Ok(())
                } else {
                    Err(NcnError::InvalidStageTransition)
                }
            },
            None => Err(NcnError::InvalidStageTransition),
        }
    }

    /// The record after the result was written into it, or the failure
    /// where voting is not open.
    pub open spec fn spec_record_result(self, outcome: Outcome) -> Result<EpochState, NcnError> {
        if self.stage == Stage::VotingOpen {
            Ok(EpochState { stage: Stage::ResultRecorded, outcome: Some(outcome), ..self })
        } else {
            Err(NcnError::InvalidStageTransition)
        }
    }

    /// Writes the result of the vote into the record. This is the step from
    /// `VotingOpen` to `ResultRecorded`.
    pub fn record_result(&mut self, outcome: Outcome) -> (r: Result<(), NcnError>)
        ensures
            match old(self).spec_record_result(outcome) {
                Ok(post) => r is Ok && *final(self) == post,
                Err(e) => r == Err::<(), NcnError>(e) && *final(self) == *old(self),
            },
            old(self).wf() ==> final(self).wf(),
    {
        if self.stage == Stage::VotingOpen {
            self.stage = Stage::ResultRecorded;
            self.outcome = Some(outcome);
            Ok(())
        } else {
            Err(NcnError::InvalidStageTransition)
        }
    }
}

/// A step leads to the next stage and to no other: the rank grows by one.
pub proof fn lemma_advance_is_one_step(state: EpochState, to: Stage)
    requires
        state.spec_advance(to) is Ok,
    ensures
        state.spec_advance(to)->Ok_0.stage == to,
        to.spec_rank() == state.stage.spec_rank() + 1,
        state.spec_advance(to)->Ok_0.epoch == state.epoch,
        state.spec_advance(to)->Ok_0.outcome == state.outcome,
{
}

/// A step that was taken cannot be taken again, and a later step cannot be
/// taken before its turn.
pub proof fn lemma_no_repeat_no_skip(state: EpochState, to: Stage)
    requires
        to.spec_rank() != state.stage.spec_rank() + 1,
    ensures
        state.spec_advance(to) == Err::<EpochState, NcnError>(NcnError::InvalidStageTransition),
{
}

/// A result, once recorded, stays: no step changes it, and no second result
/// is taken.
pub proof fn lemma_result_is_permanent(state: EpochState, to: Stage, outcome: Outcome)
    requires
        state.wf(),
        state.outcome is Some,
    ensures
        state.spec_record_result(outcome) == Err::<EpochState, NcnError>(
            NcnError::InvalidStageTransition,
        ),
        state.spec_advance(to) is Ok ==> state.spec_advance(to)->Ok_0.outcome == state.outcome,
{
}

} // verus!
