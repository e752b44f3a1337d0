//! The records of one epoch and the steps that move them: weights are
//! frozen, stake is folded into the snapshots, the snapshots are locked,
//! votes are cast and a result is recorded. Every step checks the stage it
//! belongs to, so that the steps can be retried and resumed in any order
//! without one being skipped or taken twice.

use vstd::prelude::*;
use crate::ballot_box::{
    is_supermajority, tally_weight, vote_weights, BallotBox, BallotBoxState, BallotBoxView,
};
use crate::capacity::MAX_OPERATORS;
use crate::config::Config;
use crate::epoch_laws::{
    lemma_cast_vote_keeps_wf, lemma_close_wf, lemma_finalize_epoch_snapshot_wf,
    lemma_finalize_operator_snapshot_wf, lemma_fold_delegation_wf,
    lemma_initialize_ballot_box_wf, lemma_initialize_epoch_snapshot_wf,
    lemma_initialize_operator_snapshot_wf, lemma_initialize_weight_table_wf,
    lemma_realloc_ballot_box_wf, lemma_realloc_weight_table_wf, lemma_set_epoch_weights_wf,
    lemma_set_weight_wf, lemma_stall_wf, lemma_tie_break_wf,
};
use crate::epoch_snapshot::EpochSnapshot;
use crate::epoch_state::{EpochState, Stage};
use crate::error::NcnError;
use crate::operator_snapshot::{
    contribution, spec_contribution, OperatorSnapshot, OperatorSnapshotView,
};
use crate::pubkey::Pubkey;
use crate::seq_model::{
    absent, distinct, is_first, lemma_position_is, lemma_position_none, position, sum,
};
use crate::vault_registry::{VaultRegistry, VaultRegistryView};
use crate::weight_table::{WeightTable, WeightTableView};

verus! {

/// The records of one epoch.
#[derive(Clone, Debug)]
pub struct Epoch {
    /// The lifecycle record, which holds the epoch's number and stage.
    pub state: EpochState,
    pub weight_table: Option<WeightTable>,
    pub epoch_snapshot: Option<EpochSnapshot>,
    /// The operator snapshots, in the order of their creation.
    pub operator_snapshots: Vec<OperatorSnapshot>,
    pub ballot_box: Option<BallotBox>,
}

/// The records of one epoch as a mathematical value.
pub ghost struct EpochView {
    pub state: EpochState,
    pub weight_table: Option<WeightTableView>,
    pub epoch_snapshot: Option<EpochSnapshot>,
    pub operator_snapshots: Seq<OperatorSnapshotView>,
    pub ballot_box: Option<BallotBoxView>,
}

/// The view of a weight table that may be absent.
pub open spec fn table_view(table: Option<WeightTable>) -> Option<WeightTableView> {
    match table {
        Some(t) => Some(t@),
        None => None,
    }
}

/// The view of a ballot box that may be absent.
pub open spec fn box_view(ballot_box: Option<BallotBox>) -> Option<BallotBoxView> {
    match ballot_box {
        Some(b) => Some(b@),
        None => None,
    }
}

/// The views of the operator snapshots, in order.
pub open spec fn snapshots_view(snapshots: Seq<OperatorSnapshot>) -> Seq<OperatorSnapshotView> {
    Seq::new(snapshots.len(), |i: int| snapshots[i]@)
}

/// Locks the aggregate snapshot, and moves the epoch on, as soon as every
/// expected operator has a final snapshot.
pub open spec fn spec_settle(state: EpochState, snapshot: EpochSnapshot) -> (
    EpochState,
    EpochSnapshot,
) {
    match (snapshot.spec_finalize(false), state.spec_advance(Stage::SnapshotFinalized)) {
        (Ok(locked), Ok(moved)) => (moved, locked),
        _ => (state, snapshot),
    }
}

/// Locks an operator's snapshot as soon as all its vaults are folded in,
/// counts it as final in the aggregate, and settles the aggregate.
pub open spec fn spec_seal(
    state: EpochState,
    snapshot: EpochSnapshot,
    operator: OperatorSnapshotView,
) -> Result<(EpochState, EpochSnapshot, OperatorSnapshotView), NcnError> {
    match operator.finalize() {
        Err(_) => Ok((state, snapshot, operator)),
        Ok(sealed) => match snapshot.spec_operator_finalized() {
            Err(e) => Err(e),
            Ok(counted) => {
                let (state, settled) = spec_settle(state, counted);
                Ok((state, settled, sealed))
            },
        },
    }
}

/// The operators of the snapshots, in order.
pub open spec fn operators_of(snapshots: Seq<OperatorSnapshotView>) -> Seq<Pubkey> {
    Seq::new(snapshots.len(), |i: int| snapshots[i].operator)
}

/// The weight of each snapshot, in order.
pub open spec fn weights_of(snapshots: Seq<OperatorSnapshotView>) -> Seq<int> {
    Seq::new(snapshots.len(), |i: int| snapshots[i].stake_weight as int)
}

/// For each snapshot, one if it is final and nought if it is not.
pub open spec fn final_flags_of(snapshots: Seq<OperatorSnapshotView>) -> Seq<int> {
    Seq::new(
        snapshots.len(),
        |i: int|
            if snapshots[i].finalized {
                1int
            } else {
                0int
            },
    )
}

/// For each snapshot, its weight if its operator has a vote in the box, and
/// nought if it has none.
pub open spec fn voted_weights_of(
    snapshots: Seq<OperatorSnapshotView>,
    ballot_box: BallotBoxView,
) -> Seq<int> {
    Seq::new(
        snapshots.len(),
        |i: int|
            if ballot_box.vote_of(snapshots[i].operator) is Some {
                snapshots[i].stake_weight as int
            } else {
                0int
            },
    )
}

/// The aggregate snapshot says what the operator snapshots hold: its total
/// is the sum of their weights, and its counts are their number and the
/// number of the final ones. Each operator has one snapshot, for this epoch
/// and this number of vaults, and a snapshot is final exactly when all its
/// vaults are folded in.
pub open spec fn snapshots_agree(
    snapshot: EpochSnapshot,
    snapshots: Seq<OperatorSnapshotView>,
) -> bool {
    &&& snapshot.total_stake_weight == sum(weights_of(snapshots))
    &&& snapshot.operators_registered == snapshots.len()
    &&& snapshot.operators_finalized == sum(final_flags_of(snapshots))
    &&& distinct(operators_of(snapshots))
    &&& forall|i: int|
        0 <= i < snapshots.len() ==> {
            &&& (#[trigger] snapshots[i]).wf()
            &&& snapshots[i].epoch == snapshot.epoch
            &&& snapshots[i].expected_vaults == snapshot.vault_count
            &&& snapshots[i].finalized <==> snapshots[i].complete()
        }
}

impl EpochView {
    /// The operators that have a snapshot, in order.
    pub open spec fn operator_keys(self) -> Seq<Pubkey> {
        operators_of(self.operator_snapshots)
    }

    /// The weight of each operator snapshot, in order.
    pub open spec fn operator_weights(self) -> Seq<int> {
        weights_of(self.operator_snapshots)
    }

    /// The records are those that the stage stands for.
    pub open spec fn stage_agrees(self) -> bool {
        match self.state.stage {
            Stage::Initialized => !self.weights_final() && self.epoch_snapshot is None
                && self.ballot_box is None,
            Stage::WeightsFinalized => self.weights_final() && self.epoch_snapshot is None
                && self.ballot_box is None,
            Stage::SnapshotStarted => self.weights_final() && self.epoch_snapshot is Some
                && !self.snapshot_final() && self.ballot_box is None,
            Stage::SnapshotFinalized => self.weights_final() && self.snapshot_final()
                && self.ballot_box is None,
            Stage::VotingOpen => self.weights_final() && self.snapshot_final()
                && self.ballot_box is Some && (self.ballot_box->0.state
                == BallotBoxState::AwaitingVotes || self.ballot_box->0.state
                == BallotBoxState::Stalled),
            Stage::ResultRecorded => self.weights_final() && self.snapshot_final()
                && self.ballot_box is Some && self.ballot_box->0.winner == self.state.outcome,
            Stage::Closed => self.weight_table is None && self.epoch_snapshot is None
                && self.ballot_box is None,
        }
    }

    /// The vote stands as the tallies say. While votes are awaited, and in a
    /// stalled vote, no value holds a supermajority of the epoch's total.
    /// Where consensus was reached, the stake recorded with the result is
    /// what stands behind its value, it is a supermajority, and no other
    /// value holds one.
    pub open spec fn decision_agrees(self) -> bool {
        self.ballot_box is Some && self.epoch_snapshot is Some ==> {
            let b = self.ballot_box->0;
            let total = self.epoch_snapshot->0.total_stake_weight;
            &&& b.state == BallotBoxState::AwaitingVotes || b.state == BallotBoxState::Stalled
                ==> forall|value: u8|
                !is_supermajority(#[trigger] tally_weight(b.tallies, value), total)
            &&& b.state == BallotBoxState::ConsensusReached ==> {
                &&& b.winner is Some
                &&& tally_weight(b.tallies, b.winner->0.value) == b.winner->0.stake_weight
                &&& is_supermajority(b.winner->0.stake_weight, total)
                &&& forall|value: u8|
                    value != b.winner->0.value ==> !is_supermajority(
                        #[trigger] tally_weight(b.tallies, value),
                        total,
                    )
            }
        }
    }

    /// Every vote in the box is that of an operator with a snapshot, and
    /// counts with the weight of that snapshot; and the votes are as many as
    /// the operators that have voted, so that the stake of all votes is
    /// the stake of those operators.
    pub open spec fn votes_agree_with_snapshots(self) -> bool {
        self.ballot_box is Some ==> {
            let b = self.ballot_box->0;
            &&& forall|k: int|
                0 <= k < b.votes.len() ==> {
                    &&& self.snapshot_of((#[trigger] b.votes[k]).operator) is Some
                    &&& self.snapshot_of(b.votes[k].operator)->0.stake_weight
                        == b.votes[k].stake_weight
                }
            &&& sum(vote_weights(b.votes)) == sum(voted_weights_of(self.operator_snapshots, b))
        }
    }

    /// Every record is well formed and belongs to this epoch, the records
    /// are those that the stage stands for, the aggregate snapshot says
    /// what the operator snapshots hold, the votes are those of the
    /// snapshots' operators, and the vote stands as the tallies say.
    pub open spec fn wf(self) -> bool {
        &&& self.state.wf()
        &&& self.stage_agrees()
        &&& self.decision_agrees()
        &&& self.votes_agree_with_snapshots()
        &&& self.weight_table is Some ==> self.weight_table->0.wf() && self.weight_table->0.epoch
            == self.state.epoch
        &&& self.ballot_box is Some ==> self.ballot_box->0.wf() && self.ballot_box->0.epoch
            == self.state.epoch
        &&& self.epoch_snapshot is None ==> self.operator_snapshots.len() == 0
        &&& self.epoch_snapshot is Some ==> {
            &&& self.epoch_snapshot->0.wf()
            &&& self.epoch_snapshot->0.epoch == self.state.epoch
            &&& snapshots_agree(self.epoch_snapshot->0, self.operator_snapshots)
        }
    }

    /// The snapshot of `operator`, if it has one.
    pub open spec fn snapshot_of(self, operator: Pubkey) -> Option<OperatorSnapshotView> {
        match position(self.operator_keys(), operator) {
            Some(i) => Some(self.operator_snapshots[i]),
            None => None,
        }
    }

    /// Whether the epoch's weights are frozen.
    pub open spec fn weights_final(self) -> bool {
        self.weight_table is Some && self.weight_table->0.finalized
    }

    /// Whether the epoch's total voting weight is locked.
    pub open spec fn snapshot_final(self) -> bool {
        self.epoch_snapshot is Some && self.epoch_snapshot->0.finalized
    }

    /// Whether stake is being folded into the epoch's snapshots.
    pub open spec fn folding(self) -> bool {
        self.state.spec_require(Stage::SnapshotStarted) is Ok && self.epoch_snapshot is Some
    }

    /// The records of an epoch that starts at `slot`.
    pub open spec fn new(epoch: u64, slot: u64) -> EpochView {
        EpochView {
            state: EpochState::spec_new(epoch, slot),
            weight_table: None,
            epoch_snapshot: None,
            operator_snapshots: Seq::empty(),
            ballot_box: None,
        }
    }

    /// The epoch after its weight table was created from `registry`.
    pub open spec fn initialize_weight_table(self, registry: VaultRegistryView) -> Result<
        EpochView,
        NcnError,
    > {
        if self.weight_table is Some {
            Err(NcnError::AlreadyInitialized)
        } else if self.state.spec_require(Stage::Initialized) is Err {
            Err(NcnError::InvalidStageTransition)
        } else {
            match WeightTableView::from_registry(self.state.epoch, registry) {
                Err(e) => Err(e),
                Ok(table) => Ok(EpochView { weight_table: Some(table), ..self }),
            }
        }
    }

    /// The epoch after its weight table was expanded.
    pub open spec fn realloc_weight_table(self) -> Result<EpochView, NcnError> {
        match self.weight_table {
            None => Err(NcnError::NotInitialized),
            Some(table) => Ok(EpochView { weight_table: Some(table.realloc()), ..self }),
        }
    }

    /// The epoch after the weight of `st_mint` was set in its table.
    pub open spec fn set_weight(self, st_mint: Pubkey, weight: u128) -> Result<EpochView, NcnError> {
        match self.weight_table {
            None => Err(NcnError::NotInitialized),
            Some(table) => match table.set_weight(st_mint, weight) {
                Err(e) => Err(e),
                Ok(written) => Ok(EpochView { weight_table: Some(written), ..self }),
            },
        }
    }

    /// The epoch after its weights were frozen.
    pub open spec fn set_epoch_weights(self) -> Result<EpochView, NcnError> {
        match self.weight_table {
            None => Err(NcnError::NotInitialized),
            Some(table) => match table.finalize() {
                Err(e) => Err(e),
                Ok(frozen) => Ok(
                    EpochView {
                        weight_table: Some(frozen),
                        state: match self.state.spec_advance(Stage::WeightsFinalized) {
                            Ok(moved) => moved,
                            Err(_) => self.state,
                        },
                        ..self
                    },
                ),
            },
        }
    }

    /// The epoch after its aggregate snapshot was created for the given
    /// numbers of operators and vaults.
    pub open spec fn initialize_epoch_snapshot(self, operator_count: u64, vault_count: u64) -> Result<
        EpochView,
        NcnError,
    > {
        if self.epoch_snapshot is Some {
            Err(NcnError::AlreadyInitialized)
        } else if !self.weights_final() {
            Err(NcnError::WeightTableNotFinalized)
        } else {
            match self.state.spec_advance(Stage::SnapshotStarted) {
                Err(e) => Err(e),
                Ok(started) => {
                    let (state, snapshot) = spec_settle(
                        started,
                        EpochSnapshot::spec_new(self.state.epoch, operator_count, vault_count),
                    );
                    Ok(EpochView { state, epoch_snapshot: Some(snapshot), ..self })
                },
            }
        }
    }

    /// The epoch after the snapshot of `operator` was created.
    pub open spec fn initialize_operator_snapshot(self, operator: Pubkey) -> Result<
        EpochView,
        NcnError,
    > {
        if position(self.operator_keys(), operator) is Some {
            Err(NcnError::AlreadyInitialized)
        } else if !self.folding() {
            Err(NcnError::InvalidStageTransition)
        } else if self.operator_snapshots.len() >= MAX_OPERATORS {
            Err(NcnError::CapacityExceeded)
        } else {
            match self.epoch_snapshot->0.spec_register_operator() {
                Err(e) => Err(e),
                Ok(registered) => match spec_seal(
                    self.state,
                    registered,
                    OperatorSnapshotView::new(self.state.epoch, operator, registered.vault_count),
                ) {
                    Err(e) => Err(e),
                    Ok((state, snapshot, fresh)) => Ok(
                        EpochView {
                            state,
                            epoch_snapshot: Some(snapshot),
                            operator_snapshots: self.operator_snapshots.push(fresh),
                            ..self
                        },
                    ),
                },
            }
        }
    }

    /// The epoch after the delegation of `vault` to `operator`, an amount of
    /// `delegated_amount` in `st_mint`, was folded into the snapshots.
    pub open spec fn fold_delegation(
        self,
        operator: Pubkey,
        vault: Pubkey,
        delegated_amount: u64,
        st_mint: Pubkey,
    ) -> Result<EpochView, NcnError> {
        match position(self.operator_keys(), operator) {
            None => Err(NcnError::UnknownOperator),
            Some(i) => if self.operator_snapshots[i].has_folded(vault) {
                Err(NcnError::DuplicateDelegation)
            } else if !self.folding() {
                Err(NcnError::InvalidStageTransition)
            } else if self.weight_table is None {
                Err(NcnError::WeightTableNotFinalized)
            } else if self.weight_table->0.lookup(st_mint) is Err {
                Err(self.weight_table->0.lookup(st_mint)->Err_0)
            } else if spec_contribution(delegated_amount, self.weight_table->0.lookup(st_mint)->Ok_0)
                is Err {
                Err(NcnError::WeightArithmeticOverflow)
            } else {
                let c = spec_contribution(
                    delegated_amount,
                    self.weight_table->0.lookup(st_mint)->Ok_0,
                )->Ok_0;
                match self.operator_snapshots[i].fold(vault, c) {
                    Err(e) => Err(e),
                    Ok(folded) => match self.epoch_snapshot->0.spec_add_stake(c) {
                        Err(e) => Err(e),
                        Ok(added) => match spec_seal(self.state, added, folded) {
                            Err(e) => Err(e),
                            Ok((state, snapshot, sealed)) => Ok(
                                EpochView {
                                    state,
                                    epoch_snapshot: Some(snapshot),
                                    operator_snapshots: self.operator_snapshots.update(i, sealed),
                                    ..self
                                },
                            ),
                        },
                    },
                }
            },
        }
    }

    /// The epoch after the snapshot of `operator` was asked to become final.
    pub open spec fn finalize_operator_snapshot(self, operator: Pubkey) -> Result<
        EpochView,
        NcnError,
    > {
        match position(self.operator_keys(), operator) {
            None => Err(NcnError::UnknownOperator),
            Some(i) => if self.operator_snapshots[i].finalized {
                Ok(self)
            } else if !self.folding() {
                Err(NcnError::InvalidStageTransition)
            } else if !self.operator_snapshots[i].complete() {
                Err(NcnError::NotReady)
            } else {
                match spec_seal(self.state, self.epoch_snapshot->0, self.operator_snapshots[i]) {
                    Err(e) => Err(e),
                    Ok((state, snapshot, sealed)) => Ok(
                        EpochView {
                            state,
                            epoch_snapshot: Some(snapshot),
                            operator_snapshots: self.operator_snapshots.update(i, sealed),
                            ..self
                        },
                    ),
                }
            },
        }
    }

    /// The epoch after its aggregate snapshot was asked to become final,
    /// with or without the word that no more operators are expected.
    pub open spec fn finalize_epoch_snapshot(self, no_more_operators: bool) -> Result<
        EpochView,
        NcnError,
    > {
        match self.epoch_snapshot {
            None => Err(NcnError::InvalidStageTransition),
            Some(snapshot) => if snapshot.finalized {
                Ok(self)
            } else {
                match self.state.spec_advance(Stage::SnapshotFinalized) {
                    Err(e) => Err(e),
                    Ok(state) => match snapshot.spec_finalize(no_more_operators) {
                        Err(e) => Err(e),
                        Ok(locked) => Ok(EpochView { state, epoch_snapshot: Some(locked), ..self }),
                    },
                }
            },
        }
    }

    /// The epoch after its ballot box was created in `current_epoch`.
    pub open spec fn initialize_ballot_box(self, current_epoch: u64) -> Result<EpochView, NcnError> {
        if self.ballot_box is Some {
            Err(NcnError::AlreadyInitialized)
        } else if !self.snapshot_final() {
            Err(NcnError::SnapshotNotFinalized)
        } else {
            match self.state.spec_advance(Stage::VotingOpen) {
                Err(e) => Err(e),
                Ok(state) => Ok(
                    EpochView {
                        state,
                        ballot_box: Some(BallotBoxView::new(self.state.epoch, current_epoch)),
                        ..self
                    },
                ),
            }
        }
    }

    /// The epoch after its ballot box was expanded.
    pub open spec fn realloc_ballot_box(self) -> Result<EpochView, NcnError> {
        match self.ballot_box {
            None => Err(NcnError::NotInitialized),
            Some(b) => Ok(EpochView { ballot_box: Some(b.realloc()), ..self }),
        }
    }

    /// The lifecycle record after the vote in `ballot_box` was looked at: it
    /// takes the result over as soon as the box has one.
    pub open spec fn state_after_vote(self, ballot_box: BallotBoxView) -> EpochState {
        match ballot_box.winner {
            None => self.state,
            Some(outcome) => match self.state.spec_record_result(outcome) {
                Ok(recorded) => recorded,
                Err(_) => self.state,
            },
        }
    }

    /// The epoch after `operator` voted for `value`.
    pub open spec fn cast_vote(
        self,
        config: Config,
        operator: Pubkey,
        value: u8,
        current_epoch: u64,
        current_slot: u64,
    ) -> Result<EpochView, NcnError> {
        if self.state.stage == Stage::Closed {
            Err(NcnError::EpochClosed)
        } else if !self.snapshot_final() {
            Err(NcnError::SnapshotNotFinalized)
        } else if self.ballot_box is None {
            Err(NcnError::NotInitialized)
        } else if self.ballot_box->0.accepts_votes(config, current_epoch) is Err {
            Err(self.ballot_box->0.accepts_votes(config, current_epoch)->Err_0)
        } else if self.state.stage != Stage::VotingOpen {
            Err(NcnError::InvalidStageTransition)
        } else {
            match self.snapshot_of(operator) {
                None => Err(NcnError::UnknownOperator),
                Some(snapshot) => if !snapshot.finalized {
                    Err(NcnError::SnapshotNotFinalized)
                } else {
                    match self.ballot_box->0.cast_vote(
                        config,
                        operator,
                        value,
                        snapshot.stake_weight,
                        self.epoch_snapshot->0.total_stake_weight,
                        current_epoch,
                        current_slot,
                    ) {
                        Err(e) => Err(e),
                        Ok(voted) => Ok(
                            EpochView {
                                state: self.state_after_vote(voted),
                                ballot_box: Some(voted),
                                ..self
                            },
                        ),
                    }
                },
            }
        }
    }

    /// The epoch after its vote was marked as stalled.
    pub open spec fn stall(self, config: Config, current_epoch: u64, current_slot: u64) -> Result<
        EpochView,
        NcnError,
    > {
        match self.ballot_box {
            None => Err(NcnError::NotInitialized),
            Some(b) => match b.stall(config, current_epoch, current_slot) {
                Err(e) => Err(e),
                Ok(stalled) => Ok(EpochView { ballot_box: Some(stalled), ..self }),
            },
        }
    }

    /// The epoch after `signer` broke the tie of its vote in favour of
    /// `value`.
    pub open spec fn tie_break(
        self,
        config: Config,
        signer: Pubkey,
        value: u8,
        current_epoch: u64,
        current_slot: u64,
    ) -> Result<EpochView, NcnError> {
        if signer != config.tie_breaker_admin {
            Err(NcnError::Unauthorized)
        } else if self.state.stage == Stage::Closed {
            Err(NcnError::EpochClosed)
        } else if self.ballot_box is None {
            Err(NcnError::NotInitialized)
        } else if self.ballot_box->0.state == BallotBoxState::ConsensusReached {
            Err(NcnError::ConsensusAlreadyReached)
        } else if self.ballot_box->0.state == BallotBoxState::TieBreakResolved {
            Err(NcnError::EpochClosed)
        } else if self.state.stage != Stage::VotingOpen {
            Err(NcnError::InvalidStageTransition)
        } else {
            match self.ballot_box->0.tie_break(config, signer, value, current_epoch, current_slot) {
                Err(e) => Err(e),
                Ok(resolved) => Ok(
                    EpochView {
                        state: self.state_after_vote(resolved),
                        ballot_box: Some(resolved),
                        ..self
                    },
                ),
            }
        }
    }

    /// The epoch after its records were given up in `current_epoch`. The
    /// lifecycle record stays, and with it the result.
    pub open spec fn close(self, config: Config, current_epoch: u64) -> Result<EpochView, NcnError> {
        if self.state.stage == Stage::Closed {
            Err(NcnError::EpochClosed)
        } else {
            match self.state.spec_advance(Stage::Closed) {
                Err(e) => Err(e),
                Ok(state) => if self.state.outcome is None {
                    Err(NcnError::InvalidStageTransition)
                } else if !config.spec_close_due(
                    self.state.outcome->0.recorded_epoch,
                    current_epoch,
                ) {
                    Err(NcnError::NotReady)
                } else {
                    Ok(
                        EpochView {
                            state,
                            weight_table: None,
                            epoch_snapshot: None,
                            operator_snapshots: Seq::empty(),
                            ballot_box: None,
                        },
                    )
                },
            }
        }
    }
}

/// One step on the records of an epoch, with what it is given.
pub ghost enum EpochStep {
    InitializeWeightTable { registry: VaultRegistryView },
    ReallocWeightTable,
    SetWeight { st_mint: Pubkey, weight: u128 },
    SetEpochWeights,
    InitializeEpochSnapshot { operator_count: u64, vault_count: u64 },
    InitializeOperatorSnapshot { operator: Pubkey },
    FoldDelegation { operator: Pubkey, vault: Pubkey, delegated_amount: u64, st_mint: Pubkey },
    FinalizeOperatorSnapshot { operator: Pubkey },
    FinalizeEpochSnapshot { no_more_operators: bool },
    InitializeBallotBox { current_epoch: u64 },
    ReallocBallotBox,
    CastVote { config: Config, operator: Pubkey, value: u8, current_epoch: u64, current_slot: u64 },
    Stall { config: Config, current_epoch: u64, current_slot: u64 },
    TieBreak { config: Config, signer: Pubkey, value: u8, current_epoch: u64, current_slot: u64 },
    Close { config: Config, current_epoch: u64 },
}

impl EpochView {
    /// The epoch after `step`, or the failure with which the step is
    /// refused. These are all the steps that there are.
    pub open spec fn apply(self, step: EpochStep) -> Result<EpochView, NcnError> {
        match step {
            EpochStep::InitializeWeightTable { registry } => self.initialize_weight_table(registry),
            EpochStep::ReallocWeightTable => self.realloc_weight_table(),
            EpochStep::SetWeight { st_mint, weight } => self.set_weight(st_mint, weight),
            EpochStep::SetEpochWeights => self.set_epoch_weights(),
            EpochStep::InitializeEpochSnapshot {
                operator_count,
                vault_count,
            } => self.initialize_epoch_snapshot(operator_count, vault_count),
            EpochStep::InitializeOperatorSnapshot {
                operator,
            } => self.initialize_operator_snapshot(operator),
            EpochStep::FoldDelegation {
                operator,
                vault,
                delegated_amount,
                st_mint,
            } => self.fold_delegation(operator, vault, delegated_amount, st_mint),
            EpochStep::FinalizeOperatorSnapshot { operator } => self.finalize_operator_snapshot(
                operator,
            ),
            EpochStep::FinalizeEpochSnapshot {
                no_more_operators,
            } => self.finalize_epoch_snapshot(no_more_operators),
            EpochStep::InitializeBallotBox { current_epoch } => self.initialize_ballot_box(
                current_epoch,
            ),
            EpochStep::ReallocBallotBox => self.realloc_ballot_box(),
            EpochStep::CastVote {
                config,
                operator,
                value,
                current_epoch,
                current_slot,
            } => self.cast_vote(config, operator, value, current_epoch, current_slot),
            EpochStep::Stall { config, current_epoch, current_slot } => self.stall(
                config,
                current_epoch,
                current_slot,
            ),
            EpochStep::TieBreak {
                config,
                signer,
                value,
                current_epoch,
                current_slot,
            } => self.tie_break(config, signer, value, current_epoch, current_slot),
            EpochStep::Close { config, current_epoch } => self.close(config, current_epoch),
        }
    }
}

impl View for Epoch {
    type V = EpochView;

    open spec fn view(&self) -> EpochView {
        EpochView {
            state: self.state,
            weight_table: table_view(self.weight_table),
            epoch_snapshot: self.epoch_snapshot,
            operator_snapshots: snapshots_view(self.operator_snapshots@),
            ballot_box: box_view(self.ballot_box),
        }
    }
}

/// Locks the aggregate snapshot, and moves the epoch on, as soon as every
/// expected operator has a final snapshot.
fn settle(state: &mut EpochState, snapshot: &mut EpochSnapshot)
    ensures
        (*final(state), *final(snapshot)) == spec_settle(*old(state), *old(snapshot)),
{
    if snapshot.complete(false) || snapshot.finalized {
        let mut moved = *state;
        if moved.advance(Stage::SnapshotFinalized).is_ok() {
            let locked = snapshot.finalize(false);
            assert(locked is Ok);
            *state = moved;
        }
    }
}

impl Epoch {
    /// The records of an epoch that starts at `slot`: the lifecycle record
    /// alone.
    pub fn new(epoch: u64, slot: u64) -> (r: Epoch)
        ensures
            r@ == EpochView::new(epoch, slot),
            r@.wf(),
    {
        let r = Epoch {
            state: EpochState::new(epoch, slot),
            weight_table: None,
            epoch_snapshot: None,
            operator_snapshots: Vec::new(),
            ballot_box: None,
        };
        assert(r@.operator_snapshots =~= Seq::empty());
        r
    }

    /// The place of the snapshot of `operator`.
    pub fn find_operator(&self, operator: Pubkey) -> (r: Option<usize>)
        ensures
            match r {
                Some(i) => position(self@.operator_keys(), operator) == Some(i as int),
                None => position(self@.operator_keys(), operator) is None,
            },
    {
        let ghost keys = self@.operator_keys();
        let mut i: usize = 0;
        while i < self.operator_snapshots.len()
            invariant
                i <= self.operator_snapshots.len(),
                keys == self@.operator_keys(),
                forall|j: int| 0 <= j < i ==> keys[j] != operator,
            decreases self.operator_snapshots.len() - i,
        {
            if self.operator_snapshots[i].operator == operator {
                proof {
                    assert(is_first(keys, operator, i as int));
                    lemma_position_is(keys, operator, i as int);
                }
                return Some(i);
            }
            i += 1;
        }
        proof {
            assert(absent(keys, operator));
            lemma_position_none(keys, operator);
        }
        None
    }

    /// Creates the epoch's weight table as a copy of the registry's mints
    /// and their current weights.
    pub fn initialize_weight_table(&mut self, registry: &VaultRegistry) -> (r: Result<(), NcnError>)
        ensures
            match old(self)@.initialize_weight_table(registry@) {
                Ok(post) => r is Ok && final(self)@ == post,
                Err(e) => r == Err::<(), NcnError>(e) && final(self)@ == old(self)@,
            },
            old(self)@.wf() && registry@.wf() ==> final(self)@.wf(),
            final(self)@.state.epoch == old(self)@.state.epoch,
    {
        proof {
            if old(self)@.wf() && registry@.wf() && old(self)@.initialize_weight_table(registry@)
                is Ok {
                lemma_initialize_weight_table_wf(old(self)@, registry@);
            }
        }
        if self.weight_table.is_some() {
            return Err(NcnError::AlreadyInitialized);
        }
        match self.state.require(Stage::Initialized) {
            Err(e) => {
                return Err(e);
            },
            Ok(()) => {},
        }
        match WeightTable::initialize(self.state.epoch, registry) {
            Err(e) => Err(e),
            Ok(table) => {
                self.weight_table = Some(table);
                Ok(())
            },
        }
    }

    /// Lets the epoch's weight table hold a step more mints.
    pub fn realloc_weight_table(&mut self) -> (r: Result<(), NcnError>)
        ensures
            match old(self)@.realloc_weight_table() {
                Ok(post) => r is Ok && final(self)@ == post,
                Err(e) => r == Err::<(), NcnError>(e) && final(self)@ == old(self)@,
            },
            old(self)@.wf() ==> final(self)@.wf(),
            final(self)@.state.epoch == old(self)@.state.epoch,
    {
        proof {
            if old(self)@.wf() && old(self)@.realloc_weight_table() is Ok {
                lemma_realloc_weight_table_wf(old(self)@);
            }
        }
        match &mut self.weight_table {
            None => Err(NcnError::NotInitialized),
            Some(table) => {
                table.realloc();
                Ok(())
            },
        }
    }

    /// Sets the weight of one mint for this epoch, while the epoch's weights
    /// are not frozen.
    pub fn set_weight(&mut self, st_mint: Pubkey, weight: u128) -> (r: Result<(), NcnError>)
        ensures
            match old(self)@.set_weight(st_mint, weight) {
                Ok(post) => r is Ok && final(self)@ == post,
                Err(e) => r == Err::<(), NcnError>(e) && final(self)@ == old(self)@,
            },
            old(self)@.wf() ==> final(self)@.wf(),
            final(self)@.state.epoch == old(self)@.state.epoch,
    {
        proof {
            if old(self)@.wf() && old(self)@.set_weight(st_mint, weight) is Ok {
                lemma_set_weight_wf(old(self)@, st_mint, weight);
            }
        }
        match &mut self.weight_table {
            None => Err(NcnError::NotInitialized),
            Some(table) => table.set_weight(st_mint, weight),
        }
    }

    /// Freezes the epoch's weights and moves the epoch on. Weights that are
    /// frozen already stay as they are, and the call succeeds.
    pub fn set_epoch_weights(&mut self) -> (r: Result<(), NcnError>)
        ensures
            match old(self)@.set_epoch_weights() {
                Ok(post) => r is Ok && final(self)@ == post,
                Err(e) => r == Err::<(), NcnError>(e) && final(self)@ == old(self)@,
            },
            old(self)@.wf() ==> final(self)@.wf(),
            final(self)@.state.epoch == old(self)@.state.epoch,
    {
        proof {
            if old(self)@.wf() && old(self)@.set_epoch_weights() is Ok {
                lemma_set_epoch_weights_wf(old(self)@);
            }
        }
        let r = match &mut self.weight_table {
            None => Err(NcnError::NotInitialized),
            Some(table) => table.finalize(),
        };
        if r.is_ok() {
            let mut moved = self.state;
            if moved.advance(Stage::WeightsFinalized).is_ok() {
                self.state = moved;
            }
        }
        r
    }

    /// Creates the aggregate snapshot, once the weights are frozen. With no
    /// operator expected, the snapshot is final at once.
    pub fn initialize_epoch_snapshot(&mut self, operator_count: u64, vault_count: u64) -> (r: Result<
        (),
        NcnError,
    >)
        ensures
            match old(self)@.initialize_epoch_snapshot(operator_count, vault_count) {
                Ok(post) => r is Ok && final(self)@ == post,
                Err(e) => r == Err::<(), NcnError>(e) && final(self)@ == old(self)@,
            },
            old(self)@.wf() ==> final(self)@.wf(),
            final(self)@.state.epoch == old(self)@.state.epoch,
    {
        proof {
            if old(self)@.wf() && old(self)@.initialize_epoch_snapshot(operator_count, vault_count) is Ok {
                lemma_initialize_epoch_snapshot_wf(old(self)@, operator_count, vault_count);
            }
        }
        if self.epoch_snapshot.is_some() {
            return Err(NcnError::AlreadyInitialized);
        }
        let weights_final = match &self.weight_table {
            None => false,
            Some(table) => table.finalized,
        };
        if !weights_final {
            return Err(NcnError::WeightTableNotFinalized);
        }
        let mut state = self.state;
        match state.advance(Stage::SnapshotStarted) {
            Err(e) => {
                return Err(e);
            },
            Ok(()) => {},
        }
        let mut snapshot = EpochSnapshot::new(self.state.epoch, operator_count, vault_count);
        settle(&mut state, &mut snapshot);
        self.state = state;
        self.epoch_snapshot = Some(snapshot);
        Ok(())
    }

    /// Creates the snapshot of `operator`, with no weight. With no vault to
    /// fold, the snapshot is final at once.
    pub fn initialize_operator_snapshot(&mut self, operator: Pubkey) -> (r: Result<(), NcnError>)
        ensures
            match old(self)@.initialize_operator_snapshot(operator) {
                Ok(post) => r is Ok && final(self)@ == post,
                Err(e) => r == Err::<(), NcnError>(e) && final(self)@ == old(self)@,
            },
            old(self)@.wf() ==> final(self)@.wf(),
            final(self)@.state.epoch == old(self)@.state.epoch,
    {
        proof {
            if old(self)@.wf() && old(self)@.initialize_operator_snapshot(operator) is Ok {
                lemma_initialize_operator_snapshot_wf(old(self)@, operator);
            }
        }
        if self.find_operator(operator).is_some() {
            return Err(NcnError::AlreadyInitialized);
        }
        let mut snapshot = match self.folding() {
            Some(s) => s,
            None => {
                return Err(NcnError::InvalidStageTransition);
            },
        };
        if self.operator_snapshots.len() >= MAX_OPERATORS {
            return Err(NcnError::CapacityExceeded);
        }
        match snapshot.register_operator() {
            Err(e) => {
                return Err(e);
            },
            Ok(()) => {},
        }
        let mut state = self.state;
        let mut fresh = OperatorSnapshot::new(self.state.epoch, operator, snapshot.vault_count);
        if fresh.complete() {
            match snapshot.operator_finalized() {
                Err(e) => {
                    return Err(e);
                },
                Ok(()) => {},
            }
            settle(&mut state, &mut snapshot);
            let sealed = fresh.finalize();
            assert(sealed is Ok);
        }
        self.operator_snapshots.push(fresh);
        self.state = state;
        self.epoch_snapshot = Some(snapshot);
        assert(final(self)@.operator_snapshots =~= old(self)@.operator_snapshots.push(fresh@));
        Ok(())
    }

    /// Folds one delegation into the snapshots: the amount, weighted with
    /// the frozen weight of its mint, is added to the operator's weight and
    /// to the epoch's total, and the vault is entered in the operator's
    /// ledger. An operator whose vaults are all folded in becomes final, and
    /// so does the aggregate once every expected operator is.
    pub fn fold_delegation(
        &mut self,
        operator: Pubkey,
        vault: Pubkey,
        delegated_amount: u64,
        st_mint: Pubkey,
    ) -> (r: Result<(), NcnError>)
        ensures
            match old(self)@.fold_delegation(operator, vault, delegated_amount, st_mint) {
                Ok(post) => r is Ok && final(self)@ == post,
                Err(e) => r == Err::<(), NcnError>(e) && final(self)@ == old(self)@,
            },
            old(self)@.wf() ==> final(self)@.wf(),
            final(self)@.state.epoch == old(self)@.state.epoch,
    {
        proof {
            if old(self)@.wf() && old(self)@.fold_delegation(operator, vault, delegated_amount, st_mint) is Ok {
                lemma_fold_delegation_wf(old(self)@, operator, vault, delegated_amount, st_mint);
            }
        }
        let i = match self.find_operator(operator) {
            None => {
                return Err(NcnError::UnknownOperator);
            },
            Some(i) => i,
        };
        if self.operator_snapshots[i].has_folded(vault) {
            return Err(NcnError::DuplicateDelegation);
        }
        let mut snapshot = match self.folding() {
            Some(s) => s,
            None => {
                return Err(NcnError::InvalidStageTransition);
            },
        };
        let looked_up = match &self.weight_table {
            None => {
                return Err(NcnError::WeightTableNotFinalized);
            },
            Some(table) => table.lookup(st_mint),
        };
        let weight = match looked_up {
            Err(e) => {
                return Err(e);
            },
            Ok(w) => w,
        };
        let c = match contribution(delegated_amount, weight) {
            Err(e) => {
                return Err(e);
            },
            Ok(c) => c,
        };
        match self.operator_snapshots[i].check_fold(vault, c) {
            Err(e) => {
                return Err(e);
            },
            Ok(_) => {},
        }
        match snapshot.add_stake(c) {
            Err(e) => {
                return Err(e);
            },
            Ok(()) => {},
        }
        let mut state = self.state;
        let completes = self.operator_snapshots[i].ledger.len() as u64 + 1
            >= self.operator_snapshots[i].expected_vaults;
        if completes {
            match snapshot.operator_finalized() {
                Err(e) => {
                    return Err(e);
                },
                Ok(()) => {},
            }
            settle(&mut state, &mut snapshot);
        }
        let folded = self.operator_snapshots[i].fold(vault, c);
        assert(folded is Ok);
        if completes {
            let sealed = self.operator_snapshots[i].finalize();
            assert(sealed is Ok);
        }
        self.state = state;
        self.epoch_snapshot = Some(snapshot);
        assert(final(self)@.operator_snapshots =~= old(self)@.operator_snapshots.update(
            i as int,
            final(self).operator_snapshots@[i as int]@,
        ));
        Ok(())
    }

    /// Locks the weight of `operator` once all its vaults are folded in. A
    /// snapshot that is final already stays as it is, and the call succeeds.
    pub fn finalize_operator_snapshot(&mut self, operator: Pubkey) -> (r: Result<(), NcnError>)
        ensures
            match old(self)@.finalize_operator_snapshot(operator) {
                Ok(post) => r is Ok && final(self)@ == post,
                Err(e) => r == Err::<(), NcnError>(e) && final(self)@ == old(self)@,
            },
            old(self)@.wf() ==> final(self)@.wf(),
            final(self)@.state.epoch == old(self)@.state.epoch,
    {
        proof {
            if old(self)@.wf() && old(self)@.finalize_operator_snapshot(operator) is Ok {
                lemma_finalize_operator_snapshot_wf(old(self)@, operator);
            }
        }
        let i = match self.find_operator(operator) {
            None => {
                return Err(NcnError::UnknownOperator);
            },
            Some(i) => i,
        };
        if self.operator_snapshots[i].finalized {
            return Ok(());
        }
        let mut snapshot = match self.folding() {
            Some(s) => s,
            None => {
                return Err(NcnError::InvalidStageTransition);
            },
        };
        if !self.operator_snapshots[i].complete() {
            return Err(NcnError::NotReady);
        }
        match snapshot.operator_finalized() {
            Err(e) => {
                return Err(e);
            },
            Ok(()) => {},
        }
        let mut state = self.state;
        settle(&mut state, &mut snapshot);
        let sealed = self.operator_snapshots[i].finalize();
        assert(sealed is Ok);
        self.state = state;
        self.epoch_snapshot = Some(snapshot);
        assert(final(self)@.operator_snapshots =~= old(self)@.operator_snapshots.update(
            i as int,
            final(self).operator_snapshots@[i as int]@,
        ));
        Ok(())
    }

    /// Locks the epoch's total voting weight and moves the epoch on. Every
    /// operator snapshot that was created must be final; and either every
    /// expected operator has one, or `no_more_operators` says that none will
    /// follow. A snapshot that is final already stays as it is, and the call
    /// succeeds.
    pub fn finalize_epoch_snapshot(&mut self, no_more_operators: bool) -> (r: Result<(), NcnError>)
        ensures
            match old(self)@.finalize_epoch_snapshot(no_more_operators) {
                Ok(post) => r is Ok && final(self)@ == post,
                Err(e) => r == Err::<(), NcnError>(e) && final(self)@ == old(self)@,
            },
            old(self)@.wf() ==> final(self)@.wf(),
            final(self)@.state.epoch == old(self)@.state.epoch,
    {
        proof {
            if old(self)@.wf() && old(self)@.finalize_epoch_snapshot(no_more_operators) is Ok {
                lemma_finalize_epoch_snapshot_wf(old(self)@, no_more_operators);
            }
        }
        let mut snapshot = match self.epoch_snapshot {
            Some(s) => s,
            None => {
                return Err(NcnError::InvalidStageTransition);
            },
        };
        if snapshot.finalized {
            return Ok(());
        }
        let mut state = self.state;
        match state.advance(Stage::SnapshotFinalized) {
            Err(e) => {
                return Err(e);
            },
            Ok(()) => {},
        }
        match snapshot.finalize(no_more_operators) {
            Err(e) => Err(e),
            Ok(()) => {
                self.state = state;
                self.epoch_snapshot = Some(snapshot);
                Ok(())
            },
        }
    }

    /// Creates the epoch's ballot box, once the snapshots are final, and
    /// opens the vote in `current_epoch`.
    pub fn initialize_ballot_box(&mut self, current_epoch: u64) -> (r: Result<(), NcnError>)
        ensures
            match old(self)@.initialize_ballot_box(current_epoch) {
                Ok(post) => r is Ok && final(self)@ == post,
                Err(e) => r == Err::<(), NcnError>(e) && final(self)@ == old(self)@,
            },
            old(self)@.wf() ==> final(self)@.wf(),
            final(self)@.state.epoch == old(self)@.state.epoch,
    {
        proof {
            if old(self)@.wf() && old(self)@.initialize_ballot_box(current_epoch) is Ok {
                lemma_initialize_ballot_box_wf(old(self)@, current_epoch);
            }
        }
        if self.ballot_box.is_some() {
            return Err(NcnError::AlreadyInitialized);
        }
        if !self.snapshot_final() {
            return Err(NcnError::SnapshotNotFinalized);
        }
        match self.state.advance(Stage::VotingOpen) {
            Err(e) => Err(e),
            Ok(()) => {
                self.ballot_box = Some(BallotBox::new(self.state.epoch, current_epoch));
                Ok(())
            },
        }
    }

    /// The aggregate snapshot, while stake is being folded into the epoch's
    /// snapshots.
    pub fn folding(&self) -> (r: Option<EpochSnapshot>)
        ensures
            r is Some <==> self@.folding(),
            r is Some ==> r == self@.epoch_snapshot,
    {
        match self.state.require(Stage::SnapshotStarted) {
            Err(_) => None,
            Ok(()) => self.epoch_snapshot,
        }
    }

    /// Whether the epoch's total voting weight is locked.
    pub fn snapshot_final(&self) -> (b: bool)
        ensures
            b == self@.snapshot_final(),
    {
        match self.epoch_snapshot {
            Some(s) => s.finalized,
            None => false,
        }
    }

    /// Lets the epoch's ballot box hold the votes of a step more operators.
    pub fn realloc_ballot_box(&mut self) -> (r: Result<(), NcnError>)
        ensures
            match old(self)@.realloc_ballot_box() {
                Ok(post) => r is Ok && final(self)@ == post,
                Err(e) => r == Err::<(), NcnError>(e) && final(self)@ == old(self)@,
            },
            old(self)@.wf() ==> final(self)@.wf(),
            final(self)@.state.epoch == old(self)@.state.epoch,
    {
        proof {
            if old(self)@.wf() && old(self)@.realloc_ballot_box() is Ok {
                lemma_realloc_ballot_box_wf(old(self)@);
            }
        }
        match &mut self.ballot_box {
            None => Err(NcnError::NotInitialized),
            Some(b) => {
                b.realloc();
                Ok(())
            },
        }
    }

    /// Casts the vote of `operator` for `value`, with the weight of the
    /// operator's final snapshot, against the epoch's locked total. A value
    /// that reaches the supermajority becomes the epoch's result.
    pub fn cast_vote(
        &mut self,
        config: &Config,
        operator: Pubkey,
        value: u8,
        current_epoch: u64,
        current_slot: u64,
    ) -> (r: Result<(), NcnError>)
        ensures
            match old(self)@.cast_vote(*config, operator, value, current_epoch, current_slot) {
                Ok(post) => r is Ok && final(self)@ == post,
                Err(e) => r == Err::<(), NcnError>(e) && final(self)@ == old(self)@,
            },
            old(self)@.wf() ==> final(self)@.wf(),
            final(self)@.state.epoch == old(self)@.state.epoch,
    {
        proof {
            if old(self)@.wf() && old(self)@.cast_vote(*config, operator, value, current_epoch, current_slot) is Ok {
                lemma_cast_vote_keeps_wf(old(self)@, *config, operator, value, current_epoch, current_slot);
            }
        }
        if self.state.stage == Stage::Closed {
            return Err(NcnError::EpochClosed);
        }
        let total = match self.epoch_snapshot {
            Some(s) => {
                if !s.finalized {
                    return Err(NcnError::SnapshotNotFinalized);
                }
                s.total_stake_weight
            },
            None => {
                return Err(NcnError::SnapshotNotFinalized);
            },
        };
        let accepts = match &self.ballot_box {
            None => {
                return Err(NcnError::NotInitialized);
            },
            Some(b) => b.accepts_votes(config, current_epoch),
        };
        match accepts {
            Err(e) => {
                return Err(e);
            },
            Ok(()) => {},
        }
        if self.state.stage != Stage::VotingOpen {
            return Err(NcnError::InvalidStageTransition);
        }
        let weight = match self.find_operator(operator) {
            None => {
                return Err(NcnError::UnknownOperator);
            },
            Some(i) => {
                if !self.operator_snapshots[i].finalized {
                    return Err(NcnError::SnapshotNotFinalized);
                }
                self.operator_snapshots[i].stake_weight
            },
        };
        let (voted, winner) = match &mut self.ballot_box {
            None => (Err(NcnError::NotInitialized), None),
            Some(b) => {
                let voted = b.cast_vote(
                    config,
                    operator,
                    value,
                    weight,
                    total,
                    current_epoch,
                    current_slot,
                );
                (voted, b.winner)
            },
        };
        if voted.is_ok() {
            if let Some(outcome) = winner {
                let recorded = self.state.record_result(outcome);
                assert(recorded is Ok);
            }
        }
        voted
    }

    /// Marks the epoch's vote as stalled, once its time has run out without
    /// a result.
    pub fn stall(&mut self, config: &Config, current_epoch: u64, current_slot: u64) -> (r: Result<
        (),
        NcnError,
    >)
        ensures
            match old(self)@.stall(*config, current_epoch, current_slot) {
                Ok(post) => r is Ok && final(self)@ == post,
                Err(e) => r == Err::<(), NcnError>(e) && final(self)@ == old(self)@,
            },
            old(self)@.wf() ==> final(self)@.wf(),
            final(self)@.state.epoch == old(self)@.state.epoch,
    {
        proof {
            if old(self)@.wf() && old(self)@.stall(*config, current_epoch, current_slot) is Ok {
                lemma_stall_wf(old(self)@, *config, current_epoch, current_slot);
            }
        }
        match &mut self.ballot_box {
            None => Err(NcnError::NotInitialized),
            Some(b) => b.stall(config, current_epoch, current_slot),
        }
    }

    /// Breaks the tie of a stalled vote: the value that the tie-breaker
    /// chose becomes the epoch's result.
    pub fn tie_break(
        &mut self,
        config: &Config,
        signer: Pubkey,
        value: u8,
        current_epoch: u64,
        current_slot: u64,
    ) -> (r: Result<(), NcnError>)
        ensures
            match old(self)@.tie_break(*config, signer, value, current_epoch, current_slot) {
                Ok(post) => r is Ok && final(self)@ == post,
                Err(e) => r == Err::<(), NcnError>(e) && final(self)@ == old(self)@,
            },
            old(self)@.wf() ==> final(self)@.wf(),
            final(self)@.state.epoch == old(self)@.state.epoch,
    {
        proof {
            if old(self)@.wf() && old(self)@.tie_break(*config, signer, value, current_epoch, current_slot) is Ok {
                lemma_tie_break_wf(old(self)@, *config, signer, value, current_epoch, current_slot);
            }
        }
        if signer != config.tie_breaker_admin {
            return Err(NcnError::Unauthorized);
        }
        if self.state.stage == Stage::Closed {
            return Err(NcnError::EpochClosed);
        }
        let box_state = match &self.ballot_box {
            None => {
                return Err(NcnError::NotInitialized);
            },
            Some(b) => b.state,
        };
        if box_state == BallotBoxState::ConsensusReached {
            return Err(NcnError::ConsensusAlreadyReached);
        }
        if box_state == BallotBoxState::TieBreakResolved {
            return Err(NcnError::EpochClosed);
        }
        if self.state.stage != Stage::VotingOpen {
            return Err(NcnError::InvalidStageTransition);
        }
        let (resolved, winner) = match &mut self.ballot_box {
            None => (Err(NcnError::NotInitialized), None),
            Some(b) => {
                let resolved = b.tie_break(config, signer, value, current_epoch, current_slot);
                (resolved, b.winner)
            },
        };
        if resolved.is_ok() {
            if let Some(outcome) = winner {
                let recorded = self.state.record_result(outcome);
                assert(recorded is Ok);
            }
        }
        resolved
    }

    /// Gives the epoch's records up, once the result has been kept for the
    /// epochs that the configuration asks for. The lifecycle record stays,
    /// and with it the result.
    pub fn close(&mut self, config: &Config, current_epoch: u64) -> (r: Result<(), NcnError>)
        ensures
            match old(self)@.close(*config, current_epoch) {
                Ok(post) => r is Ok && final(self)@ == post,
                Err(e) => r == Err::<(), NcnError>(e) && final(self)@ == old(self)@,
            },
            old(self)@.wf() ==> final(self)@.wf(),
            final(self)@.state.epoch == old(self)@.state.epoch,
    {
        proof {
            if old(self)@.wf() && old(self)@.close(*config, current_epoch) is Ok {
                lemma_close_wf(old(self)@, *config, current_epoch);
            }
        }
        if self.state.stage == Stage::Closed {
            return Err(NcnError::EpochClosed);
        }
        let mut state = self.state;
        match state.advance(Stage::Closed) {
            Err(e) => {
                return Err(e);
            },
            Ok(()) => {},
        }
        let recorded_epoch = match self.state.outcome {
            Some(outcome) => outcome.recorded_epoch,
            None => {
                return Err(NcnError::InvalidStageTransition);
            },
        };
        if !config.close_due(recorded_epoch, current_epoch) {
            return Err(NcnError::NotReady);
        }
        self.state = state;
        self.weight_table = None;
        self.epoch_snapshot = None;
        self.operator_snapshots = Vec::new();
        self.ballot_box = None;
        assert(final(self)@.operator_snapshots =~= Seq::empty());
        Ok(())
    }
}

} // verus!
