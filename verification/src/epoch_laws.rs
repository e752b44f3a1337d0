//! What holds of the records of every epoch. Each step keeps them well
//! formed, so that the aggregate snapshot always says what the operator
//! snapshots hold and the result is what the tallies say. Weights that are
//! frozen, voting weights that are locked and a result that is recorded
//! stay as they are. A delegation counts once, in whatever order the
//! delegations come; and a vote is taken whenever it is owed its place.

use vstd::prelude::*;
use crate::ballot_box::{
    is_supermajority, tally_weight, vote_keys, vote_weights, voted_weight, weights_for,
    BallotBoxState, BallotBoxView, OperatorVote,
};
use crate::ballot_laws::{
    lemma_cast_vote_wf, lemma_new_box_wf, lemma_realloc_keeps_wf, lemma_stall_keeps_wf,
    lemma_tallies_after, lemma_tie_break_keeps_wf, lemma_vote_is_refused_only_for_cause,
    lemma_vote_recorded,
};
use crate::config::Config;
use crate::epoch::{
    final_flags_of, operators_of, snapshots_agree, spec_seal, voted_weights_of, weights_of,
    EpochStep, EpochView,
};
use crate::epoch_snapshot::EpochSnapshot;
use crate::epoch_state::{EpochState, Stage};
use crate::error::{ErrorKind, NcnError};
use crate::operator_snapshot::{lemma_fold_wf, spec_contribution, OperatorSnapshotView};
use crate::pubkey::Pubkey;
use crate::seq_model::{
    distinct, lemma_position, lemma_sum_monotone, lemma_sum_of_noughts, lemma_sum_push,
    lemma_sum_update, position, sum,
};
use crate::vault_registry::VaultRegistryView;
use crate::weight_table::WeightTableView;

verus! {

/// A sum of flags that equals their number says that every flag is set.
pub proof fn lemma_all_final(snapshots: Seq<OperatorSnapshotView>)
    ensures
        sum(final_flags_of(snapshots)) <= snapshots.len(),
        sum(final_flags_of(snapshots)) == snapshots.len() ==> forall|i: int|
            0 <= i < snapshots.len() ==> (#[trigger] snapshots[i]).finalized,
    decreases snapshots.len(),
{
    if snapshots.len() > 0 {
        let front = snapshots.drop_last();
        lemma_all_final(front);
        assert(final_flags_of(snapshots).drop_last() =~= final_flags_of(front));
        if sum(final_flags_of(snapshots)) == snapshots.len() {
            assert forall|i: int| 0 <= i < snapshots.len() implies (
            #[trigger] snapshots[i]).finalized by {
                if i < snapshots.len() - 1 {
                    assert(front[i] == snapshots[i]);
                }
            }
        }
    }
}

/// In a well-formed epoch whose aggregate snapshot is final, the total is
/// the sum of the operator snapshots' weights, and every one of them is
/// final: no partial sum stands in a final total.
pub proof fn lemma_final_total_is_sum_of_final_weights(epoch: EpochView)
    requires
        epoch.wf(),
        epoch.snapshot_final(),
    ensures
        epoch.epoch_snapshot->0.total_stake_weight == sum(epoch.operator_weights()),
        forall|i: int|
            0 <= i < epoch.operator_snapshots.len() ==> (
            #[trigger] epoch.operator_snapshots[i]).finalized,
        forall|i: int|
            0 <= i < epoch.operator_snapshots.len() ==> (
            #[trigger] epoch.operator_snapshots[i]).stake_weight == sum(
                epoch.operator_snapshots[i].contributions(),
            ),
{
    lemma_all_final(epoch.operator_snapshots);
}

/// Sealing keeps the aggregate and the operator snapshots in agreement,
/// where the sealed snapshot takes the place `i` of one that was not final.
proof fn lemma_seal_update(
    state: EpochState,
    before: EpochSnapshot,
    snapshots: Seq<OperatorSnapshotView>,
    i: int,
    operator: OperatorSnapshotView,
)
    requires
        state.stage == Stage::SnapshotStarted,
        before.wf(),
        !before.finalized,
        0 <= i < snapshots.len(),
        !snapshots[i].finalized,
        operator.wf(),
        !operator.finalized,
        operator.operator == snapshots[i].operator,
        operator.epoch == before.epoch,
        operator.expected_vaults == before.vault_count,
        before.total_stake_weight == sum(weights_of(snapshots)) - snapshots[i].stake_weight
            + operator.stake_weight,
        before.operators_registered == snapshots.len(),
        before.operators_finalized == sum(final_flags_of(snapshots)),
        distinct(operators_of(snapshots)),
        forall|j: int|
            0 <= j < snapshots.len() && j != i ==> {
                &&& (#[trigger] snapshots[j]).wf()
                &&& snapshots[j].epoch == before.epoch
                &&& snapshots[j].expected_vaults == before.vault_count
                &&& snapshots[j].finalized <==> snapshots[j].complete()
            },
        spec_seal(state, before, operator) is Ok,
    ensures
        ({
            let (after_state, after, sealed) = spec_seal(state, before, operator)->Ok_0;
            &&& after.wf()
            &&& after.epoch == before.epoch
            &&& snapshots_agree(after, snapshots.update(i, sealed))
            &&& after_state.outcome == state.outcome
            &&& after_state.epoch == state.epoch
            &&& if after.finalized {
                after_state.stage == Stage::SnapshotFinalized
            } else {
                after_state.stage == Stage::SnapshotStarted
            }
        }),
{
    let (after_state, after, sealed) = spec_seal(state, before, operator)->Ok_0;
    let updated = snapshots.update(i, sealed);
    assert(operators_of(updated) =~= operators_of(snapshots));
    assert(weights_of(updated) =~= weights_of(snapshots).update(i, operator.stake_weight as int));
    lemma_sum_update(weights_of(snapshots), i, operator.stake_weight as int);
    let flag: int = if sealed.finalized {
        1
    } else {
        0
    };
    assert(final_flags_of(updated) =~= final_flags_of(snapshots).update(i, flag));
    lemma_sum_update(final_flags_of(snapshots), i, flag);
    assert forall|j: int| 0 <= j < updated.len() implies {
        &&& (#[trigger] updated[j]).wf()
        &&& updated[j].epoch == after.epoch
        &&& updated[j].expected_vaults == after.vault_count
        &&& updated[j].finalized <==> updated[j].complete()
    } by {
        if j != i {
            assert(updated[j] == snapshots[j]);
        }
    }
}

/// Folding a delegation keeps an epoch well formed: the total stays the sum
/// of the operators' weights.
pub proof fn lemma_fold_delegation_wf(
    pre: EpochView,
    operator: Pubkey,
    vault: Pubkey,
    delegated_amount: u64,
    st_mint: Pubkey,
)
    requires
        pre.wf(),
        pre.fold_delegation(operator, vault, delegated_amount, st_mint) is Ok,
    ensures
        pre.fold_delegation(operator, vault, delegated_amount, st_mint)->Ok_0.wf(),
{
    let post = pre.fold_delegation(operator, vault, delegated_amount, st_mint)->Ok_0;
    lemma_position(pre.operator_keys(), operator);
    let i = position(pre.operator_keys(), operator)->0;
    let c = spec_contribution(delegated_amount, pre.weight_table->0.lookup(st_mint)->Ok_0)->Ok_0;
    let folded = pre.operator_snapshots[i].fold(vault, c)->Ok_0;
    let added = pre.epoch_snapshot->0.spec_add_stake(c)->Ok_0;
    lemma_fold_wf(pre.operator_snapshots[i], vault, c);
    lemma_seal_update(pre.state, added, pre.operator_snapshots, i, folded);
}

/// Creating an operator's snapshot keeps an epoch well formed.
pub proof fn lemma_initialize_operator_snapshot_wf(pre: EpochView, operator: Pubkey)
    requires
        pre.wf(),
        pre.initialize_operator_snapshot(operator) is Ok,
    ensures
        pre.initialize_operator_snapshot(operator)->Ok_0.wf(),
{
    let post = pre.initialize_operator_snapshot(operator)->Ok_0;
    let registered = pre.epoch_snapshot->0.spec_register_operator()->Ok_0;
    let fresh = OperatorSnapshotView::new(pre.state.epoch, operator, registered.vault_count);
    let grown = pre.operator_snapshots.push(fresh);
    lemma_position(pre.operator_keys(), operator);
    assert(operators_of(grown) =~= operators_of(pre.operator_snapshots).push(operator));
    assert(weights_of(grown) =~= weights_of(pre.operator_snapshots).push(0));
    lemma_sum_push(weights_of(pre.operator_snapshots), 0);
    assert(final_flags_of(grown) =~= final_flags_of(pre.operator_snapshots).push(0));
    lemma_sum_push(final_flags_of(pre.operator_snapshots), 0);
    assert(fresh.contributions() =~= Seq::empty());
    assert(fresh.vault_keys() =~= Seq::empty());
    assert(fresh.wf());
    assert forall|j: int| 0 <= j < grown.len() && j != grown.len() - 1 implies {
        &&& (#[trigger] grown[j]).wf()
        &&& grown[j].epoch == registered.epoch
        &&& grown[j].expected_vaults == registered.vault_count
        &&& grown[j].finalized <==> grown[j].complete()
    } by {
        assert(grown[j] == pre.operator_snapshots[j]);
    }
    lemma_seal_update(pre.state, registered, grown, grown.len() - 1, fresh);
    assert(grown.update(grown.len() - 1, spec_seal(pre.state, registered, fresh)->Ok_0.2)
        =~= post.operator_snapshots);
}

/// Locking an operator's snapshot keeps an epoch well formed.
pub proof fn lemma_finalize_operator_snapshot_wf(pre: EpochView, operator: Pubkey)
    requires
        pre.wf(),
        pre.finalize_operator_snapshot(operator) is Ok,
    ensures
        pre.finalize_operator_snapshot(operator)->Ok_0.wf(),
{
    lemma_position(pre.operator_keys(), operator);
    let i = position(pre.operator_keys(), operator)->0;
    if !pre.operator_snapshots[i].finalized {
        lemma_seal_update(
            pre.state,
            pre.epoch_snapshot->0,
            pre.operator_snapshots,
            i,
            pre.operator_snapshots[i],
        );
    }
}

/// Creating the weight table from a well-formed registry keeps an epoch
/// well formed.
pub proof fn lemma_initialize_weight_table_wf(pre: EpochView, registry: VaultRegistryView)
    requires
        pre.wf(),
        registry.wf(),
        pre.initialize_weight_table(registry) is Ok,
    ensures
        pre.initialize_weight_table(registry)->Ok_0.wf(),
{
    let table = WeightTableView::from_registry(pre.state.epoch, registry)->Ok_0;
    assert(table.mint_keys() =~= registry.mint_keys());
}

/// Expanding the weight table keeps an epoch well formed.
pub proof fn lemma_realloc_weight_table_wf(pre: EpochView)
    requires
        pre.wf(),
        pre.realloc_weight_table() is Ok,
    ensures
        pre.realloc_weight_table()->Ok_0.wf(),
{
    let table = pre.weight_table->0;
    assert(table.realloc().mint_keys() =~= table.mint_keys());
}

/// Setting a weight keeps an epoch well formed.
pub proof fn lemma_set_weight_wf(pre: EpochView, st_mint: Pubkey, weight: u128)
    requires
        pre.wf(),
        pre.set_weight(st_mint, weight) is Ok,
    ensures
        pre.set_weight(st_mint, weight)->Ok_0.wf(),
{
    let table = pre.weight_table->0;
    lemma_position(table.mint_keys(), st_mint);
    assert(table.set_weight(st_mint, weight)->Ok_0.mint_keys() =~= table.mint_keys());
}

/// Freezing the weights keeps an epoch well formed.
pub proof fn lemma_set_epoch_weights_wf(pre: EpochView)
    requires
        pre.wf(),
        pre.set_epoch_weights() is Ok,
    ensures
        pre.set_epoch_weights()->Ok_0.wf(),
{
}

/// Creating the aggregate snapshot keeps an epoch well formed.
pub proof fn lemma_initialize_epoch_snapshot_wf(
    pre: EpochView,
    operator_count: u64,
    vault_count: u64,
)
    requires
        pre.wf(),
        pre.initialize_epoch_snapshot(operator_count, vault_count) is Ok,
    ensures
        pre.initialize_epoch_snapshot(operator_count, vault_count)->Ok_0.wf(),
{
    assert(weights_of(pre.operator_snapshots) =~= Seq::empty());
    assert(final_flags_of(pre.operator_snapshots) =~= Seq::empty());
}

/// Locking the aggregate snapshot keeps an epoch well formed.
pub proof fn lemma_finalize_epoch_snapshot_wf(pre: EpochView, no_more_operators: bool)
    requires
        pre.wf(),
        pre.finalize_epoch_snapshot(no_more_operators) is Ok,
    ensures
        pre.finalize_epoch_snapshot(no_more_operators)->Ok_0.wf(),
{
}

/// A step that leaves the votes as they are leaves what the operators have
/// voted with as it is.
proof fn lemma_same_votes_same_voted_weights(
    snapshots: Seq<OperatorSnapshotView>,
    before: BallotBoxView,
    after: BallotBoxView,
)
    requires
        after.votes == before.votes,
    ensures
        voted_weights_of(snapshots, after) == voted_weights_of(snapshots, before),
{
    assert(voted_weights_of(snapshots, after) =~= voted_weights_of(snapshots, before));
}

/// In a box without votes no operator has voted, and no stake stands
/// behind anything.
proof fn lemma_no_votes_no_weight(snapshots: Seq<OperatorSnapshotView>, ballot_box: BallotBoxView)
    requires
        ballot_box.votes.len() == 0,
    ensures
        sum(vote_weights(ballot_box.votes)) == 0,
        sum(voted_weights_of(snapshots, ballot_box)) == 0,
{
    assert forall|i: int| 0 <= i < snapshots.len() implies voted_weights_of(
        snapshots,
        ballot_box,
    )[i] == 0 by {
        lemma_position(vote_keys(ballot_box.votes), snapshots[i].operator);
    }
    lemma_sum_of_noughts(voted_weights_of(snapshots, ballot_box));
    lemma_sum_of_noughts(vote_weights(ballot_box.votes));
}

/// Opening the vote keeps an epoch well formed.
pub proof fn lemma_initialize_ballot_box_wf(pre: EpochView, current_epoch: u64)
    requires
        pre.wf(),
        pre.initialize_ballot_box(current_epoch) is Ok,
    ensures
        pre.initialize_ballot_box(current_epoch)->Ok_0.wf(),
{
    lemma_new_box_wf(pre.state.epoch, current_epoch);
    lemma_no_votes_no_weight(
        pre.operator_snapshots,
        BallotBoxView::new(pre.state.epoch, current_epoch),
    );
}

/// Expanding the ballot box keeps an epoch well formed.
pub proof fn lemma_realloc_ballot_box_wf(pre: EpochView)
    requires
        pre.wf(),
        pre.realloc_ballot_box() is Ok,
    ensures
        pre.realloc_ballot_box()->Ok_0.wf(),
{
    lemma_realloc_keeps_wf(pre.ballot_box->0);
    lemma_same_votes_same_voted_weights(
        pre.operator_snapshots,
        pre.ballot_box->0,
        pre.ballot_box->0.realloc(),
    );
}

/// A stall mark keeps an epoch well formed.
pub proof fn lemma_stall_wf(pre: EpochView, config: Config, current_epoch: u64, current_slot: u64)
    requires
        pre.wf(),
        pre.stall(config, current_epoch, current_slot) is Ok,
    ensures
        pre.stall(config, current_epoch, current_slot)->Ok_0.wf(),
{
    lemma_stall_keeps_wf(pre.ballot_box->0, config, current_epoch, current_slot);
    lemma_same_votes_same_voted_weights(
        pre.operator_snapshots,
        pre.ballot_box->0,
        pre.ballot_box->0.stall(config, current_epoch, current_slot)->Ok_0,
    );
}

/// A tie-break keeps an epoch well formed.
pub proof fn lemma_tie_break_wf(
    pre: EpochView,
    config: Config,
    signer: Pubkey,
    value: u8,
    current_epoch: u64,
    current_slot: u64,
)
    requires
        pre.wf(),
        pre.tie_break(config, signer, value, current_epoch, current_slot) is Ok,
    ensures
        pre.tie_break(config, signer, value, current_epoch, current_slot)->Ok_0.wf(),
{
    lemma_tie_break_keeps_wf(pre.ballot_box->0, config, signer, value, current_epoch, current_slot);
    lemma_same_votes_same_voted_weights(
        pre.operator_snapshots,
        pre.ballot_box->0,
        pre.ballot_box->0.tie_break(config, signer, value, current_epoch, current_slot)->Ok_0,
    );
}

/// Closing the records keeps an epoch well formed.
pub proof fn lemma_close_wf(pre: EpochView, config: Config, current_epoch: u64)
    requires
        pre.wf(),
        pre.close(config, current_epoch) is Ok,
    ensures
        pre.close(config, current_epoch)->Ok_0.wf(),
{
    let post = pre.close(config, current_epoch)->Ok_0;
    assert(post.operator_snapshots.len() == 0);
}

/// A vote keeps an epoch well formed.
pub proof fn lemma_cast_vote_keeps_wf(
    pre: EpochView,
    config: Config,
    operator: Pubkey,
    value: u8,
    current_epoch: u64,
    current_slot: u64,
)
    requires
        pre.wf(),
        pre.cast_vote(config, operator, value, current_epoch, current_slot) is Ok,
    ensures
        pre.cast_vote(config, operator, value, current_epoch, current_slot)->Ok_0.wf(),
{
    let snapshot = pre.snapshot_of(operator)->0;
    let total = pre.epoch_snapshot->0.total_stake_weight;
    let before = pre.ballot_box->0;
    lemma_cast_vote_wf(
        before,
        config,
        operator,
        value,
        snapshot.stake_weight,
        total,
        current_epoch,
        current_slot,
    );
    let after = before.cast_vote(
        config,
        operator,
        value,
        snapshot.stake_weight,
        total,
        current_epoch,
        current_slot,
    )->Ok_0;
    assert forall|other: u8| other != value implies !is_supermajority(
        #[trigger] tally_weight(after.tallies, other),
        total,
    ) by {
        lemma_tallies_after(before, operator, value, snapshot.stake_weight, other);
        assert(!is_supermajority(tally_weight(before.tallies, other), total));
    }
    lemma_cast_vote_keeps_votes_agreeing(pre, config, operator, value, current_epoch, current_slot);
}

/// A vote keeps the votes in agreement with the snapshots: it counts with
/// the weight of its operator's snapshot, and the stake of all votes stays
/// the stake of the operators that have voted.
proof fn lemma_cast_vote_keeps_votes_agreeing(
    pre: EpochView,
    config: Config,
    operator: Pubkey,
    value: u8,
    current_epoch: u64,
    current_slot: u64,
)
    requires
        pre.wf(),
        pre.cast_vote(config, operator, value, current_epoch, current_slot) is Ok,
    ensures
        pre.cast_vote(
            config,
            operator,
            value,
            current_epoch,
            current_slot,
        )->Ok_0.votes_agree_with_snapshots(),
{
    let post = pre.cast_vote(config, operator, value, current_epoch, current_slot)->Ok_0;
    let snapshots = pre.operator_snapshots;
    let before = pre.ballot_box->0;
    let after = post.ballot_box->0;
    lemma_position(pre.operator_keys(), operator);
    let i = position(pre.operator_keys(), operator)->0;
    let weight = snapshots[i].stake_weight;
    let vote = OperatorVote { operator, value, stake_weight: weight, slot_voted: current_slot };
    assert(after.votes == before.votes_after(vote));
    lemma_position(vote_keys(before.votes), operator);
    lemma_vote_recorded(before, vote, operator);
    assert forall|j: int| 0 <= j < snapshots.len() && j != i implies after.vote_of(
        snapshots[j].operator,
    ) == before.vote_of(snapshots[j].operator) by {
        assert(pre.operator_keys()[j] != pre.operator_keys()[i]);
        lemma_vote_recorded(before, vote, snapshots[j].operator);
    }
    match position(vote_keys(before.votes), operator) {
        Some(k) => {
            assert(before.votes[k].operator == operator);
            assert(before.votes[k].stake_weight == weight);
            assert(vote_weights(after.votes) =~= vote_weights(before.votes));
            assert(voted_weights_of(snapshots, after) =~= voted_weights_of(snapshots, before));
        },
        None => {
            assert(vote_weights(after.votes) =~= vote_weights(before.votes).push(weight as int));
            lemma_sum_push(vote_weights(before.votes), weight as int);
            assert(voted_weights_of(snapshots, after) =~= voted_weights_of(
                snapshots,
                before,
            ).update(i, weight as int));
            lemma_sum_update(voted_weights_of(snapshots, before), i, weight as int);
        },
    }
    assert forall|k: int| 0 <= k < after.votes.len() implies {
        &&& post.snapshot_of((#[trigger] after.votes[k]).operator) is Some
        &&& post.snapshot_of(after.votes[k].operator)->0.stake_weight
            == after.votes[k].stake_weight
    } by {
        if after.votes[k] != vote {
            assert(after.votes[k] == before.votes[k]);
        }
    }
}

/// Every step keeps an epoch well formed and under its number. A weight
/// table is made from a well-formed registry.
pub proof fn lemma_apply_keeps_wf(pre: EpochView, step: EpochStep)
    requires
        pre.wf(),
        step matches EpochStep::InitializeWeightTable { registry } ==> registry.wf(),
        pre.apply(step) is Ok,
    ensures
        pre.apply(step)->Ok_0.wf(),
        pre.apply(step)->Ok_0.state.epoch == pre.state.epoch,
{
    match step {
        EpochStep::InitializeWeightTable { registry } => {
            lemma_initialize_weight_table_wf(pre, registry);
        },
        EpochStep::ReallocWeightTable => {
            lemma_realloc_weight_table_wf(pre);
        },
        EpochStep::SetWeight { st_mint, weight } => {
            lemma_set_weight_wf(pre, st_mint, weight);
        },
        EpochStep::SetEpochWeights => {
            lemma_set_epoch_weights_wf(pre);
        },
        EpochStep::InitializeEpochSnapshot { operator_count, vault_count } => {
            lemma_initialize_epoch_snapshot_wf(pre, operator_count, vault_count);
        },
        EpochStep::InitializeOperatorSnapshot { operator } => {
            lemma_initialize_operator_snapshot_wf(pre, operator);
        },
        EpochStep::FoldDelegation { operator, vault, delegated_amount, st_mint } => {
            lemma_fold_delegation_wf(pre, operator, vault, delegated_amount, st_mint);
        },
        EpochStep::FinalizeOperatorSnapshot { operator } => {
            lemma_finalize_operator_snapshot_wf(pre, operator);
        },
        EpochStep::FinalizeEpochSnapshot { no_more_operators } => {
            lemma_finalize_epoch_snapshot_wf(pre, no_more_operators);
        },
        EpochStep::InitializeBallotBox { current_epoch } => {
            lemma_initialize_ballot_box_wf(pre, current_epoch);
        },
        EpochStep::ReallocBallotBox => {
            lemma_realloc_ballot_box_wf(pre);
        },
        EpochStep::CastVote { config, operator, value, current_epoch, current_slot } => {
            lemma_cast_vote_keeps_wf(pre, config, operator, value, current_epoch, current_slot);
        },
        EpochStep::Stall { config, current_epoch, current_slot } => {
            lemma_stall_wf(pre, config, current_epoch, current_slot);
        },
        EpochStep::TieBreak { config, signer, value, current_epoch, current_slot } => {
            lemma_tie_break_wf(pre, config, signer, value, current_epoch, current_slot);
        },
        EpochStep::Close { config, current_epoch } => {
            lemma_close_wf(pre, config, current_epoch);
        },
    }
}

/// No step takes an epoch back to an earlier stage.
pub proof fn lemma_stage_never_goes_back(pre: EpochView, step: EpochStep)
    requires
        pre.apply(step) is Ok,
    ensures
        pre.apply(step)->Ok_0.state.stage.spec_rank() >= pre.state.stage.spec_rank(),
{
    match step {
        EpochStep::InitializeOperatorSnapshot { operator } => {
            lemma_seal_keeps_stage_or_moves_on(
                pre.state,
                pre.epoch_snapshot->0.spec_register_operator()->Ok_0,
                OperatorSnapshotView::new(
                    pre.state.epoch,
                    operator,
                    pre.epoch_snapshot->0.vault_count,
                ),
            );
        },
        EpochStep::FoldDelegation { operator, vault, delegated_amount, st_mint } => {
            let i = position(pre.operator_keys(), operator)->0;
            let c = spec_contribution(
                delegated_amount,
                pre.weight_table->0.lookup(st_mint)->Ok_0,
            )->Ok_0;
            lemma_seal_keeps_stage_or_moves_on(
                pre.state,
                pre.epoch_snapshot->0.spec_add_stake(c)->Ok_0,
                pre.operator_snapshots[i].fold(vault, c)->Ok_0,
            );
        },
        EpochStep::FinalizeOperatorSnapshot { operator } => {
            let i = position(pre.operator_keys(), operator)->0;
            if !pre.operator_snapshots[i].finalized {
                lemma_seal_keeps_stage_or_moves_on(
                    pre.state,
                    pre.epoch_snapshot->0,
                    pre.operator_snapshots[i],
                );
            }
        },
        _ => {},
    }
}

/// Sealing leaves the stage as it is or takes it one stage on.
proof fn lemma_seal_keeps_stage_or_moves_on(
    state: EpochState,
    snapshot: EpochSnapshot,
    operator: OperatorSnapshotView,
)
    requires
        spec_seal(state, snapshot, operator) is Ok,
    ensures
        spec_seal(state, snapshot, operator)->Ok_0.0.stage.spec_rank() >= state.stage.spec_rank(),
        spec_seal(state, snapshot, operator)->Ok_0.0.epoch == state.epoch,
        spec_seal(state, snapshot, operator)->Ok_0.0.outcome == state.outcome,
{
}

/// Frozen weights stay as they are. Once the weight table of an epoch is
/// final, no step changes a weight in it: until the records are closed, the
/// table holds the entries that it held when it became final.
pub proof fn lemma_frozen_weights_stay(pre: EpochView, step: EpochStep)
    requires
        pre.weights_final(),
        pre.apply(step) is Ok,
    ensures
        pre.apply(step)->Ok_0.state.stage == Stage::Closed || {
            &&& pre.apply(step)->Ok_0.weights_final()
            &&& pre.apply(step)->Ok_0.weight_table->0.entries == pre.weight_table->0.entries
        },
{
}

/// The weight with which a delegation is folded in is the frozen weight of
/// its mint: the fold adds the product of the amount and that weight to the
/// operator's weight and to the epoch's total, and leaves the table as it is.
pub proof fn lemma_fold_uses_frozen_weight(
    pre: EpochView,
    operator: Pubkey,
    vault: Pubkey,
    delegated_amount: u64,
    st_mint: Pubkey,
)
    requires
        pre.fold_delegation(operator, vault, delegated_amount, st_mint) is Ok,
    ensures
        ({
            let post = pre.fold_delegation(operator, vault, delegated_amount, st_mint)->Ok_0;
            &&& pre.weights_final()
            &&& pre.weight_table->0.weight_of(st_mint) is Some
            &&& post.weight_table == pre.weight_table
            &&& post.epoch_snapshot->0.total_stake_weight
                == pre.epoch_snapshot->0.total_stake_weight + delegated_amount
                * pre.weight_table->0.weight_of(st_mint)->0
            &&& post.snapshot_of(operator) is Some
            &&& pre.snapshot_of(operator) is Some
            &&& post.snapshot_of(operator)->0.stake_weight == pre.snapshot_of(
                operator,
            )->0.stake_weight + delegated_amount * pre.weight_table->0.weight_of(st_mint)->0
        }),
{
    let post = pre.fold_delegation(operator, vault, delegated_amount, st_mint)->Ok_0;
    lemma_position(pre.operator_keys(), operator);
    let i = position(pre.operator_keys(), operator)->0;
    assert(post.operator_keys() =~= pre.operator_keys());
}

/// A delegation counts once. After the delegation of a vault to an operator
/// was folded in, every further fold of that vault for that operator is
/// refused as a duplicate, whatever amount and mint it names.
pub proof fn lemma_fold_twice_is_refused(
    pre: EpochView,
    operator: Pubkey,
    vault: Pubkey,
    first_amount: u64,
    first_mint: Pubkey,
    second_amount: u64,
    second_mint: Pubkey,
)
    requires
        pre.fold_delegation(operator, vault, first_amount, first_mint) is Ok,
    ensures
        pre.fold_delegation(operator, vault, first_amount, first_mint)->Ok_0.fold_delegation(
            operator,
            vault,
            second_amount,
            second_mint,
        ) == Err::<EpochView, NcnError>(NcnError::DuplicateDelegation),
{
    let post = pre.fold_delegation(operator, vault, first_amount, first_mint)->Ok_0;
    lemma_position(pre.operator_keys(), operator);
    let i = position(pre.operator_keys(), operator)->0;
    assert(post.operator_keys() =~= pre.operator_keys());
    let c = spec_contribution(first_amount, pre.weight_table->0.lookup(first_mint)->Ok_0)->Ok_0;
    crate::operator_snapshot::lemma_fold_twice_is_refused(pre.operator_snapshots[i], vault, c, 0);
    let folded = pre.operator_snapshots[i].fold(vault, c)->Ok_0;
    assert(post.operator_snapshots[i].vault_keys() =~= folded.vault_keys());
}

/// Locked voting weights stay as they are. Once the aggregate snapshot of
/// a well-formed epoch is final, no step changes the total or the snapshot
/// of any operator, until the records are closed.
pub proof fn lemma_locked_snapshots_stay(pre: EpochView, step: EpochStep)
    requires
        pre.wf(),
        pre.snapshot_final(),
        pre.apply(step) is Ok,
    ensures
        pre.apply(step)->Ok_0.state.stage == Stage::Closed || {
            &&& pre.apply(step)->Ok_0.epoch_snapshot == pre.epoch_snapshot
            &&& pre.apply(step)->Ok_0.operator_snapshots == pre.operator_snapshots
        },
{
    lemma_all_final(pre.operator_snapshots);
    match step {
        EpochStep::FinalizeOperatorSnapshot { operator } => {
            lemma_position(pre.operator_keys(), operator);
        },
        _ => {},
    }
}

/// A recorded result is permanent: no step on a well-formed epoch changes
/// or removes it.
pub proof fn lemma_result_stays(pre: EpochView, step: EpochStep)
    requires
        pre.wf(),
        pre.state.outcome is Some,
        pre.apply(step) is Ok,
    ensures
        pre.apply(step)->Ok_0.state.outcome == pre.state.outcome,
{
}

/// Once a well-formed epoch has its result, every vote is refused with a
/// failure of the stage class.
pub proof fn lemma_no_vote_after_result(
    pre: EpochView,
    config: Config,
    operator: Pubkey,
    value: u8,
    current_epoch: u64,
    current_slot: u64,
)
    requires
        pre.wf(),
        pre.state.outcome is Some,
    ensures
        pre.cast_vote(config, operator, value, current_epoch, current_slot) is Err,
        pre.cast_vote(config, operator, value, current_epoch, current_slot)->Err_0.spec_kind()
            == ErrorKind::Stage,
{
}

/// Before the snapshots are final no vote is taken: neither while the
/// epoch's total can still grow, nor from an operator whose own snapshot is
/// not final.
pub proof fn lemma_no_vote_before_snapshots_are_final(
    pre: EpochView,
    config: Config,
    operator: Pubkey,
    value: u8,
    current_epoch: u64,
    current_slot: u64,
)
    requires
        pre.state.stage != Stage::Closed,
    ensures
        !pre.snapshot_final() ==> pre.cast_vote(config, operator, value, current_epoch, current_slot)
            == Err::<EpochView, NcnError>(NcnError::SnapshotNotFinalized),
        pre.snapshot_of(operator) is Some && !pre.snapshot_of(operator)->0.finalized
            ==> pre.cast_vote(config, operator, value, current_epoch, current_slot) is Err,
        pre.snapshot_of(operator) is Some && !pre.snapshot_of(operator)->0.finalized
            && pre.state.stage == Stage::VotingOpen && pre.snapshot_final() && pre.ballot_box is Some
            && pre.ballot_box->0.accepts_votes(config, current_epoch) is Ok ==> pre.cast_vote(
            config,
            operator,
            value,
            current_epoch,
            current_slot,
        ) == Err::<EpochView, NcnError>(NcnError::SnapshotNotFinalized),
{
}

/// Consensus is what the tallies say. In a well-formed epoch, while votes
/// are awaited no value holds a supermajority of the locked total; and once
/// consensus is recorded, its value holds one with the stake that was
/// recorded, and it is the only value that does. So the result does not
/// depend on which of the tallies is looked at first.
pub proof fn lemma_consensus_is_the_only_supermajority(epoch: EpochView, value: u8)
    requires
        epoch.wf(),
        epoch.ballot_box is Some,
    ensures
        epoch.snapshot_final(),
        epoch.ballot_box->0.state == BallotBoxState::AwaitingVotes ==> !is_supermajority(
            tally_weight(epoch.ballot_box->0.tallies, value),
            epoch.epoch_snapshot->0.total_stake_weight,
        ),
        epoch.ballot_box->0.state == BallotBoxState::ConsensusReached ==> {
            &&& epoch.state.outcome == epoch.ballot_box->0.winner
            &&& epoch.state.outcome is Some
            &&& !epoch.state.outcome->0.tie_break
            &&& is_supermajority(
                epoch.state.outcome->0.stake_weight,
                epoch.epoch_snapshot->0.total_stake_weight,
            )
            &&& is_supermajority(
                tally_weight(epoch.ballot_box->0.tallies, value),
                epoch.epoch_snapshot->0.total_stake_weight,
            ) <==> value == epoch.state.outcome->0.value
        },
{
}

/// In a well-formed epoch the stake behind a value is the stake of votes,
/// the stake of all votes is the stake of operators, and so no more stands
/// behind any value than the epoch's locked total.
pub proof fn lemma_tally_is_within_total(epoch: EpochView, value: u8)
    requires
        epoch.wf(),
        epoch.ballot_box is Some,
    ensures
        tally_weight(epoch.ballot_box->0.tallies, value) <= sum(
            vote_weights(epoch.ballot_box->0.votes),
        ),
        sum(vote_weights(epoch.ballot_box->0.votes))
            <= epoch.epoch_snapshot->0.total_stake_weight,
{
    let b = epoch.ballot_box->0;
    assert(tally_weight(b.tallies, value) == voted_weight(b.votes, value));
    lemma_sum_monotone(weights_for(b.votes, value), vote_weights(b.votes));
    lemma_sum_monotone(
        voted_weights_of(epoch.operator_snapshots, b),
        weights_of(epoch.operator_snapshots),
    );
}

/// When a vote is owed its place. In a well-formed epoch a vote is taken
/// exactly if voting is open, the stall is not due, the operator has a
/// snapshot with stake in it, and the operator has voted before or the box
/// has room. No vote fails for arithmetic: the stake behind a value always
/// fits.
pub proof fn lemma_vote_is_taken_when_owed(
    pre: EpochView,
    config: Config,
    operator: Pubkey,
    value: u8,
    current_epoch: u64,
    current_slot: u64,
)
    requires
        pre.wf(),
    ensures
        pre.cast_vote(config, operator, value, current_epoch, current_slot) is Ok <==> {
            &&& pre.state.stage == Stage::VotingOpen
            &&& pre.ballot_box->0.accepts_votes(config, current_epoch) is Ok
            &&& pre.snapshot_of(operator) is Some
            &&& pre.snapshot_of(operator)->0.stake_weight > 0
            &&& pre.ballot_box->0.vote_of(operator) is Some || (pre.ballot_box->0.votes.len()
                < pre.ballot_box->0.capacity && pre.ballot_box->0.votes.len()
                < crate::capacity::MAX_OPERATORS)
        },
        pre.cast_vote(config, operator, value, current_epoch, current_slot) != Err::<
            EpochView,
            NcnError,
        >(NcnError::WeightArithmeticOverflow),
{
    if pre.state.stage == Stage::VotingOpen && pre.snapshot_of(operator) is Some {
        let b = pre.ballot_box->0;
        let snapshots = pre.operator_snapshots;
        let total = pre.epoch_snapshot->0.total_stake_weight;
        lemma_all_final(snapshots);
        lemma_position(pre.operator_keys(), operator);
        let i = position(pre.operator_keys(), operator)->0;
        let weight = snapshots[i].stake_weight;
        lemma_vote_is_refused_only_for_cause(
            b,
            config,
            operator,
            value,
            weight,
            total,
            current_epoch,
            current_slot,
        );
        lemma_tally_is_within_total(pre, value);
        let behind = weights_for(b.votes, value);
        let all = vote_weights(b.votes);
        let voted = voted_weights_of(snapshots, b);
        lemma_position(vote_keys(b.votes), operator);
        match position(vote_keys(b.votes), operator) {
            None => {
                // The operator has not voted: its weight is not among the
                // stake of the votes yet.
                lemma_sum_update(voted, i, weight as int);
                lemma_sum_monotone(voted.update(i, weight as int), weights_of(snapshots));
            },
            Some(k) => {
                // The operator has voted with the same weight, which stands
                // behind the value of that vote.
                assert(b.votes[k].stake_weight == weight);
                if b.votes[k].value != value {
                    lemma_sum_update(behind, k, weight as int);
                    lemma_sum_monotone(behind.update(k, weight as int), all);
                }
            },
        }
    }
}

/// One delegation: who delegates to whom, how much, and in which mint.
pub ghost struct Delegation {
    pub operator: Pubkey,
    pub vault: Pubkey,
    pub delegated_amount: u64,
    pub st_mint: Pubkey,
}

/// The epoch after `delegation` was folded in.
pub open spec fn folded(pre: EpochView, delegation: Delegation) -> Result<EpochView, NcnError> {
    pre.fold_delegation(
        delegation.operator,
        delegation.vault,
        delegation.delegated_amount,
        delegation.st_mint,
    )
}

/// The snapshots do not depend on the order in which delegations are
/// folded in. When two delegations are folded in, in either order, then the
/// epoch's total, its counts, its stage, and the weight and the finality of
/// every operator are the same whichever came first.
pub proof fn lemma_folds_commute(pre: EpochView, one: Delegation, other: Delegation, any: Pubkey)
    requires
        folded(pre, one) is Ok,
        folded(folded(pre, one)->Ok_0, other) is Ok,
        folded(pre, other) is Ok,
        folded(folded(pre, other)->Ok_0, one) is Ok,
    ensures
        ({
            let this_way = folded(folded(pre, one)->Ok_0, other)->Ok_0;
            let that_way = folded(folded(pre, other)->Ok_0, one)->Ok_0;
            &&& this_way.epoch_snapshot == that_way.epoch_snapshot
            &&& this_way.state == that_way.state
            &&& this_way.weight_table == that_way.weight_table
            &&& this_way.snapshot_of(any) is Some <==> that_way.snapshot_of(any) is Some
            &&& this_way.snapshot_of(any) is Some ==> {
                &&& this_way.snapshot_of(any)->0.stake_weight == that_way.snapshot_of(
                    any,
                )->0.stake_weight
                &&& this_way.snapshot_of(any)->0.finalized == that_way.snapshot_of(any)->0.finalized
                &&& this_way.snapshot_of(any)->0.ledger.len() == that_way.snapshot_of(
                    any,
                )->0.ledger.len()
            }
        }),
{
    let after_one = folded(pre, one)->Ok_0;
    let after_other = folded(pre, other)->Ok_0;
    let this_way = folded(after_one, other)->Ok_0;
    let that_way = folded(after_other, one)->Ok_0;
    lemma_position(pre.operator_keys(), one.operator);
    lemma_position(pre.operator_keys(), other.operator);
    lemma_position(pre.operator_keys(), any);
    assert(after_one.operator_keys() =~= pre.operator_keys());
    assert(after_other.operator_keys() =~= pre.operator_keys());
    assert(this_way.operator_keys() =~= pre.operator_keys());
    assert(that_way.operator_keys() =~= pre.operator_keys());
}

} // verus!
