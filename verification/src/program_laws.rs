//! What holds of the program whatever instructions it is sent: every state
//! that it reaches is well formed, and what an epoch has frozen, locked or
//! decided stays so.

use vstd::prelude::*;
use crate::epoch::{EpochStep, EpochView};
use crate::epoch_laws::{
    lemma_apply_keeps_wf, lemma_final_total_is_sum_of_final_weights, lemma_fold_twice_is_refused,
    lemma_fold_uses_frozen_weight, lemma_frozen_weights_stay, lemma_locked_snapshots_stay,
    lemma_no_vote_after_result, lemma_result_stays, lemma_stage_never_goes_back,
};
use crate::epoch_state::Stage;
use crate::config::Config;
use crate::error::{ErrorKind, NcnError};
use crate::program::{Context, Instruction, ProgramView};
use crate::pubkey::Pubkey;
use crate::seq_model::{lemma_position, lemma_position_push, position, sum};
use crate::vault_registry::{
    lemma_register_st_mint_wf, lemma_register_vault_wf, lemma_set_st_mint_wf,
};

verus! {

/// The epoch that `instruction` works on and the step that it takes there,
/// for the instructions that work on the records of one epoch.
pub open spec fn epoch_step_of(pre: ProgramView, ctx: Context, instruction: Instruction) -> Option<
    (u64, EpochStep),
> {
    match instruction {
        Instruction::InitializeWeightTable { epoch } => Some(
            (epoch, EpochStep::InitializeWeightTable { registry: pre.vault_registry->0 }),
        ),
        Instruction::ReallocWeightTable { epoch } => Some((epoch, EpochStep::ReallocWeightTable)),
        Instruction::SetEpochWeights { epoch } => Some((epoch, EpochStep::SetEpochWeights)),
        Instruction::AdminSetWeight { st_mint, weight, epoch } => Some(
            (epoch, EpochStep::SetWeight { st_mint, weight }),
        ),
        Instruction::InitializeEpochSnapshot { epoch, operator_count } => Some(
            (
                epoch,
                EpochStep::InitializeEpochSnapshot {
                    operator_count,
                    vault_count: pre.vault_registry->0.vaults.len() as u64,
                },
            ),
        ),
        Instruction::InitializeOperatorSnapshot { epoch, operator } => Some(
            (epoch, EpochStep::InitializeOperatorSnapshot { operator }),
        ),
        Instruction::SnapshotVaultOperatorDelegation {
            epoch,
            operator,
            vault,
            delegated_amount,
        } => Some(
            (
                epoch,
                EpochStep::FoldDelegation {
                    operator,
                    vault,
                    delegated_amount,
                    st_mint: pre.vault_registry->0.mint_of(vault)->0,
                },
            ),
        ),
        Instruction::InitializeBallotBox { epoch } => Some(
            (epoch, EpochStep::InitializeBallotBox { current_epoch: ctx.current_epoch }),
        ),
        Instruction::ReallocBallotBox { epoch } => Some((epoch, EpochStep::ReallocBallotBox)),
        Instruction::CastVote { operator, weather_status, epoch } => Some(
            (
                epoch,
                EpochStep::CastVote {
                    config: pre.config->0,
                    operator,
                    value: weather_status,
                    current_epoch: ctx.current_epoch,
                    current_slot: ctx.current_slot,
                },
            ),
        ),
        Instruction::AdminSetTieBreaker { weather_status, epoch } => Some(
            (
                epoch,
                EpochStep::TieBreak {
                    config: pre.config->0,
                    signer: ctx.signer,
                    value: weather_status,
                    current_epoch: ctx.current_epoch,
                    current_slot: ctx.current_slot,
                },
            ),
        ),
        Instruction::CloseEpochAccount { epoch } => Some(
            (epoch, EpochStep::Close { config: pre.config->0, current_epoch: ctx.current_epoch }),
        ),
        _ => None,
    }
}

/// What an instruction that was applied has done to the epochs: one that
/// works on an epoch has taken its step on that epoch and touched no other;
/// the start of an epoch has appended its records; every other instruction
/// has left the epochs as they were.
#[verifier::rlimit(30)]
pub proof fn lemma_step_shape(
    pre: ProgramView,
    program_id: Pubkey,
    ctx: Context,
    instruction: Instruction,
)
    requires
        pre.step(program_id, ctx, instruction) is Ok,
    ensures
        ({
            let post = pre.step(program_id, ctx, instruction)->Ok_0;
            match epoch_step_of(pre, ctx, instruction) {
                Some((epoch, step)) => {
                    &&& position(pre.epoch_keys(), epoch) is Some
                    &&& pre.epochs[position(pre.epoch_keys(), epoch)->0].apply(step) is Ok
                    &&& post.epochs == pre.epochs.update(
                        position(pre.epoch_keys(), epoch)->0,
                        pre.epochs[position(pre.epoch_keys(), epoch)->0].apply(step)->Ok_0,
                    )
                    &&& post.vault_registry == pre.vault_registry
                    &&& post.config == pre.config
                    &&& step matches EpochStep::InitializeWeightTable { registry }
                        ==> pre.vault_registry == Some(registry)
                },
                None => if instruction is InitializeEpochState {
                    &&& post.epochs == pre.epochs.push(
                        EpochView::new(instruction->InitializeEpochState_epoch, ctx.current_slot),
                    )
                    &&& position(pre.epoch_keys(), instruction->InitializeEpochState_epoch) is None
                    &&& pre.epochs.len() > 0 ==> pre.epochs.last().state.epoch
                        <= instruction->InitializeEpochState_epoch
                    &&& post.vault_registry == pre.vault_registry
                } else {
                    post.epochs == pre.epochs
                },
            }
        }),
        pre.step(program_id, ctx, instruction)->Ok_0.program_id == pre.program_id,
{
    match instruction {
        Instruction::SnapshotVaultOperatorDelegation { epoch, operator, vault, delegated_amount } => {
            lemma_position(pre.vault_registry->0.vault_keys(), vault);
        },
        _ => {},
    }
}

/// Every instruction keeps the state well formed.
pub proof fn lemma_step_keeps_wf(
    pre: ProgramView,
    program_id: Pubkey,
    ctx: Context,
    instruction: Instruction,
)
    requires
        pre.wf(),
        pre.step(program_id, ctx, instruction) is Ok,
    ensures
        pre.step(program_id, ctx, instruction)->Ok_0.wf(),
{
    let post = pre.step(program_id, ctx, instruction)->Ok_0;
    lemma_step_shape(pre, program_id, ctx, instruction);
    match epoch_step_of(pre, ctx, instruction) {
        Some((epoch, step)) => {
            lemma_position(pre.epoch_keys(), epoch);
            let i = position(pre.epoch_keys(), epoch)->0;
            lemma_apply_keeps_wf(pre.epochs[i], step);
            assert forall|j: int| 0 <= j < post.epochs.len() implies (#[trigger] post.epochs[j]).wf() by {
                if j != i {
                    assert(post.epochs[j] == pre.epochs[j]);
                }
            }
            assert forall|j: int, k: int| 0 <= j < k < post.epochs.len() implies (
            #[trigger] post.epochs[j]).state.epoch < (#[trigger] post.epochs[k]).state.epoch by {
                assert(post.epochs[j].state.epoch == pre.epochs[j].state.epoch);
                assert(post.epochs[k].state.epoch == pre.epochs[k].state.epoch);
            }
        },
        None => {
            match instruction {
                Instruction::InitializeEpochState { epoch } => {
                    let n = pre.epochs.len() as int;
                    lemma_position(pre.epoch_keys(), epoch);
                    assert forall|j: int, k: int| 0 <= j < k < post.epochs.len() implies (
                    #[trigger] post.epochs[j]).state.epoch < (
                    #[trigger] post.epochs[k]).state.epoch by {
                        if k == n {
                            assert(pre.epoch_keys()[j] != epoch);
                            if j < n - 1 {
                                assert(pre.epochs[j].state.epoch < pre.epochs[n - 1].state.epoch);
                            }
                        } else {
                            assert(pre.epochs[j].state.epoch < pre.epochs[k].state.epoch);
                        }
                    }
                    assert forall|j: int| 0 <= j < post.epochs.len() implies (
                    #[trigger] post.epochs[j]).wf() by {
                        if j < n {
                            assert(post.epochs[j] == pre.epochs[j]);
                        }
                    }
                },
                Instruction::RegisterVault { vault, st_mint } => {
                    lemma_register_vault_wf(pre.vault_registry->0, vault, st_mint);
                },
                Instruction::AdminRegisterStMint { st_mint, weight } => {
                    lemma_register_st_mint_wf(pre.vault_registry->0, st_mint, weight);
                },
                Instruction::AdminSetStMint { st_mint, weight } => {
                    lemma_set_st_mint_wf(pre.vault_registry->0, st_mint, weight);
                },
                _ => {},
            }
        },
    }
}

/// What an epoch's records owe to their past. The records `later` follow
/// the records `earlier` of the same epoch if the stage has not gone back;
/// if weights that were frozen are the same and still frozen, if voting
/// weights that were locked are the same, unless the records have been
/// closed since; and if a result that was recorded is the same.
pub open spec fn follows(earlier: EpochView, later: EpochView) -> bool {
    &&& later.state.epoch == earlier.state.epoch
    &&& later.state.stage.spec_rank() >= earlier.state.stage.spec_rank()
    &&& earlier.weights_final() ==> later.state.stage == Stage::Closed || {
        &&& later.weights_final()
        &&& later.weight_table->0.entries == earlier.weight_table->0.entries
    }
    &&& earlier.snapshot_final() ==> later.state.stage == Stage::Closed || {
        &&& later.epoch_snapshot == earlier.epoch_snapshot
        &&& later.operator_snapshots == earlier.operator_snapshots
    }
    &&& earlier.state.outcome is Some ==> later.state.outcome == earlier.state.outcome
}

/// What follows what follows an epoch's records follows them.
pub proof fn lemma_follows_is_transitive(first: EpochView, second: EpochView, third: EpochView)
    requires
        follows(first, second),
        follows(second, third),
    ensures
        follows(first, third),
{
}

/// After every instruction, each epoch is still there, and its records
/// follow those from before: whatever the instruction was, it has not taken
/// a stage back, changed a frozen weight or a locked voting weight, or
/// replaced a result. A change of the registry's weights, or of an
/// authority, is such an instruction.
pub proof fn lemma_step_follows(
    pre: ProgramView,
    program_id: Pubkey,
    ctx: Context,
    instruction: Instruction,
    epoch: u64,
)
    requires
        pre.wf(),
        pre.step(program_id, ctx, instruction) is Ok,
        pre.epoch_of(epoch) is Some,
    ensures
        pre.step(program_id, ctx, instruction)->Ok_0.epoch_of(epoch) is Some,
        follows(
            pre.epoch_of(epoch)->0,
            pre.step(program_id, ctx, instruction)->Ok_0.epoch_of(epoch)->0,
        ),
{
    let post = pre.step(program_id, ctx, instruction)->Ok_0;
    lemma_step_shape(pre, program_id, ctx, instruction);
    lemma_position(pre.epoch_keys(), epoch);
    let at = position(pre.epoch_keys(), epoch)->0;
    match epoch_step_of(pre, ctx, instruction) {
        Some((target, step)) => {
            lemma_position(pre.epoch_keys(), target);
            let i = position(pre.epoch_keys(), target)->0;
            lemma_apply_keeps_wf(pre.epochs[i], step);
            assert(post.epoch_keys() =~= pre.epoch_keys());
            if i == at {
                lemma_stage_never_goes_back(pre.epochs[i], step);
                if pre.epochs[i].weights_final() {
                    lemma_frozen_weights_stay(pre.epochs[i], step);
                }
                if pre.epochs[i].snapshot_final() {
                    lemma_locked_snapshots_stay(pre.epochs[i], step);
                }
                if pre.epochs[i].state.outcome is Some {
                    lemma_result_stays(pre.epochs[i], step);
                }
            }
        },
        None => {
            if instruction is InitializeEpochState {
                let started = instruction->InitializeEpochState_epoch;
                assert(post.epoch_keys() =~= pre.epoch_keys().push(started));
                lemma_position_push(pre.epoch_keys(), started, epoch);
            } else {
                assert(post.epoch_keys() =~= pre.epoch_keys());
            }
        },
    }
}

/// The state after the instructions of `sent` were processed in order, each
/// with what the host knew at its time. An instruction that is refused
/// leaves the state as it was.
pub open spec fn run(pre: ProgramView, program_id: Pubkey, sent: Seq<(Context, Instruction)>) -> ProgramView
    decreases sent.len(),
{
    if sent.len() == 0 {
        pre
    } else {
        let before = run(pre, program_id, sent.drop_last());
        match before.step(program_id, sent.last().0, sent.last().1) {
            Ok(post) => post,
            Err(_) => before,
        }
    }
}

/// Whatever instructions are sent, a well-formed state stays well formed.
pub proof fn lemma_run_keeps_wf(pre: ProgramView, program_id: Pubkey, sent: Seq<(Context, Instruction)>)
    requires
        pre.wf(),
    ensures
        run(pre, program_id, sent).wf(),
    decreases sent.len(),
{
    if sent.len() > 0 {
        lemma_run_keeps_wf(pre, program_id, sent.drop_last());
        let before = run(pre, program_id, sent.drop_last());
        if before.step(program_id, sent.last().0, sent.last().1) is Ok {
            lemma_step_keeps_wf(before, program_id, sent.last().0, sent.last().1);
        }
    }
}

/// Every state that the program reaches from its start is well formed.
pub proof fn lemma_reachable_states_are_wf(program_id: Pubkey, sent: Seq<(Context, Instruction)>)
    ensures
        run(ProgramView::new(program_id), program_id, sent).wf(),
{
    lemma_run_keeps_wf(ProgramView::new(program_id), program_id, sent);
}

/// Whatever instructions are sent, each epoch is still there afterwards,
/// and its records follow those from before. So the weights that an epoch
/// froze are the weights that every later fold of that epoch is made with,
/// whatever happens to the registry in between; the voting weights that an
/// epoch locked are those that every vote of that epoch is counted with;
/// and a result that was recorded is the epoch's result for good.
pub proof fn lemma_run_follows(
    pre: ProgramView,
    program_id: Pubkey,
    sent: Seq<(Context, Instruction)>,
    epoch: u64,
)
    requires
        pre.wf(),
        pre.epoch_of(epoch) is Some,
    ensures
        run(pre, program_id, sent).epoch_of(epoch) is Some,
        follows(pre.epoch_of(epoch)->0, run(pre, program_id, sent).epoch_of(epoch)->0),
    decreases sent.len(),
{
    if sent.len() > 0 {
        lemma_run_follows(pre, program_id, sent.drop_last(), epoch);
        lemma_run_keeps_wf(pre, program_id, sent.drop_last());
        let before = run(pre, program_id, sent.drop_last());
        if before.step(program_id, sent.last().0, sent.last().1) is Ok {
            lemma_step_follows(before, program_id, sent.last().0, sent.last().1, epoch);
            lemma_follows_is_transitive(
                pre.epoch_of(epoch)->0,
                before.epoch_of(epoch)->0,
                before.step(program_id, sent.last().0, sent.last().1)->Ok_0.epoch_of(epoch)->0,
            );
        }
    }
}

/// In every state that the program reaches, the total of each epoch whose
/// aggregate snapshot is final is the sum of the weights of that epoch's
/// operator snapshots, every one of which is final.
pub proof fn lemma_final_totals_are_sums(
    program_id: Pubkey,
    sent: Seq<(Context, Instruction)>,
    epoch: u64,
)
    requires
        run(ProgramView::new(program_id), program_id, sent).epoch_of(epoch) is Some,
        run(ProgramView::new(program_id), program_id, sent).epoch_of(epoch)->0.snapshot_final(),
    ensures
        ({
            let records = run(ProgramView::new(program_id), program_id, sent).epoch_of(epoch)->0;
            &&& records.epoch_snapshot->0.total_stake_weight == sum(records.operator_weights())
            &&& forall|i: int|
                0 <= i < records.operator_snapshots.len() ==> (
                #[trigger] records.operator_snapshots[i]).finalized
        }),
{
    let reached = run(ProgramView::new(program_id), program_id, sent);
    lemma_reachable_states_are_wf(program_id, sent);
    lemma_position(reached.epoch_keys(), epoch);
    let i = position(reached.epoch_keys(), epoch)->0;
    assert(reached.epochs[i].wf());
    lemma_final_total_is_sum_of_final_weights(reached.epochs[i]);
}

/// A delegation is folded in once. After the instruction that folds the
/// delegation of a vault to an operator into an epoch was applied, the same
/// instruction, with whatever amount, is refused as a duplicate.
pub proof fn lemma_same_delegation_is_folded_once(
    pre: ProgramView,
    program_id: Pubkey,
    first: Context,
    second: Context,
    epoch: u64,
    operator: Pubkey,
    vault: Pubkey,
    first_amount: u64,
    second_amount: u64,
)
    requires
        pre.step(
            program_id,
            first,
            Instruction::SnapshotVaultOperatorDelegation {
                epoch,
                operator,
                vault,
                delegated_amount: first_amount,
            },
        ) is Ok,
    ensures
        pre.step(
            program_id,
            first,
            Instruction::SnapshotVaultOperatorDelegation {
                epoch,
                operator,
                vault,
                delegated_amount: first_amount,
            },
        )->Ok_0.step(
            program_id,
            second,
            Instruction::SnapshotVaultOperatorDelegation {
                epoch,
                operator,
                vault,
                delegated_amount: second_amount,
            },
        ) == Err::<ProgramView, NcnError>(NcnError::DuplicateDelegation),
{
    let instruction = Instruction::SnapshotVaultOperatorDelegation {
        epoch,
        operator,
        vault,
        delegated_amount: first_amount,
    };
    let post = pre.step(program_id, first, instruction)->Ok_0;
    lemma_step_shape(pre, program_id, first, instruction);
    lemma_position(pre.epoch_keys(), epoch);
    let i = position(pre.epoch_keys(), epoch)->0;
    let registry = pre.vault_registry->0;
    lemma_position(registry.vault_keys(), vault);
    let st_mint = registry.mint_of(vault)->0;
    assert(post.epoch_keys() =~= pre.epoch_keys());
    lemma_fold_twice_is_refused(
        pre.epochs[i],
        operator,
        vault,
        first_amount,
        st_mint,
        second_amount,
        st_mint,
    );
    lemma_fold_uses_frozen_weight(pre.epochs[i], operator, vault, first_amount, st_mint);
}

/// The weight of a fold is the weight that the epoch froze. Whatever
/// instructions were processed since the weights of an epoch became final,
/// changes of the registry's weights among them, a delegation that is then
/// folded into that epoch is weighed with the weight that the epoch's table
/// held for its mint when it became final.
pub proof fn lemma_later_fold_uses_the_frozen_weight(
    pre: ProgramView,
    program_id: Pubkey,
    sent: Seq<(Context, Instruction)>,
    epoch: u64,
    operator: Pubkey,
    vault: Pubkey,
    delegated_amount: u64,
    st_mint: Pubkey,
)
    requires
        pre.wf(),
        pre.epoch_of(epoch) is Some,
        pre.epoch_of(epoch)->0.weights_final(),
        run(pre, program_id, sent).epoch_of(epoch) is Some,
        run(pre, program_id, sent).epoch_of(epoch)->0.fold_delegation(
            operator,
            vault,
            delegated_amount,
            st_mint,
        ) is Ok,
    ensures
        ({
            let frozen = pre.epoch_of(epoch)->0.weight_table->0;
            let later = run(pre, program_id, sent).epoch_of(epoch)->0;
            let post = later.fold_delegation(operator, vault, delegated_amount, st_mint)->Ok_0;
            &&& frozen.weight_of(st_mint) is Some
            &&& later.weight_table->0.weight_of(st_mint) == frozen.weight_of(st_mint)
            &&& post.epoch_snapshot->0.total_stake_weight
                == later.epoch_snapshot->0.total_stake_weight + delegated_amount
                * frozen.weight_of(st_mint)->0
            &&& post.snapshot_of(operator)->0.stake_weight == later.snapshot_of(
                operator,
            )->0.stake_weight + delegated_amount * frozen.weight_of(st_mint)->0
        }),
{
    let frozen = pre.epoch_of(epoch)->0.weight_table->0;
    let later = run(pre, program_id, sent).epoch_of(epoch)->0;
    lemma_run_follows(pre, program_id, sent, epoch);
    lemma_fold_uses_frozen_weight(later, operator, vault, delegated_amount, st_mint);
    assert(later.weight_table->0.mint_keys() =~= frozen.mint_keys());
}

/// A result is for good. Whatever instructions were processed since the
/// result of an epoch was recorded, the epoch has that result, and every
/// vote that is then cast in it is refused with a failure of the stage
/// class.
pub proof fn lemma_result_is_for_good(
    pre: ProgramView,
    program_id: Pubkey,
    sent: Seq<(Context, Instruction)>,
    epoch: u64,
    config: Config,
    operator: Pubkey,
    value: u8,
    current_epoch: u64,
    current_slot: u64,
)
    requires
        pre.wf(),
        pre.epoch_of(epoch) is Some,
        pre.epoch_of(epoch)->0.state.outcome is Some,
    ensures
        run(pre, program_id, sent).epoch_of(epoch) is Some,
        run(pre, program_id, sent).epoch_of(epoch)->0.state.outcome == pre.epoch_of(
            epoch,
        )->0.state.outcome,
        run(pre, program_id, sent).epoch_of(epoch)->0.cast_vote(
            config,
            operator,
            value,
            current_epoch,
            current_slot,
        ) is Err,
        run(pre, program_id, sent).epoch_of(epoch)->0.cast_vote(
            config,
            operator,
            value,
            current_epoch,
            current_slot,
        )->Err_0.spec_kind() == ErrorKind::Stage,
{
    let reached = run(pre, program_id, sent);
    lemma_run_follows(pre, program_id, sent, epoch);
    lemma_run_keeps_wf(pre, program_id, sent);
    lemma_position(reached.epoch_keys(), epoch);
    let i = position(reached.epoch_keys(), epoch)->0;
    assert(reached.epochs[i].wf());
    lemma_no_vote_after_result(
        reached.epochs[i],
        config,
        operator,
        value,
        current_epoch,
        current_slot,
    );
}

} // verus!
