//! The handlers of the instructions, and the entry point that picks one.

use vstd::prelude::*;
use crate::config::{AdminRole, Config};
use crate::epoch::Epoch;
use crate::error::NcnError;
use crate::program::{Context, Instruction, Program, ProgramView};
use crate::pubkey::Pubkey;
use crate::seq_model::{
    absent, is_first, lemma_position, lemma_position_is, lemma_position_none, position,
};
use crate::vault_registry::VaultRegistry;

verus! {

/// What a step on the epoch at place `i` does to the state of the program:
/// that epoch is replaced and nothing else is touched. A step that leaves
/// the epoch as it was leaves the state as it was; one that keeps the epoch
/// well formed and under its number keeps the state well formed.
proof fn lemma_epoch_stepped(before: Program, after: Program, i: int)
    requires
        0 <= i < before.epochs@.len(),
        after.epochs@ == before.epochs@.update(i, after.epochs@[i]),
        after.program_id == before.program_id,
        after.config == before.config,
        after.vault_registry == before.vault_registry,
    ensures
        after@ == (ProgramView { epochs: before@.epochs.update(i, after.epochs@[i]@), ..before@ }),
        after.epochs@[i]@ == before.epochs@[i]@ ==> after@ == before@,
        before@.wf() && after.epochs@[i]@.wf() && after.epochs@[i]@.state.epoch
            == before.epochs@[i]@.state.epoch ==> after@.wf(),
{
    assert(after@.epochs =~= before@.epochs.update(i, after.epochs@[i]@));
    if after.epochs@[i]@ == before.epochs@[i]@ {
        assert(after@.epochs =~= before@.epochs);
    }
    if before@.wf() && after.epochs@[i]@.wf() && after.epochs@[i]@.state.epoch
        == before.epochs@[i]@.state.epoch {
        assert forall|j: int| 0 <= j < after@.epochs.len() implies (#[trigger] after@.epochs[j]).wf() by {
            if j != i {
                assert(after@.epochs[j] == before@.epochs[j]);
            }
        }
        assert forall|j: int, k: int| 0 <= j < k < after@.epochs.len() implies (
        #[trigger] after@.epochs[j]).state.epoch < (#[trigger] after@.epochs[k]).state.epoch by {
            assert(after@.epochs[j].state.epoch == before@.epochs[j].state.epoch);
            assert(after@.epochs[k].state.epoch == before@.epochs[k].state.epoch);
        }
    }
}

impl Program {
    /// The program that takes instructions under `program_id`, before
    /// anything is created.
    pub fn new(program_id: Pubkey) -> (r: Program)
        ensures
            r@ == ProgramView::new(program_id),
            r@.wf(),
    {
        let r = Program { program_id, config: None, vault_registry: None, epochs: Vec::new() };
        assert(r@.epochs =~= Seq::empty());
        r
    }

    /// The place of the records of `epoch`.
    pub fn find_epoch(&self, epoch: u64) -> (r: Option<usize>)
        ensures
            match r {
                Some(i) => position(self@.epoch_keys(), epoch) == Some(i as int) && i
                    < self.epochs@.len(),
                None => position(self@.epoch_keys(), epoch) is None,
            },
    {
        let ghost keys = self@.epoch_keys();
        let mut i: usize = 0;
        while i < self.epochs.len()
            invariant
                i <= self.epochs.len(),
                keys == self@.epoch_keys(),
                forall|j: int| 0 <= j < i ==> keys[j] != epoch,
            decreases self.epochs.len() - i,
        {
            if self.epochs[i].state.epoch == epoch {
                proof {
                    assert(is_first(keys, epoch, i as int));
                    lemma_position_is(keys, epoch, i as int);
                }
                return Some(i);
            }
            i += 1;
        }
        proof {
            assert(absent(keys, epoch));
            lemma_position_none(keys, epoch);
        }
        None
    }

    /// The configuration, if there is one and `signer` is its administrator.
    pub fn admin_config(&self, signer: Pubkey) -> (r: Result<Config, NcnError>)
        ensures
            r == self@.admin_config(signer),
    {
        match self.config {
            None => Err(NcnError::NotInitialized),
            Some(config) => if signer != config.admin {
                Err(NcnError::Unauthorized)
            } else {
                Ok(config)
            },
        }
    }

    /// Creates the configuration. The signer becomes the administrator, and
    /// the current epoch the first valid one.
    pub fn process_admin_initialize_config(
        &mut self,
        ctx: &Context,
        tie_breaker_admin: Pubkey,
        epochs_before_stall: u64,
        epochs_after_consensus_before_close: u64,
        valid_slots_after_consensus: u64,
    ) -> (r: Result<(), NcnError>)
        ensures
            match old(self)@.initialize_config(
                *ctx,
                tie_breaker_admin,
                epochs_before_stall,
                epochs_after_consensus_before_close,
                valid_slots_after_consensus,
            ) {
                Ok(post) => r is Ok && final(self)@ == post,
                Err(e) => r == Err::<(), NcnError>(e) && final(self)@ == old(self)@,
            },
            old(self)@.wf() ==> final(self)@.wf(),
    {
        if self.config.is_some() {
            return Err(NcnError::AlreadyInitialized);
        }
        self.config = Some(
            Config::new(
                ctx.signer,
                tie_breaker_admin,
                ctx.current_epoch,
                epochs_before_stall,
                epochs_after_consensus_before_close,
                valid_slots_after_consensus,
            ),
        );
        Ok(())
    }

    /// Creates the empty registry, once there is a configuration.
    pub fn process_initialize_vault_registry(&mut self) -> (r: Result<(), NcnError>)
        ensures
            match old(self)@.initialize_vault_registry() {
                Ok(post) => r is Ok && final(self)@ == post,
                Err(e) => r == Err::<(), NcnError>(e) && final(self)@ == old(self)@,
            },
            old(self)@.wf() ==> final(self)@.wf(),
    {
        if self.config.is_none() {
            return Err(NcnError::NotInitialized);
        }
        if self.vault_registry.is_some() {
            return Err(NcnError::AlreadyInitialized);
        }
        let registry = VaultRegistry::new();
        assert(registry@.st_mints =~= Seq::empty());
        assert(registry@.vaults =~= Seq::empty());
        self.vault_registry = Some(registry);
        Ok(())
    }

    /// Lets the registry hold a step more mints and vaults.
    pub fn process_realloc_vault_registry(&mut self) -> (r: Result<(), NcnError>)
        ensures
            match old(self)@.realloc_vault_registry() {
                Ok(post) => r is Ok && final(self)@ == post,
                Err(e) => r == Err::<(), NcnError>(e) && final(self)@ == old(self)@,
            },
            old(self)@.wf() ==> final(self)@.wf(),
    {
        match &mut self.vault_registry {
            None => Err(NcnError::NotInitialized),
            Some(registry) => {
                registry.realloc();
                Ok(())
            },
        }
    }

    /// Registers a vault. Only the administrator may do so.
    pub fn process_register_vault(&mut self, ctx: &Context, vault: Pubkey, st_mint: Pubkey) -> (r:
        Result<(), NcnError>)
        ensures
            match old(self)@.register_vault(*ctx, vault, st_mint) {
                Ok(post) => r is Ok && final(self)@ == post,
                Err(e) => r == Err::<(), NcnError>(e) && final(self)@ == old(self)@,
            },
            old(self)@.wf() ==> final(self)@.wf(),
    {
        match self.admin_config(ctx.signer) {
            Err(e) => {
                return Err(e);
            },
            Ok(_) => {},
        }
        match &mut self.vault_registry {
            None => Err(NcnError::NotInitialized),
            Some(registry) => registry.register_vault(vault, st_mint),
        }
    }

    /// Registers a stake mint. Only the administrator may do so.
    pub fn process_admin_register_st_mint(
        &mut self,
        ctx: &Context,
        st_mint: Pubkey,
        weight: Option<u128>,
    ) -> (r: Result<(), NcnError>)
        ensures
            match old(self)@.admin_register_st_mint(*ctx, st_mint, weight) {
                Ok(post) => r is Ok && final(self)@ == post,
                Err(e) => r == Err::<(), NcnError>(e) && final(self)@ == old(self)@,
            },
            old(self)@.wf() ==> final(self)@.wf(),
    {
        match self.admin_config(ctx.signer) {
            Err(e) => {
                return Err(e);
            },
            Ok(_) => {},
        }
        match &mut self.vault_registry {
            None => Err(NcnError::NotInitialized),
            Some(registry) => registry.register_st_mint(st_mint, weight),
        }
    }

    /// Sets the current weight of a registered mint. Only the administrator
    /// may do so. No epoch's weight table is touched.
    pub fn process_admin_set_st_mint(&mut self, ctx: &Context, st_mint: Pubkey, weight: Option<u128>) -> (r:
        Result<(), NcnError>)
        ensures
            match old(self)@.admin_set_st_mint(*ctx, st_mint, weight) {
                Ok(post) => r is Ok && final(self)@ == post,
                Err(e) => r == Err::<(), NcnError>(e) && final(self)@ == old(self)@,
            },
            old(self)@.wf() ==> final(self)@.wf(),
    {
        match self.admin_config(ctx.signer) {
            Err(e) => {
                return Err(e);
            },
            Ok(_) => {},
        }
        match &mut self.vault_registry {
            None => Err(NcnError::NotInitialized),
            Some(registry) => registry.set_st_mint(st_mint, weight),
        }
    }

    /// Changes the parameters for which a value is given. Only the
    /// administrator may do so.
    pub fn process_admin_set_parameters(
        &mut self,
        ctx: &Context,
        starting_valid_epoch: Option<u64>,
        epochs_before_stall: Option<u64>,
        epochs_after_consensus_before_close: Option<u64>,
        valid_slots_after_consensus: Option<u64>,
    ) -> (r: Result<(), NcnError>)
        ensures
            match old(self)@.admin_set_parameters(
                *ctx,
                starting_valid_epoch,
                epochs_before_stall,
                epochs_after_consensus_before_close,
                valid_slots_after_consensus,
            ) {
                Ok(post) => r is Ok && final(self)@ == post,
                Err(e) => r == Err::<(), NcnError>(e) && final(self)@ == old(self)@,
            },
            old(self)@.wf() ==> final(self)@.wf(),
    {
        match &mut self.config {
            None => Err(NcnError::NotInitialized),
            Some(config) => config.set_parameters(
                ctx.signer,
                starting_valid_epoch,
                epochs_before_stall,
                epochs_after_consensus_before_close,
                valid_slots_after_consensus,
            ),
        }
    }

    /// Hands one of the two authorities to `new_admin`. Only the
    /// administrator may do so. No epoch's records are touched.
    pub fn process_admin_set_new_admin(&mut self, ctx: &Context, role: AdminRole, new_admin: Pubkey) -> (r:
        Result<(), NcnError>)
        ensures
            match old(self)@.admin_set_new_admin(*ctx, role, new_admin) {
                Ok(post) => r is Ok && final(self)@ == post,
                Err(e) => r == Err::<(), NcnError>(e) && final(self)@ == old(self)@,
            },
            old(self)@.wf() ==> final(self)@.wf(),
    {
        match &mut self.config {
            None => Err(NcnError::NotInitialized),
            Some(config) => config.set_new_admin(ctx.signer, role, new_admin),
        }
    }

    /// Starts `epoch`. The epoch must not lie before the first valid epoch
    /// nor before an epoch that has been started, and it is started once.
    pub fn process_initialize_epoch_state(&mut self, ctx: &Context, epoch: u64) -> (r: Result<
        (),
        NcnError,
    >)
        ensures
            match old(self)@.initialize_epoch_state(*ctx, epoch) {
                Ok(post) => r is Ok && final(self)@ == post,
                Err(e) => r == Err::<(), NcnError>(e) && final(self)@ == old(self)@,
            },
            old(self)@.wf() ==> final(self)@.wf(),
    {
        let config = match self.config {
            None => {
                return Err(NcnError::NotInitialized);
            },
            Some(config) => config,
        };
        if epoch < config.starting_valid_epoch {
            return Err(NcnError::InvalidEpoch);
        }
        if self.find_epoch(epoch).is_some() {
            return Err(NcnError::AlreadyInitialized);
        }
        let n = self.epochs.len();
        if n > 0 && epoch < self.epochs[n - 1].state.epoch {
            return Err(NcnError::InvalidEpoch);
        }
        let started = Epoch::new(epoch, ctx.current_slot);
        self.epochs.push(started);
        proof {
            assert(self@.epochs =~= old(self)@.epochs.push(started@));
            if old(self)@.wf() {
                lemma_position(old(self)@.epoch_keys(), epoch);
                assert forall|j: int, k: int| 0 <= j < k < self@.epochs.len() implies (
                #[trigger] self@.epochs[j]).state.epoch < (
                #[trigger] self@.epochs[k]).state.epoch by {
                    if k == n {
                        assert(old(self)@.epoch_keys()[j] != epoch);
                        if j < n - 1 {
                            assert(old(self)@.epochs[j].state.epoch < old(self)@.epochs[n
                                - 1].state.epoch);
                        }
                    } else {
                        assert(old(self)@.epochs[j].state.epoch < old(self)@.epochs[k].state.epoch);
                    }
                }
            }
        }
        Ok(())
    }

    /// Creates the weight table of `epoch` from the registry.
    pub fn process_initialize_weight_table(&mut self, epoch: u64) -> (r: Result<(), NcnError>)
        ensures
            match old(self)@.initialize_weight_table(epoch) {
                Ok(post) => r is Ok && final(self)@ == post,
                Err(e) => r == Err::<(), NcnError>(e) && final(self)@ == old(self)@,
            },
            old(self)@.wf() ==> final(self)@.wf(),
    {
        if self.vault_registry.is_none() {
            return Err(NcnError::NotInitialized);
        }
        let i = match self.find_epoch(epoch) {
            None => {
                return Err(NcnError::NotInitialized);
            },
            Some(i) => i,
        };
        let r = match &self.vault_registry {
            None => Err(NcnError::NotInitialized),
            Some(registry) => self.epochs[i].initialize_weight_table(registry),
        };
        proof {
            lemma_epoch_stepped(*old(self), *self, i as int);
        }
        r
    }

    /// Lets the weight table of `epoch` hold a step more mints.
    pub fn process_realloc_weight_table(&mut self, epoch: u64) -> (r: Result<(), NcnError>)
        ensures
            match old(self)@.realloc_weight_table(epoch) {
                Ok(post) => r is Ok && final(self)@ == post,
                Err(e) => r == Err::<(), NcnError>(e) && final(self)@ == old(self)@,
            },
            old(self)@.wf() ==> final(self)@.wf(),
    {
        let i = match self.find_epoch(epoch) {
            None => {
                return Err(NcnError::NotInitialized);
            },
            Some(i) => i,
        };
        let r = self.epochs[i].realloc_weight_table();
        proof {
            lemma_epoch_stepped(*old(self), *self, i as int);
        }
        r
    }

    /// Freezes the weights of `epoch`.
    pub fn process_set_epoch_weights(&mut self, epoch: u64) -> (r: Result<(), NcnError>)
        ensures
            match old(self)@.set_epoch_weights(epoch) {
                Ok(post) => r is Ok && final(self)@ == post,
                Err(e) => r == Err::<(), NcnError>(e) && final(self)@ == old(self)@,
            },
            old(self)@.wf() ==> final(self)@.wf(),
    {
        let i = match self.find_epoch(epoch) {
            None => {
                return Err(NcnError::NotInitialized);
            },
            Some(i) => i,
        };
        let r = self.epochs[i].set_epoch_weights();
        proof {
            lemma_epoch_stepped(*old(self), *self, i as int);
        }
        r
    }

    /// Sets the weight of a mint in the table of `epoch`, while that table
    /// is not frozen. Only the administrator may do so.
    pub fn process_admin_set_weight(
        &mut self,
        ctx: &Context,
        st_mint: Pubkey,
        epoch: u64,
        weight: u128,
    ) -> (r: Result<(), NcnError>)
        ensures
            match old(self)@.admin_set_weight(*ctx, st_mint, weight, epoch) {
                Ok(post) => r is Ok && final(self)@ == post,
                Err(e) => r == Err::<(), NcnError>(e) && final(self)@ == old(self)@,
            },
            old(self)@.wf() ==> final(self)@.wf(),
    {
        match self.admin_config(ctx.signer) {
            Err(e) => {
                return Err(e);
            },
            Ok(_) => {},
        }
        let i = match self.find_epoch(epoch) {
            None => {
                return Err(NcnError::NotInitialized);
            },
            Some(i) => i,
        };
        let r = self.epochs[i].set_weight(st_mint, weight);
        proof {
            lemma_epoch_stepped(*old(self), *self, i as int);
        }
        r
    }

    /// Creates the aggregate snapshot of `epoch`, for `operator_count`
    /// operators and the vaults that the registry holds now.
    pub fn process_initialize_epoch_snapshot(&mut self, epoch: u64, operator_count: u64) -> (r:
        Result<(), NcnError>)
        ensures
            match old(self)@.initialize_epoch_snapshot(epoch, operator_count) {
                Ok(post) => r is Ok && final(self)@ == post,
                Err(e) => r == Err::<(), NcnError>(e) && final(self)@ == old(self)@,
            },
            old(self)@.wf() ==> final(self)@.wf(),
    {
        let vault_count = match &self.vault_registry {
            None => {
                return Err(NcnError::NotInitialized);
            },
            Some(registry) => registry.vault_count() as u64,
        };
        let i = match self.find_epoch(epoch) {
            None => {
                return Err(NcnError::NotInitialized);
            },
            Some(i) => i,
        };
        let r = self.epochs[i].initialize_epoch_snapshot(operator_count, vault_count);
        proof {
            lemma_epoch_stepped(*old(self), *self, i as int);
        }
        r
    }

    /// Creates the snapshot of `operator` in `epoch`.
    pub fn process_initialize_operator_snapshot(&mut self, epoch: u64, operator: Pubkey) -> (r:
        Result<(), NcnError>)
        ensures
            match old(self)@.initialize_operator_snapshot(epoch, operator) {
                Ok(post) => r is Ok && final(self)@ == post,
                Err(e) => r == Err::<(), NcnError>(e) && final(self)@ == old(self)@,
            },
            old(self)@.wf() ==> final(self)@.wf(),
    {
        let i = match self.find_epoch(epoch) {
            None => {
                return Err(NcnError::NotInitialized);
            },
            Some(i) => i,
        };
        let r = self.epochs[i].initialize_operator_snapshot(operator);
        proof {
            lemma_epoch_stepped(*old(self), *self, i as int);
        }
        r
    }

    /// Folds the delegation of `vault` to `operator` into the snapshots of
    /// `epoch`, with the frozen weight of the vault's mint.
    pub fn process_snapshot_vault_operator_delegation(
        &mut self,
        epoch: u64,
        operator: Pubkey,
        vault: Pubkey,
        delegated_amount: u64,
    ) -> (r: Result<(), NcnError>)
        ensures
            match old(self)@.snapshot_vault_operator_delegation(
                epoch,
                operator,
                vault,
                delegated_amount,
            ) {
                Ok(post) => r is Ok && final(self)@ == post,
                Err(e) => r == Err::<(), NcnError>(e) && final(self)@ == old(self)@,
            },
            old(self)@.wf() ==> final(self)@.wf(),
    {
        let (place, st_mint) = match &self.vault_registry {
            None => {
                return Err(NcnError::NotInitialized);
            },
            Some(registry) => match registry.find_vault(vault) {
                None => {
                    return Err(NcnError::UnknownVault);
                },
                Some(v) => (v, registry.vaults[v].st_mint),
            },
        };
        let i = match self.find_epoch(epoch) {
            None => {
                return Err(NcnError::NotInitialized);
            },
            Some(i) => i,
        };
        if let Some(snapshot) = self.epochs[i].epoch_snapshot {
            if place as u64 >= snapshot.vault_count {
                return Err(NcnError::UnknownVault);
            }
        }
        let r = self.epochs[i].fold_delegation(operator, vault, delegated_amount, st_mint);
        proof {
            lemma_epoch_stepped(*old(self), *self, i as int);
        }
        r
    }

    /// Creates the ballot box of `epoch` and opens the vote.
    pub fn process_initialize_ballot_box(&mut self, ctx: &Context, epoch: u64) -> (r: Result<
        (),
        NcnError,
    >)
        ensures
            match old(self)@.initialize_ballot_box(*ctx, epoch) {
                Ok(post) => r is Ok && final(self)@ == post,
                Err(e) => r == Err::<(), NcnError>(e) && final(self)@ == old(self)@,
            },
            old(self)@.wf() ==> final(self)@.wf(),
    {
        let i = match self.find_epoch(epoch) {
            None => {
                return Err(NcnError::NotInitialized);
            },
            Some(i) => i,
        };
        let r = self.epochs[i].initialize_ballot_box(ctx.current_epoch);
        proof {
            lemma_epoch_stepped(*old(self), *self, i as int);
        }
        r
    }

    /// Lets the ballot box of `epoch` hold the votes of a step more
    /// operators.
    pub fn process_realloc_ballot_box(&mut self, epoch: u64) -> (r: Result<(), NcnError>)
        ensures
            match old(self)@.realloc_ballot_box(epoch) {
                Ok(post) => r is Ok && final(self)@ == post,
                Err(e) => r == Err::<(), NcnError>(e) && final(self)@ == old(self)@,
            },
            old(self)@.wf() ==> final(self)@.wf(),
    {
        let i = match self.find_epoch(epoch) {
            None => {
                return Err(NcnError::NotInitialized);
            },
            Some(i) => i,
        };
        let r = self.epochs[i].realloc_ballot_box();
        proof {
            lemma_epoch_stepped(*old(self), *self, i as int);
        }
        r
    }

    /// Casts the vote of `operator` in `epoch`.
    pub fn process_cast_vote(
        &mut self,
        ctx: &Context,
        operator: Pubkey,
        weather_status: u8,
        epoch: u64,
    ) -> (r: Result<(), NcnError>)
        ensures
            match old(self)@.cast_vote(*ctx, operator, weather_status, epoch) {
                Ok(post) => r is Ok && final(self)@ == post,
                Err(e) => r == Err::<(), NcnError>(e) && final(self)@ == old(self)@,
            },
            old(self)@.wf() ==> final(self)@.wf(),
    {
        let config = match self.config {
            None => {
                return Err(NcnError::NotInitialized);
            },
            Some(config) => config,
        };
        let i = match self.find_epoch(epoch) {
            None => {
                return Err(NcnError::NotInitialized);
            },
            Some(i) => i,
        };
        let r = self.epochs[i].cast_vote(
            &config,
            operator,
            weather_status,
            ctx.current_epoch,
            ctx.current_slot,
        );
        proof {
            lemma_epoch_stepped(*old(self), *self, i as int);
        }
        r
    }

    /// Breaks the tie of the stalled vote of `epoch`. Only the tie-breaker
    /// may do so.
    pub fn process_admin_set_tie_breaker(&mut self, ctx: &Context, weather_status: u8, epoch: u64) -> (r:
        Result<(), NcnError>)
        ensures
            match old(self)@.admin_set_tie_breaker(*ctx, weather_status, epoch) {
                Ok(post) => r is Ok && final(self)@ == post,
                Err(e) => r == Err::<(), NcnError>(e) && final(self)@ == old(self)@,
            },
            old(self)@.wf() ==> final(self)@.wf(),
    {
        let config = match self.config {
            None => {
                return Err(NcnError::NotInitialized);
            },
            Some(config) => config,
        };
        let i = match self.find_epoch(epoch) {
            None => {
                return Err(NcnError::NotInitialized);
            },
            Some(i) => i,
        };
        let r = self.epochs[i].tie_break(
            &config,
            ctx.signer,
            weather_status,
            ctx.current_epoch,
            ctx.current_slot,
        );
        proof {
            lemma_epoch_stepped(*old(self), *self, i as int);
        }
        r
    }

    /// Gives the records of `epoch` up, once its result has been kept long
    /// enough.
    pub fn process_close_epoch_account(&mut self, ctx: &Context, epoch: u64) -> (r: Result<
        (),
        NcnError,
    >)
        ensures
            match old(self)@.close_epoch_account(*ctx, epoch) {
                Ok(post) => r is Ok && final(self)@ == post,
                Err(e) => r == Err::<(), NcnError>(e) && final(self)@ == old(self)@,
            },
            old(self)@.wf() ==> final(self)@.wf(),
    {
        let config = match self.config {
            None => {
                return Err(NcnError::NotInitialized);
            },
            Some(config) => config,
        };
        let i = match self.find_epoch(epoch) {
            None => {
                return Err(NcnError::NotInitialized);
            },
            Some(i) => i,
        };
        let r = self.epochs[i].close(&config, ctx.current_epoch);
        proof {
            lemma_epoch_stepped(*old(self), *self, i as int);
        }
        r
    }
}

/// Processes one instruction that was addressed to `program_id`. The
/// instruction is applied as a whole, or it is refused with the failure
/// that names the condition it did not meet, and nothing has changed.
pub fn process_instruction(
    program_id: &Pubkey,
    program: &mut Program,
    ctx: &Context,
    instruction: &Instruction,
) -> (r: Result<(), NcnError>)
    ensures
        match old(program)@.step(*program_id, *ctx, *instruction) {
            Ok(post) => r is Ok && final(program)@ == post,
            Err(e) => r == Err::<(), NcnError>(e) && final(program)@ == old(program)@,
        },
        old(program)@.wf() ==> final(program)@.wf(),
{
    if *program_id != program.program_id {
        return Err(NcnError::IncorrectProgramId);
    }
    match *instruction {
        Instruction::InitializeConfig {
            tie_breaker_admin,
            epochs_before_stall,
            epochs_after_consensus_before_close,
            valid_slots_after_consensus,
        } => program.process_admin_initialize_config(
            ctx,
            tie_breaker_admin,
            epochs_before_stall,
            epochs_after_consensus_before_close,
            valid_slots_after_consensus,
        ),
        Instruction::InitializeVaultRegistry => program.process_initialize_vault_registry(),
        Instruction::ReallocVaultRegistry => program.process_realloc_vault_registry(),
        Instruction::RegisterVault { vault, st_mint } => program.process_register_vault(
            ctx,
            vault,
            st_mint,
        ),
        Instruction::InitializeEpochState { epoch } => program.process_initialize_epoch_state(
            ctx,
            epoch,
        ),
        Instruction::InitializeWeightTable { epoch } => program.process_initialize_weight_table(
            epoch,
        ),
        Instruction::ReallocWeightTable { epoch } => program.process_realloc_weight_table(epoch),
        Instruction::SetEpochWeights { epoch } => program.process_set_epoch_weights(epoch),
        Instruction::InitializeEpochSnapshot {
            epoch,
            operator_count,
        } => program.process_initialize_epoch_snapshot(epoch, operator_count),
        Instruction::InitializeOperatorSnapshot {
            epoch,
            operator,
        } => program.process_initialize_operator_snapshot(epoch, operator),
        Instruction::SnapshotVaultOperatorDelegation {
            epoch,
            operator,
            vault,
            delegated_amount,
        } => program.process_snapshot_vault_operator_delegation(
            epoch,
            operator,
            vault,
            delegated_amount,
        ),
        Instruction::InitializeBallotBox { epoch } => program.process_initialize_ballot_box(
            ctx,
            epoch,
        ),
        Instruction::ReallocBallotBox { epoch } => program.process_realloc_ballot_box(epoch),
        Instruction::CastVote { operator, weather_status, epoch } => program.process_cast_vote(
            ctx,
            operator,
            weather_status,
            epoch,
        ),
        Instruction::CloseEpochAccount { epoch } => program.process_close_epoch_account(ctx, epoch),
        Instruction::AdminSetParameters {
            starting_valid_epoch,
            epochs_before_stall,
            epochs_after_consensus_before_close,
            valid_slots_after_consensus,
        } => program.process_admin_set_parameters(
            ctx,
            starting_valid_epoch,
            epochs_before_stall,
            epochs_after_consensus_before_close,
            valid_slots_after_consensus,
        ),
        Instruction::AdminSetNewAdmin { role, new_admin } => program.process_admin_set_new_admin(
            ctx,
            role,
            new_admin,
        ),
        Instruction::AdminSetTieBreaker {
            weather_status,
            epoch,
        } => program.process_admin_set_tie_breaker(ctx, weather_status, epoch),
        Instruction::AdminSetWeight { st_mint, weight, epoch } => program.process_admin_set_weight(
            ctx,
            st_mint,
            epoch,
            weight,
        ),
        Instruction::AdminRegisterStMint {
            st_mint,
            weight,
        } => program.process_admin_register_st_mint(ctx, st_mint, weight),
        Instruction::AdminSetStMint { st_mint, weight } => program.process_admin_set_st_mint(
            ctx,
            st_mint,
            weight,
        ),
    }
}

} // verus!
