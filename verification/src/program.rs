//! The whole state of the program and its one entry point: an instruction
//! comes in with what the host knows of its signer and of the clock, and is
//! either applied as a whole or refused with a typed failure.

use vstd::prelude::*;
use crate::config::{AdminRole, Config};
use crate::epoch::{Epoch, EpochView};
use crate::error::NcnError;
use crate::pubkey::Pubkey;
use crate::seq_model::position;
use crate::vault_registry::{VaultRegistry, VaultRegistryView};

verus! {

/// What the host supplies with every instruction.
#[derive(Clone, Copy, Debug, PartialEq, Eq, Structural)]
pub struct Context {
    /// The identity whose signature the host has verified.
    pub signer: Pubkey,
    /// The epoch of the host's clock.
    pub current_epoch: u64,
    /// The slot of the host's clock.
    pub current_slot: u64,
}

/// The instructions of the program. Identities and amounts that the host
/// reads from the records an instruction is sent with stand in the
/// instruction itself.
#[allow(inconsistent_fields)]
#[derive(Clone, Copy, Debug, PartialEq, Eq, Structural)]
pub enum Instruction {
    /// Creates the configuration; the signer becomes the administrator.
    InitializeConfig {
        tie_breaker_admin: Pubkey,
        epochs_before_stall: u64,
        epochs_after_consensus_before_close: u64,
        valid_slots_after_consensus: u64,
    },
    /// Creates the empty registry.
    InitializeVaultRegistry,
    /// Lets the registry hold more mints and vaults.
    ReallocVaultRegistry,
    /// Registers a vault with stake in a registered mint.
    RegisterVault { vault: Pubkey, st_mint: Pubkey },
    /// Starts an epoch.
    InitializeEpochState { epoch: u64 },
    /// Creates the epoch's weight table from the registry.
    InitializeWeightTable { epoch: u64 },
    /// Lets the epoch's weight table hold more mints.
    ReallocWeightTable { epoch: u64 },
    /// Freezes the epoch's weights.
    SetEpochWeights { epoch: u64 },
    /// Creates the epoch's aggregate snapshot for `operator_count` operators.
    InitializeEpochSnapshot { epoch: u64, operator_count: u64 },
    /// Creates the snapshot of one operator.
    InitializeOperatorSnapshot { epoch: u64, operator: Pubkey },
    /// Folds the delegation of one vault to one operator into the snapshots.
    SnapshotVaultOperatorDelegation {
        epoch: u64,
        operator: Pubkey,
        vault: Pubkey,
        delegated_amount: u64,
    },
    /// Creates the epoch's ballot box and opens the vote.
    InitializeBallotBox { epoch: u64 },
    /// Lets the epoch's ballot box hold more votes.
    ReallocBallotBox { epoch: u64 },
    /// Casts the vote of one operator.
    CastVote { operator: Pubkey, weather_status: u8, epoch: u64 },
    /// Gives the records of an epoch up.
    CloseEpochAccount { epoch: u64 },
    /// Changes the parameters for which a value is given.
    AdminSetParameters {
        starting_valid_epoch: Option<u64>,
        epochs_before_stall: Option<u64>,
        epochs_after_consensus_before_close: Option<u64>,
        valid_slots_after_consensus: Option<u64>,
    },
    /// Hands one of the two authorities to another identity.
    AdminSetNewAdmin { role: AdminRole, new_admin: Pubkey },
    /// Breaks the tie of a stalled vote.
    AdminSetTieBreaker { weather_status: u8, epoch: u64 },
    /// Sets the weight of a mint in the table of one epoch.
    AdminSetWeight { st_mint: Pubkey, weight: u128, epoch: u64 },
    /// Registers a stake mint.
    AdminRegisterStMint { st_mint: Pubkey, weight: Option<u128> },
    /// Sets the current weight of a registered mint.
    AdminSetStMint { st_mint: Pubkey, weight: Option<u128> },
}

/// The state of the program.
#[derive(Clone, Debug)]
pub struct Program {
    /// The identity under which the program takes instructions.
    pub program_id: Pubkey,
    pub config: Option<Config>,
    pub vault_registry: Option<VaultRegistry>,
    /// The epochs that have been started, in the order of their numbers.
    pub epochs: Vec<Epoch>,
}

/// The state of the program as a mathematical value.
pub ghost struct ProgramView {
    pub program_id: Pubkey,
    pub config: Option<Config>,
    pub vault_registry: Option<VaultRegistryView>,
    pub epochs: Seq<EpochView>,
}

/// The view of a registry that may be absent.
pub open spec fn registry_view(registry: Option<VaultRegistry>) -> Option<VaultRegistryView> {
    match registry {
        Some(r) => Some(r@),
        None => None,
    }
}

/// The views of the epochs, in order.
pub open spec fn epochs_view(epochs: Seq<Epoch>) -> Seq<EpochView> {
    Seq::new(epochs.len(), |i: int| epochs[i]@)
}

impl ProgramView {
    /// The numbers of the epochs that have been started, in order.
    pub open spec fn epoch_keys(self) -> Seq<u64> {
        Seq::new(self.epochs.len(), |i: int| self.epochs[i].state.epoch)
    }

    /// The records of `epoch`, if it has been started.
    pub open spec fn epoch_of(self, epoch: u64) -> Option<EpochView> {
        match position(self.epoch_keys(), epoch) {
            Some(i) => Some(self.epochs[i]),
            None => None,
        }
    }

    /// The registry and every epoch are well formed, and the epochs stand
    /// in the strict order of their numbers.
    pub open spec fn wf(self) -> bool {
        &&& self.vault_registry is Some ==> self.vault_registry->0.wf()
        &&& forall|i: int| 0 <= i < self.epochs.len() ==> (#[trigger] self.epochs[i]).wf()
        &&& forall|i: int, j: int|
            0 <= i < j < self.epochs.len() ==> (#[trigger] self.epochs[i]).state.epoch < (
            #[trigger] self.epochs[j]).state.epoch
    }

    /// The program that takes instructions under `program_id`, before
    /// anything is created.
    pub open spec fn new(program_id: Pubkey) -> ProgramView {
        ProgramView { program_id, config: None, vault_registry: None, epochs: Seq::empty() }
    }

    /// The state in which the epoch at place `i` has become what `outcome`
    /// holds, or the failure that `outcome` holds.
    pub open spec fn lift(self, i: int, outcome: Result<EpochView, NcnError>) -> Result<
        ProgramView,
        NcnError,
    > {
        match outcome {
            Ok(epoch) => Ok(ProgramView { epochs: self.epochs.update(i, epoch), ..self }),
            Err(e) => Err(e),
        }
    }

    /// The configuration, if there is one and `signer` is its administrator.
    pub open spec fn admin_config(self, signer: Pubkey) -> Result<Config, NcnError> {
        match self.config {
            None => Err(NcnError::NotInitialized),
            Some(config) => if signer != config.admin {
                Err(NcnError::Unauthorized)
            } else {
                Ok(config)
            },
        }
    }

    /// The state after the configuration was created by `signer`.
    pub open spec fn initialize_config(
        self,
        ctx: Context,
        tie_breaker_admin: Pubkey,
        epochs_before_stall: u64,
        epochs_after_consensus_before_close: u64,
        valid_slots_after_consensus: u64,
    ) -> Result<ProgramView, NcnError> {
        if self.config is Some {
            Err(NcnError::AlreadyInitialized)
        } else {
            Ok(
                ProgramView {
                    config: Some(
                        Config {
                            admin: ctx.signer,
                            tie_breaker_admin,
                            starting_valid_epoch: ctx.current_epoch,
                            epochs_before_stall,
                            epochs_after_consensus_before_close,
                            valid_slots_after_consensus,
                        },
                    ),
                    ..self
                },
            )
        }
    }

    /// The state after the registry was created.
    pub open spec fn initialize_vault_registry(self) -> Result<ProgramView, NcnError> {
        if self.config is None {
            Err(NcnError::NotInitialized)
        } else if self.vault_registry is Some {
            Err(NcnError::AlreadyInitialized)
        } else {
            Ok(
                ProgramView {
                    vault_registry: Some(
                        VaultRegistryView {
                            capacity: crate::capacity::INITIAL_CAPACITY,
                            st_mints: Seq::empty(),
                            vaults: Seq::empty(),
                        },
                    ),
                    ..self
                },
            )
        }
    }

    /// The state after the registry was expanded.
    pub open spec fn realloc_vault_registry(self) -> Result<ProgramView, NcnError> {
        match self.vault_registry {
            None => Err(NcnError::NotInitialized),
            Some(registry) => Ok(ProgramView { vault_registry: Some(registry.realloc()), ..self }),
        }
    }

    /// The state in which the registry has become what `outcome` holds, or
    /// the failure that `outcome` holds.
    pub open spec fn with_registry(self, outcome: Result<VaultRegistryView, NcnError>) -> Result<
        ProgramView,
        NcnError,
    > {
        match outcome {
            Ok(registry) => Ok(ProgramView { vault_registry: Some(registry), ..self }),
            Err(e) => Err(e),
        }
    }

    /// The state after the administrator registered a vault.
    pub open spec fn register_vault(self, ctx: Context, vault: Pubkey, st_mint: Pubkey) -> Result<
        ProgramView,
        NcnError,
    > {
        if self.admin_config(ctx.signer) is Err {
            Err(self.admin_config(ctx.signer)->Err_0)
        } else {
            match self.vault_registry {
                None => Err(NcnError::NotInitialized),
                Some(registry) => self.with_registry(registry.register_vault(vault, st_mint)),
            }
        }
    }

    /// The state after the administrator registered a stake mint.
    pub open spec fn admin_register_st_mint(
        self,
        ctx: Context,
        st_mint: Pubkey,
        weight: Option<u128>,
    ) -> Result<ProgramView, NcnError> {
        if self.admin_config(ctx.signer) is Err {
            Err(self.admin_config(ctx.signer)->Err_0)
        } else {
            match self.vault_registry {
                None => Err(NcnError::NotInitialized),
                Some(registry) => self.with_registry(registry.register_st_mint(st_mint, weight)),
            }
        }
    }

    /// The state after the administrator set the current weight of a mint.
    pub open spec fn admin_set_st_mint(self, ctx: Context, st_mint: Pubkey, weight: Option<u128>) -> Result<
        ProgramView,
        NcnError,
    > {
        if self.admin_config(ctx.signer) is Err {
            Err(self.admin_config(ctx.signer)->Err_0)
        } else {
            match self.vault_registry {
                None => Err(NcnError::NotInitialized),
                Some(registry) => self.with_registry(registry.set_st_mint(st_mint, weight)),
            }
        }
    }

    /// The state after the administrator changed parameters.
    pub open spec fn admin_set_parameters(
        self,
        ctx: Context,
        starting_valid_epoch: Option<u64>,
        epochs_before_stall: Option<u64>,
        epochs_after_consensus_before_close: Option<u64>,
        valid_slots_after_consensus: Option<u64>,
    ) -> Result<ProgramView, NcnError> {
        match self.config {
            None => Err(NcnError::NotInitialized),
            Some(config) => match config.spec_set_parameters(
                ctx.signer,
                starting_valid_epoch,
                epochs_before_stall,
                epochs_after_consensus_before_close,
                valid_slots_after_consensus,
            ) {
                Err(e) => Err(e),
                Ok(changed) => Ok(ProgramView { config: Some(changed), ..self }),
            },
        }
    }

    /// The state after the administrator handed an authority on.
    pub open spec fn admin_set_new_admin(self, ctx: Context, role: AdminRole, new_admin: Pubkey) -> Result<
        ProgramView,
        NcnError,
    > {
        match self.config {
            None => Err(NcnError::NotInitialized),
            Some(config) => match config.spec_set_new_admin(ctx.signer, role, new_admin) {
                Err(e) => Err(e),
                Ok(changed) => Ok(ProgramView { config: Some(changed), ..self }),
            },
        }
    }

    /// The state after `epoch` was started.
    pub open spec fn initialize_epoch_state(self, ctx: Context, epoch: u64) -> Result<
        ProgramView,
        NcnError,
    > {
        match self.config {
            None => Err(NcnError::NotInitialized),
            Some(config) => if epoch < config.starting_valid_epoch {
                Err(NcnError::InvalidEpoch)
            } else if position(self.epoch_keys(), epoch) is Some {
                Err(NcnError::AlreadyInitialized)
            } else if self.epochs.len() > 0 && epoch < self.epochs.last().state.epoch {
                Err(NcnError::InvalidEpoch)
            } else {
                Ok(
                    ProgramView {
                        epochs: self.epochs.push(EpochView::new(epoch, ctx.current_slot)),
                        ..self
                    },
                )
            },
        }
    }

    /// The state after the weight table of `epoch` was created.
    pub open spec fn initialize_weight_table(self, epoch: u64) -> Result<ProgramView, NcnError> {
        match self.vault_registry {
            None => Err(NcnError::NotInitialized),
            Some(registry) => match position(self.epoch_keys(), epoch) {
                None => Err(NcnError::NotInitialized),
                Some(i) => self.lift(i, self.epochs[i].initialize_weight_table(registry)),
            },
        }
    }

    /// The state after the weight table of `epoch` was expanded.
    pub open spec fn realloc_weight_table(self, epoch: u64) -> Result<ProgramView, NcnError> {
        match position(self.epoch_keys(), epoch) {
            None => Err(NcnError::NotInitialized),
            Some(i) => self.lift(i, self.epochs[i].realloc_weight_table()),
        }
    }

    /// The state after the weights of `epoch` were frozen.
    pub open spec fn set_epoch_weights(self, epoch: u64) -> Result<ProgramView, NcnError> {
        match position(self.epoch_keys(), epoch) {
            None => Err(NcnError::NotInitialized),
            Some(i) => self.lift(i, self.epochs[i].set_epoch_weights()),
        }
    }

    /// The state after the administrator set a weight in the table of
    /// `epoch`.
    pub open spec fn admin_set_weight(self, ctx: Context, st_mint: Pubkey, weight: u128, epoch: u64) -> Result<
        ProgramView,
        NcnError,
    > {
        if self.admin_config(ctx.signer) is Err {
            Err(self.admin_config(ctx.signer)->Err_0)
        } else {
            match position(self.epoch_keys(), epoch) {
                None => Err(NcnError::NotInitialized),
                Some(i) => self.lift(i, self.epochs[i].set_weight(st_mint, weight)),
            }
        }
    }

    /// The state after the aggregate snapshot of `epoch` was created, for
    /// the vaults that the registry holds at that moment.
    pub open spec fn initialize_epoch_snapshot(self, epoch: u64, operator_count: u64) -> Result<
        ProgramView,
        NcnError,
    > {
        match self.vault_registry {
            None => Err(NcnError::NotInitialized),
            Some(registry) => match position(self.epoch_keys(), epoch) {
                None => Err(NcnError::NotInitialized),
                Some(i) => self.lift(
                    i,
                    self.epochs[i].initialize_epoch_snapshot(
                        operator_count,
                        registry.vaults.len() as u64,
                    ),
                ),
            },
        }
    }

    /// The state after the snapshot of `operator` in `epoch` was created.
    pub open spec fn initialize_operator_snapshot(self, epoch: u64, operator: Pubkey) -> Result<
        ProgramView,
        NcnError,
    > {
        match position(self.epoch_keys(), epoch) {
            None => Err(NcnError::NotInitialized),
            Some(i) => self.lift(i, self.epochs[i].initialize_operator_snapshot(operator)),
        }
    }

    /// The state after a delegation was folded into the snapshots of
    /// `epoch`. The vault must have been registered when the epoch's
    /// aggregate snapshot was created; its mint is the one it is registered
    /// with.
    pub open spec fn snapshot_vault_operator_delegation(
        self,
        epoch: u64,
        operator: Pubkey,
        vault: Pubkey,
        delegated_amount: u64,
    ) -> Result<ProgramView, NcnError> {
        match self.vault_registry {
            None => Err(NcnError::NotInitialized),
            Some(registry) => match position(registry.vault_keys(), vault) {
                None => Err(NcnError::UnknownVault),
                Some(v) => match position(self.epoch_keys(), epoch) {
                    None => Err(NcnError::NotInitialized),
                    Some(i) => if self.epochs[i].epoch_snapshot is Some
                        && v >= self.epochs[i].epoch_snapshot->0.vault_count {
                        Err(NcnError::UnknownVault)
                    } else {
                        self.lift(
                            i,
                            self.epochs[i].fold_delegation(
                                operator,
                                vault,
                                delegated_amount,
                                registry.vaults[v].st_mint,
                            ),
                        )
                    },
                },
            },
        }
    }

    /// The state after the ballot box of `epoch` was created.
    pub open spec fn initialize_ballot_box(self, ctx: Context, epoch: u64) -> Result<
        ProgramView,
        NcnError,
    > {
        match position(self.epoch_keys(), epoch) {
            None => Err(NcnError::NotInitialized),
            Some(i) => self.lift(i, self.epochs[i].initialize_ballot_box(ctx.current_epoch)),
        }
    }

    /// The state after the ballot box of `epoch` was expanded.
    pub open spec fn realloc_ballot_box(self, epoch: u64) -> Result<ProgramView, NcnError> {
        match position(self.epoch_keys(), epoch) {
            None => Err(NcnError::NotInitialized),
            Some(i) => self.lift(i, self.epochs[i].realloc_ballot_box()),
        }
    }

    /// The state after `operator` voted in `epoch`.
    pub open spec fn cast_vote(self, ctx: Context, operator: Pubkey, weather_status: u8, epoch: u64) -> Result<
        ProgramView,
        NcnError,
    > {
        match self.config {
            None => Err(NcnError::NotInitialized),
            Some(config) => match position(self.epoch_keys(), epoch) {
                None => Err(NcnError::NotInitialized),
                Some(i) => self.lift(
                    i,
                    self.epochs[i].cast_vote(
                        config,
                        operator,
                        weather_status,
                        ctx.current_epoch,
                        ctx.current_slot,
                    ),
                ),
            },
        }
    }

    /// The state after the signer broke the tie of `epoch`.
    pub open spec fn admin_set_tie_breaker(self, ctx: Context, weather_status: u8, epoch: u64) -> Result<
        ProgramView,
        NcnError,
    > {
        match self.config {
            None => Err(NcnError::NotInitialized),
            Some(config) => match position(self.epoch_keys(), epoch) {
                None => Err(NcnError::NotInitialized),
                Some(i) => self.lift(
                    i,
                    self.epochs[i].tie_break(
                        config,
                        ctx.signer,
                        weather_status,
                        ctx.current_epoch,
                        ctx.current_slot,
                    ),
                ),
            },
        }
    }

    /// The state after the records of `epoch` were given up.
    pub open spec fn close_epoch_account(self, ctx: Context, epoch: u64) -> Result<
        ProgramView,
        NcnError,
    > {
        match self.config {
            None => Err(NcnError::NotInitialized),
            Some(config) => match position(self.epoch_keys(), epoch) {
                None => Err(NcnError::NotInitialized),
                Some(i) => self.lift(i, self.epochs[i].close(config, ctx.current_epoch)),
            },
        }
    }

    /// The state after `instruction`, addressed to `program_id`, was
    /// processed; or the failure with which it is refused.
    pub open spec fn step(self, program_id: Pubkey, ctx: Context, instruction: Instruction) -> Result<
        ProgramView,
        NcnError,
    > {
        if program_id != self.program_id {
            Err(NcnError::IncorrectProgramId)
        } else {
            match instruction {
                Instruction::InitializeConfig {
                    tie_breaker_admin,
                    epochs_before_stall,
                    epochs_after_consensus_before_close,
                    valid_slots_after_consensus,
                } => self.initialize_config(
                    ctx,
                    tie_breaker_admin,
                    epochs_before_stall,
                    epochs_after_consensus_before_close,
                    valid_slots_after_consensus,
                ),
                Instruction::InitializeVaultRegistry => self.initialize_vault_registry(),
                Instruction::ReallocVaultRegistry => self.realloc_vault_registry(),
                Instruction::RegisterVault { vault, st_mint } => self.register_vault(
                    ctx,
                    vault,
                    st_mint,
                ),
                Instruction::InitializeEpochState { epoch } => self.initialize_epoch_state(
                    ctx,
                    epoch,
                ),
                Instruction::InitializeWeightTable { epoch } => self.initialize_weight_table(epoch),
                Instruction::ReallocWeightTable { epoch } => self.realloc_weight_table(epoch),
                Instruction::SetEpochWeights { epoch } => self.set_epoch_weights(epoch),
                Instruction::InitializeEpochSnapshot {
                    epoch,
                    operator_count,
                } => self.initialize_epoch_snapshot(epoch, operator_count),
                Instruction::InitializeOperatorSnapshot {
                    epoch,
                    operator,
                } => self.initialize_operator_snapshot(epoch, operator),
                Instruction::SnapshotVaultOperatorDelegation {
                    epoch,
                    operator,
                    vault,
                    delegated_amount,
                } => self.snapshot_vault_operator_delegation(
                    epoch,
                    operator,
                    vault,
                    delegated_amount,
                ),
                Instruction::InitializeBallotBox { epoch } => self.initialize_ballot_box(ctx, epoch),
                Instruction::ReallocBallotBox { epoch } => self.realloc_ballot_box(epoch),
                Instruction::CastVote { operator, weather_status, epoch } => self.cast_vote(
                    ctx,
                    operator,
                    weather_status,
                    epoch,
                ),
                Instruction::CloseEpochAccount { epoch } => self.close_epoch_account(ctx, epoch),
                Instruction::AdminSetParameters {
                    starting_valid_epoch,
                    epochs_before_stall,
                    epochs_after_consensus_before_close,
                    valid_slots_after_consensus,
                } => self.admin_set_parameters(
                    ctx,
                    starting_valid_epoch,
                    epochs_before_stall,
                    epochs_after_consensus_before_close,
                    valid_slots_after_consensus,
                ),
                Instruction::AdminSetNewAdmin { role, new_admin } => self.admin_set_new_admin(
                    ctx,
                    role,
                    new_admin,
                ),
                Instruction::AdminSetTieBreaker {
                    weather_status,
                    epoch,
                } => self.admin_set_tie_breaker(ctx, weather_status, epoch),
                Instruction::AdminSetWeight { st_mint, weight, epoch } => self.admin_set_weight(
                    ctx,
                    st_mint,
                    weight,
                    epoch,
                ),
                Instruction::AdminRegisterStMint { st_mint, weight } => self.admin_register_st_mint(
                    ctx,
                    st_mint,
                    weight,
                ),
                Instruction::AdminSetStMint { st_mint, weight } => self.admin_set_st_mint(
                    ctx,
                    st_mint,
                    weight,
                ),
            }
        }
    }
}

impl View for Program {
    type V = ProgramView;

    open spec fn view(&self) -> ProgramView {
        ProgramView {
            program_id: self.program_id,
            config: self.config,
            vault_registry: registry_view(self.vault_registry),
            epochs: epochs_view(self.epochs@),
        }
    }
}

} // verus!
