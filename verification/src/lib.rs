//! Stake-weighted epoch consensus.
//!
//! A registered set of operators, whose voting power comes from stake that
//! vaults delegate to them, agrees once per epoch on a single observed value.
//! The crate holds the records of that pipeline and the rules that move them:
//!
//! - `config`: the global parameters and the two authorities;
//! - `vault_registry`: the vaults and the current weight of each stake mint;
//! - `weight_table`: the weights of one epoch, copied and then frozen;
//! - `operator_snapshot`, `epoch_snapshot`: the stake of each operator and of
//!   the whole epoch, folded in delegation by delegation and then locked;
//! - `ballot_box`: one vote per operator, the running tallies, the
//!   supermajority rule and the tie-break;
//! - `epoch_state`: the stage machine that keeps the steps in order;
//! - `epoch`: the records of one epoch and the steps on them;
//! - `program`, `processor`: the whole state, the instructions and their
//!   handlers, with `process_instruction` as the one entry point.
//!
//! Every operation is total: it either applies its whole effect or returns a
//! typed failure and leaves the records as they were. What every operation
//! does is stated over mathematical views of the records; what holds of the
//! records whatever is done to them is proved in `ballot_laws`, `epoch_laws`
//! and `program_laws`.

pub mod error;
pub mod pubkey;
pub mod seq_model;
pub mod capacity;
pub mod config;
pub mod vault_registry;
pub mod weight_table;
pub mod operator_snapshot;
pub mod epoch_snapshot;
pub mod epoch_state;
pub mod ballot_box;
pub mod ballot_laws;
pub mod epoch;
pub mod epoch_laws;
pub mod program;
pub mod processor;
pub mod program_laws;

pub use crate::processor::process_instruction;
