//! Orchestrator logic for a multi-threaded, coverage-guided, grammar-based
//! fuzzing campaign: the per-input mutation-stage state machine, the shared
//! queue discipline, the telemetry-drain arithmetic, the corpus-store
//! bookkeeping, and the status-reporter computations. Process management,
//! file handling and rendering live outside this crate; the policy that
//! sequences and recovers them is verified here.

pub mod config;
pub mod corpus;
pub mod queue;
pub mod rules;
pub mod shared_state;
pub mod state;
pub mod status;
