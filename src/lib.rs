//! A small deterministic state-transition runtime: pallets for block and nonce
//! bookkeeping, balances and content claims, composed into one `Runtime` that
//! dispatches calls and executes blocks.
pub mod support;
pub mod types;
pub mod system;
pub mod balances;
pub mod proof_of_existence;
pub mod runtime;
