//! Verified core of a CKB transaction replayer for the Jolt zkVM.
pub mod chain;
pub mod cli;
pub mod collect_vm_creation;
pub mod guest;
pub mod host;
pub mod rpc_client;
pub mod text;
pub mod tx_converter;
pub mod type_id;
pub mod types;
pub mod verifier_context;
pub mod verifier_env;
pub mod verifier_setup;
