//! The self-contained form of a proof context that is handed to the guest.
//!
//! These types hold only primitive values, so that they can be encoded
//! without any CKB type.
use vstd::prelude::*;

verus! {

/// Everything the guest needs to replay a transaction's scripts.
pub struct TransactionProofContext {
    /// The serialized raw transaction.
    pub raw_transaction_bytes: Vec<u8>,
    /// One entry per traced script group.
    pub vm_traces: Vec<ScriptGroupTraces>,
    /// The distinct programs the traces run, indexed by `machine_program_elf_index`.
    pub machine_program_elfs: Vec<Vec<u8>>,
}

/// The traces of one script group.
pub struct ScriptGroupTraces {
    /// Script version: 0, 1 or 2.
    pub script_version: u8,
    /// Script group type: 0 for lock, 1 for type.
    pub script_group_type: u8,
    /// Hash of the group's script.
    pub script_hash: [u8; 32],
    /// The recorded syscall trace of the group's root VM.
    pub machine_trace_data: Vec<u8>,
    /// Position of the group's program in `machine_program_elfs`.
    pub machine_program_elf_index: u16,
}

/// The output the guest commits to.
#[derive(Debug, Clone, Copy)]
pub struct GuestOutput {
    /// Hash of the transaction.
    pub transaction_hash: [u8; 32],
}

} // verus!
