//! What the host reads back from a guest run.
use vstd::prelude::*;

verus! {

/// The guest's output: the hash of the replayed transaction.
#[derive(Debug, Clone, Copy)]
pub struct GuestOutput {
    /// Hash of the transaction.
    pub transaction_hash: [u8; 32],
}

/// Outcome of replaying one VM.
#[derive(Debug, Clone, Copy)]
pub struct VmExecutionResult {
    /// Position of the VM among those replayed.
    pub vm_index: u32,
    /// Exit code of the script.
    pub exit_code: i8,
    /// Cycles consumed.
    pub cycles: u64,
}

/// Summary of one trace handed to the guest.
#[derive(Debug, Clone, Copy)]
pub struct TraceDetail {
    /// Position of the trace.
    pub index: u32,
    /// Script version byte.
    pub script_version: u8,
    /// Script group type byte.
    pub script_group_type: u8,
    /// Hash of the script.
    pub script_hash: [u8; 32],
    /// Length of the syscall trace.
    pub trace_data_len: u32,
    /// Length of the program.
    pub program_elf_len: u32,
}

} // verus!
