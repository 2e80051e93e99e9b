//! The guest program: replays a CKB-VM script from its recorded syscall trace.
pub mod exec_syscall_handler;
pub mod executor;
pub mod jolt_memory;

use crate::guest::executor::VmExecutor;
use crate::text::copy_bytes;

use vstd::prelude::*;

verus! {

/// Transaction proof context sent from the host.
pub struct TransactionProofContext {
    /// The serialized raw transaction.
    pub raw_transaction_bytes: Vec<u8>,
    /// One entry per traced script group.
    pub vm_traces: Vec<ScriptGroupTraces>,
    /// The distinct programs the traces run, indexed by `machine_program_elf_index`.
    pub machine_program_elfs: Vec<Vec<u8>>,
}

/// Traces for a single script group.
pub struct ScriptGroupTraces {
    /// Script version: 0, 1 or 2.
    pub script_version: u8,
    /// Script group type: 0 for lock, 1 for type.
    pub script_group_type: u8,
    /// Hash of the group's script.
    pub script_hash: [u8; 32],
    /// The recorded syscall trace of the group's root VM.
    pub machine_trace_data: Vec<u8>,
    /// Position of the group's program in `machine_program_elfs`.
    pub machine_program_elf_index: u16,
}

/// What the guest commits to.
#[derive(Debug, Clone, Copy)]
pub struct GuestOutput {
    /// Hash of the transaction.
    pub transaction_hash: [u8; 32],
}

/// The replay is possible: there is a trace, and its program index names a program.
pub open spec fn replay_ready(ctx: TransactionProofContext) -> bool {
    &&& ctx.vm_traces@.len() > 0
    &&& (ctx.vm_traces@[0].machine_program_elf_index as int) < ctx.machine_program_elfs@.len()
}

/// Whether the first trace can be replayed (see [`replay_ready`]).
pub fn can_replay(ctx: &TransactionProofContext) -> (b: bool)
    ensures
        b == replay_ready(*ctx),
{
    ctx.vm_traces.len() > 0 && (ctx.vm_traces[0].machine_program_elf_index as usize) < ctx.machine_program_elfs.len()
}

impl TransactionProofContext {
    /// The executor that replays the first trace: its syscall trace, the
    /// program its index names, and its script version.
    pub fn first_replay(&self) -> (e: VmExecutor)
        requires
            replay_ready(*self),
        ensures
            e.trace_data() == self.vm_traces@[0].machine_trace_data@,
            e.script_elf() == self.machine_program_elfs@[self.vm_traces@[0].machine_program_elf_index as int]@,
            e.script_version() == self.vm_traces@[0].script_version,
    {
        let trace = &self.vm_traces[0];
        let elf = &self.machine_program_elfs[trace.machine_program_elf_index as usize];
        VmExecutor::new(copy_bytes(trace.machine_trace_data.as_slice()), copy_bytes(elf.as_slice()), trace.script_version)
    }
}

/// The guest's output.  The transaction hash is not computed inside the guest
/// yet, so it is all zeros.
pub fn guest_output() -> (o: GuestOutput)
    ensures
        o.transaction_hash@ == Seq::new(32, |i: int| 0u8),
{
    let o = GuestOutput { transaction_hash: [0u8; 32] };
    assert(o.transaction_hash@ =~= Seq::new(32, |i: int| 0u8));
    o
}

} // verus!
