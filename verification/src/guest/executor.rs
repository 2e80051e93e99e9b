//! Replaying one script: checking its program and configuring the machine.
//!
//! Every replay runs on a VERSION2 machine with the `IMC`, `B` and `MOP`
//! extensions, over W^X-guarded Jolt memory, with the stack pointer at the
//! top of memory.
use crate::guest::jolt_memory::RISCV_MAX_MEMORY;
use vstd::prelude::*;

verus! {

/// The first four bytes of every ELF file.
pub const ELF_MAGIC: [u8; 4] = [0x7F, 0x45, 0x4C, 0x46];

/// CKB-VM machine version 2, the version every replay machine runs.
pub const VERSION2: u32 = 2;

/// The initial stack pointer of the replay machine: the end of its 4 MiB memory.
pub const MACHINE_STACK_POINTER: u64 = 4194304;

/// The instruction-set flags of the replay machine: `ISA_IMC | ISA_B | ISA_MOP`.
pub const MACHINE_ISA: u8 = 3;

/// The cycle limit of the replay machine: none to speak of.
pub const MACHINE_MAX_CYCLES: u64 = 0xffff_ffff_ffff_ffff;

/// Whether `elf` starts with the ELF magic bytes.
pub open spec fn spec_has_elf_magic(elf: Seq<u8>) -> bool {
    elf.len() >= 4 && elf.subrange(0, 4) == seq![0x7Fu8, 0x45u8, 0x4Cu8, 0x46u8]
}

/// The script versions a replay accepts: 0, 1 and 2.
pub open spec fn spec_supported_version(script_version: u8) -> bool {
    script_version <= 2
}

/// Whether `elf` starts with the ELF magic bytes.
pub fn has_elf_magic(elf: &[u8]) -> (b: bool)
    ensures
        b == spec_has_elf_magic(elf@),
{
    if elf.len() < 4 {
        return false;
    }
    let r = elf[0] == 0x7F && elf[1] == 0x45 && elf[2] == 0x4C && elf[3] == 0x46;
    assert(r == (elf@.subrange(0, 4) =~= seq![0x7Fu8, 0x45u8, 0x4Cu8, 0x46u8]));
    r
}

/// Whether scripts of version `script_version` can be replayed.
pub fn is_supported_version(script_version: u8) -> (b: bool)
    ensures
        b == spec_supported_version(script_version),
{
    script_version <= 2
}

/// The stack pointer the replay machine starts with: the end of its memory,
/// so that the stack grows down from the top and never over the program.
pub proof fn lemma_stack_pointer_is_memory_end()
    ensures
        MACHINE_STACK_POINTER == RISCV_MAX_MEMORY,
{
}

/// How a replay machine is set up.
#[derive(Clone, Copy, Debug, PartialEq, Eq, Structural)]
pub struct MachineConfig {
    /// The instruction-set flags.
    pub isa: u8,
    /// The machine version.
    pub version: u32,
    /// The cycle limit.
    pub max_cycles: u64,
    /// The value of the stack pointer (register 2) when the program starts.
    pub stack_pointer: u64,
}

/// One script to replay: its recorded syscall trace, its program and its version.
pub struct VmExecutor {
    trace_data: Vec<u8>,
    script_elf: Vec<u8>,
    script_version: u8,
}

impl VmExecutor {
    /// An executor for the given trace, program and script version.
    pub fn new(trace_data: Vec<u8>, script_elf: Vec<u8>, script_version: u8) -> (e: Self)
        ensures
            e.trace_data() == trace_data@,
            e.script_elf() == script_elf@,
            e.script_version() == script_version,
    {
        VmExecutor { trace_data, script_elf, script_version }
    }

    /// The recorded syscall trace.
    pub closed spec fn trace_data(&self) -> Seq<u8> {
        self.trace_data@
    }

    /// The program.
    pub closed spec fn script_elf(&self) -> Seq<u8> {
        self.script_elf@
    }

    /// The script version byte.
    pub closed spec fn script_version(&self) -> u8 {
        self.script_version
    }

    /// The recorded syscall trace.
    pub fn trace_bytes(&self) -> (t: &[u8])
        ensures
            t@ == self.trace_data(),
    {
        self.trace_data.as_slice()
    }

    /// The program.
    pub fn elf_bytes(&self) -> (t: &[u8])
        ensures
            t@ == self.script_elf(),
    {
        self.script_elf.as_slice()
    }

    /// Whether the program is an ELF file; a replay of anything else is refused.
    pub fn has_valid_elf(&self) -> (b: bool)
        ensures
            b == spec_has_elf_magic(self.script_elf()),
    {
        has_elf_magic(self.script_elf.as_slice())
    }

    /// Whether the script's version is one a replay accepts.
    pub fn has_supported_version(&self) -> (b: bool)
        ensures
            b == spec_supported_version(self.script_version()),
    {
        is_supported_version(self.script_version)
    }

    /// The machine a replay of this script runs on: instruction set
    /// `IMC | B | MOP`, VERSION2 whichever accepted script version the script
    /// has, no cycle limit to speak of, and the stack pointer at the end of
    /// memory.
    pub fn machine_config(&self) -> (c: MachineConfig)
        requires
            spec_supported_version(self.script_version()),
        ensures
            c == (MachineConfig {
                isa: MACHINE_ISA,
                version: VERSION2,
                max_cycles: MACHINE_MAX_CYCLES,
                stack_pointer: MACHINE_STACK_POINTER,
            }),
    {
        MachineConfig {
            isa: MACHINE_ISA,
            version: VERSION2,
            max_cycles: MACHINE_MAX_CYCLES,
            stack_pointer: MACHINE_STACK_POINTER,
        }
    }
}

} // verus!
