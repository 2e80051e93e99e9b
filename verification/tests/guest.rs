use jolt_testing::guest::exec_syscall_handler::{ExecOverride, SYSCALL_EXEC};
use jolt_testing::guest::executor::{
    has_elf_magic, is_supported_version, MachineConfig, VmExecutor, MACHINE_ISA, MACHINE_MAX_CYCLES,
    MACHINE_STACK_POINTER, VERSION2,
};
use jolt_testing::guest::jolt_memory::RISCV_MAX_MEMORY;
use jolt_testing::guest::{guest_output, ScriptGroupTraces, TransactionProofContext};

#[test]
fn only_exec_is_intercepted() {
    assert_eq!(SYSCALL_EXEC, ckb_vm_fuzzing_utils::SyscallCode::Exec as u64);
    let h = ExecOverride;
    assert_eq!(h.ecall(2043), Some(0));
    assert_eq!(h.ecall(2042), None);
    assert_eq!(h.ecall(2601), None);
    assert_eq!(h.ecall(0), None);
}

#[test]
fn machine_constants_match_ckb_vm() {
    assert_eq!(VERSION2, ckb_vm::machine::VERSION2);
    assert_eq!(MACHINE_ISA, ckb_vm::ISA_IMC | ckb_vm::ISA_B | ckb_vm::ISA_MOP);
    assert_eq!(MACHINE_MAX_CYCLES, u64::MAX);
    assert_eq!(MACHINE_STACK_POINTER, 4194304);
    assert_eq!(MACHINE_STACK_POINTER, RISCV_MAX_MEMORY as u64);
    assert_eq!(MACHINE_STACK_POINTER, ckb_vm::RISCV_MAX_MEMORY as u64);
}

#[test]
fn elf_magic_and_versions() {
    assert!(has_elf_magic(&[0x7f, b'E', b'L', b'F', 2, 1]));
    assert!(!has_elf_magic(&[0x7f, b'E', b'L']));
    assert!(!has_elf_magic(b"MZ\x90\x00"));
    assert!(is_supported_version(0));
    assert!(is_supported_version(2));
    assert!(!is_supported_version(3));
}

#[test]
fn executor_checks() {
    let ok = VmExecutor::new(vec![1], vec![0x7f, b'E', b'L', b'F'], 1);
    assert!(ok.has_valid_elf());
    assert!(ok.has_supported_version());
    let expected = MachineConfig { isa: MACHINE_ISA, version: VERSION2, max_cycles: u64::MAX, stack_pointer: 4194304 };
    assert_eq!(ok.machine_config(), expected);
    let v0 = VmExecutor::new(vec![1], vec![0x7f, b'E', b'L', b'F'], 0);
    assert_eq!(v0.machine_config().version, ckb_vm::machine::VERSION2);
    assert_eq!(ok.trace_bytes(), &[1]);
    let bad = VmExecutor::new(vec![], vec![0, 1, 2, 3], 9);
    assert!(!bad.has_valid_elf());
    assert!(!bad.has_supported_version());
}

#[test]
fn first_trace_is_replayed_with_its_program() {
    let ctx = TransactionProofContext {
        raw_transaction_bytes: vec![],
        vm_traces: vec![
            ScriptGroupTraces {
                script_version: 2,
                script_group_type: 0,
                script_hash: [1; 32],
                machine_trace_data: vec![5, 6],
                machine_program_elf_index: 1,
            },
            ScriptGroupTraces {
                script_version: 0,
                script_group_type: 1,
                script_hash: [2; 32],
                machine_trace_data: vec![7],
                machine_program_elf_index: 0,
            },
        ],
        machine_program_elfs: vec![b"zero".to_vec(), b"one".to_vec()],
    };
    let e = ctx.first_replay();
    assert_eq!(e.trace_bytes(), &[5, 6]);
    assert_eq!(e.elf_bytes(), b"one");
    assert_eq!(e.machine_config().version, 2);
    assert_eq!(guest_output().transaction_hash, [0u8; 32]);
}
