use jolt_testing::chain::{ScriptGroupType, ScriptVersion};
use jolt_testing::types::types::{ScriptGroupTraces, TransactionProofContext};

fn trace(version: ScriptVersion, group_type: ScriptGroupType, id: u8, code: u8, elf: &[u8]) -> ScriptGroupTraces {
    ScriptGroupTraces {
        script_version: version,
        script_group_type: group_type,
        script_hash: [id; 32],
        code_hash: [code; 32],
        machine_trace_data: vec![id, id],
        machine_program_elf: elf.to_vec(),
    }
}

fn sample() -> TransactionProofContext {
    TransactionProofContext {
        transaction: vec![1, 2, 3],
        vm_traces: vec![
            trace(ScriptVersion::V2, ScriptGroupType::Lock, 1, 0xa, b"prog-a"),
            trace(ScriptVersion::V1, ScriptGroupType::Type, 2, 0xb, b"prog-b"),
            trace(ScriptVersion::V0, ScriptGroupType::Lock, 3, 0xa, b"prog-a-again"),
        ],
    }
}

#[test]
fn programs_are_shared_by_code_hash() {
    let ncp = sample().to_ncp_context();
    assert_eq!(ncp.raw_transaction_bytes, vec![1, 2, 3]);
    assert_eq!(ncp.machine_program_elfs, vec![b"prog-a".to_vec(), b"prog-b".to_vec()]);
    let idx: Vec<u16> = ncp.vm_traces.iter().map(|t| t.machine_program_elf_index).collect();
    assert_eq!(idx, vec![0, 1, 0]);
    let versions: Vec<u8> = ncp.vm_traces.iter().map(|t| t.script_version).collect();
    assert_eq!(versions, vec![2, 1, 0]);
    let types: Vec<u8> = ncp.vm_traces.iter().map(|t| t.script_group_type).collect();
    assert_eq!(types, vec![0, 1, 0]);
    assert_eq!(ncp.vm_traces[1].script_hash, [2; 32]);
    assert_eq!(ncp.vm_traces[2].machine_trace_data, vec![3, 3]);
}

#[test]
fn guest_form_matches_ncp_form() {
    let ctx = sample();
    let ncp = ctx.to_ncp_context();
    let guest = ctx.to_guest_context();
    assert_eq!(guest.raw_transaction_bytes, ncp.raw_transaction_bytes);
    assert_eq!(guest.machine_program_elfs, ncp.machine_program_elfs);
    for (g, n) in guest.vm_traces.iter().zip(ncp.vm_traces.iter()) {
        assert_eq!(g.machine_program_elf_index, n.machine_program_elf_index);
        assert_eq!(g.script_hash, n.script_hash);
        assert_eq!(g.machine_trace_data, n.machine_trace_data);
    }
}

#[test]
fn empty_context_has_no_programs() {
    let ctx = TransactionProofContext { transaction: vec![], vm_traces: vec![] };
    let ncp = ctx.to_ncp_context();
    assert!(ncp.vm_traces.is_empty());
    assert!(ncp.machine_program_elfs.is_empty());
}
