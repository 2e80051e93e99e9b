use jolt_testing::chain::{blake2b_256, CellDep, DepType, OutPoint, Script, ScriptGroup, ScriptGroupType, ScriptVersion};
use jolt_testing::collect_vm_creation::CollectorKey;
use jolt_testing::host::{
    accumulate_traces, group_traces, normalize_tx_hash, replay_decision, root_trace, ReplayDecision, should_trace, GroupMetadata, VmSyscallTrace,
};
use jolt_testing::types::error::HostError;
use jolt_testing::verifier_context::{ElfIndex, MockCellDep};

fn meta(code_hash: [u8; 32], hash_type: u8) -> GroupMetadata {
    GroupMetadata {
        group_type: ScriptGroupType::Lock,
        script_hash: [4; 32],
        group: ScriptGroup {
            script: Script { code_hash, hash_type, args: vec![] },
            group_type: ScriptGroupType::Lock,
        },
        version: ScriptVersion::V1,
    }
}

#[test]
fn tx_hashes_get_their_prefix() {
    assert_eq!(normalize_tx_hash("0xabc"), "0xabc");
    assert_eq!(normalize_tx_hash("abc"), "0xabc");
    assert_eq!(normalize_tx_hash(""), "0x");
    assert_eq!(normalize_tx_hash("0"), "0x0");
    assert_eq!(normalize_tx_hash("x0"), "0xx0");
    assert_eq!(normalize_tx_hash(&normalize_tx_hash("ff")), "0xff");
}

#[test]
fn type_id_groups_are_not_traced() {
    assert!(!should_trace(&meta(ckb_chain_spec::consensus::TYPE_ID_CODE_HASH.0, 1)));
    assert!(should_trace(&meta([1; 32], 1)));
}

#[test]
fn traced_group_records_its_program() {
    let deps = vec![MockCellDep {
        out_point: OutPoint { tx_hash: [1; 32], index: 0 },
        data: b"program".to_vec(),
        type_script: None,
    }];
    let index = ElfIndex::from_cell_deps(&deps);
    let m = meta(blake2b_256(b"program"), 2);
    let t = group_traces(&m, &index, Some(&[1, 2, 3])).unwrap();
    assert_eq!(t.machine_program_elf, b"program".to_vec());
    assert_eq!(t.machine_trace_data, vec![1, 2, 3]);
    assert_eq!(t.script_hash, [4; 32]);
    assert_eq!(t.code_hash, blake2b_256(b"program"));
    assert_eq!(t.script_version, ScriptVersion::V1);
    let t = group_traces(&m, &index, None).unwrap();
    assert!(t.machine_trace_data.is_empty());
    assert!(matches!(group_traces(&meta([0; 32], 0), &index, None), Err(HostError::ProgramElfNotFound)));
}

fn vm(vm_id: u64, generation_id: u64, data: Vec<u8>) -> VmSyscallTrace {
    VmSyscallTrace { key: CollectorKey { vm_id, generation_id }, data }
}

#[test]
fn only_the_root_vm_trace_is_kept() {
    assert_eq!(root_trace(&vec![vm(1, 0, vec![9]), vm(0, 0, vec![5, 6]), vm(0, 1, vec![7])]), vec![5, 6]);
    assert!(root_trace(&vec![vm(0, 1, vec![7])]).is_empty());
    assert!(root_trace(&vec![]).is_empty());
}

#[test]
fn traces_follow_the_traced_groups_in_order() {
    let deps = vec![MockCellDep {
        out_point: OutPoint { tx_hash: [1; 32], index: 0 },
        data: b"program".to_vec(),
        type_script: None,
    }];
    let index = ElfIndex::from_cell_deps(&deps);
    let mut second = meta(blake2b_256(b"program"), 2);
    second.script_hash = [8; 32];
    let groups = vec![
        meta(blake2b_256(b"program"), 2),
        meta(ckb_chain_spec::consensus::TYPE_ID_CODE_HASH.0, 1),
        second,
    ];
    let collected = vec![vec![vm(0, 0, vec![1])], vec![], vec![vm(2, 0, vec![3]), vm(0, 0, vec![2])]];
    let v = accumulate_traces(&groups, &index, &collected).unwrap();
    assert_eq!(v.len(), 2);
    assert_eq!(v[0].script_hash, [4; 32]);
    assert_eq!(v[0].machine_trace_data, vec![1]);
    assert_eq!(v[1].script_hash, [8; 32]);
    assert_eq!(v[1].machine_trace_data, vec![2]);
    let missing = vec![meta([0; 32], 0)];
    assert!(matches!(accumulate_traces(&missing, &index, &vec![vec![]]), Err(HostError::ProgramElfNotFound)));
    let only_type_id = vec![meta(ckb_chain_spec::consensus::TYPE_ID_CODE_HASH.0, 1)];
    assert!(accumulate_traces(&only_type_id, &index, &vec![vec![]]).unwrap().is_empty());
}

#[test]
fn cellbases_are_not_replayed() {
    let null = OutPoint { tx_hash: [0; 32], index: u32::MAX };
    let cellbase = jolt_testing::tx_converter::TransactionRefs {
        inputs: vec![null],
        cell_deps: vec![],
        header_deps: vec![],
        witness_count: 1,
    };
    assert_eq!(replay_decision(&cellbase), ReplayDecision::SkipCellbase);
    let ordinary = jolt_testing::tx_converter::TransactionRefs {
        inputs: vec![OutPoint { tx_hash: [1; 32], index: 0 }],
        cell_deps: vec![],
        header_deps: vec![],
        witness_count: 1,
    };
    assert_eq!(replay_decision(&ordinary), ReplayDecision::Replay);
}

#[test]
fn error_messages() {
    assert_eq!(HostError::ProgramElfNotFound.message(), "Failed to get program ELF for script");
    assert_eq!(HostError::ScriptError("bad".to_string()).message(), "Script error: bad");
    assert_eq!(HostError::RpcClientCreation("x".to_string()).message(), "RPC client creation failed: x");
    assert_eq!(HostError::VerificationError("v".to_string()).message(), "VerificationError: v");
    let io = std::io::Error::new(std::io::ErrorKind::Other, "boom");
    let expected = format!("Io({:?})", io);
    assert_eq!(HostError::Io(io).message(), expected);
}
