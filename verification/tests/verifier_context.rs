use ckb_types::prelude::{Builder, Entity, Pack};
use jolt_testing::chain::{blake2b_256, calc_script_hash, CellDep, DepType, OutPoint, Script, ScriptVersion};
use jolt_testing::types::error::HostError;
use jolt_testing::verifier_context::{
    code_out_point, resolved_program, script_code_out_point, verifier_epoch, ElfIndex, MockCellDep, ResolvedCellDep,
};

fn dep(b: u8, data: &[u8], type_script: Option<Script>) -> MockCellDep {
    MockCellDep {
        out_point: OutPoint { tx_hash: [b; 32], index: b as u32 },
        data: data.to_vec(),
        type_script,
    }
}

fn script(code_hash: [u8; 32], hash_type: u8) -> Script {
    Script { code_hash, hash_type, args: vec![] }
}

#[test]
fn hashes_match_ckb() {
    assert_eq!(blake2b_256(b"hello"), ckb_hash::blake2b_256(b"hello"));
    assert_ne!(blake2b_256(b"hello"), [0u8; 32]);
    let s = Script { code_hash: [3; 32], hash_type: 1, args: vec![1, 2, 3] };
    let packed = ckb_types::packed::Script::new_builder()
        .code_hash([3u8; 32].pack())
        .hash_type(1u8)
        .args(vec![1u8, 2, 3].pack())
        .build();
    let expected: [u8; 32] = packed.calc_script_hash().as_slice().try_into().unwrap();
    assert_eq!(calc_script_hash(&s), expected);
}

#[test]
fn programs_are_found_by_data_hash_and_by_type_hash() {
    let ts = Script { code_hash: [9; 32], hash_type: 1, args: vec![7] };
    let type_hash = calc_script_hash(&ts);
    let deps = vec![dep(1, b"elf-one", None), dep(2, b"elf-two", Some(ts))];
    let index = ElfIndex::from_cell_deps(&deps);
    let by_data = script(blake2b_256(b"elf-one"), 0);
    assert_eq!(index.get_program_elf(&by_data).unwrap(), b"elf-one".to_vec());
    let by_type = script(type_hash, 1);
    assert_eq!(index.get_program_elf(&by_type).unwrap(), b"elf-two".to_vec());
    let by_data_two = script(blake2b_256(b"elf-two"), 2);
    assert_eq!(index.get_program_elf(&by_data_two).unwrap(), b"elf-two".to_vec());
    assert!(matches!(index.get_program_elf(&script([0; 32], 0)), Err(HostError::ProgramElfNotFound)));
}

#[test]
fn later_deps_replace_earlier_ones() {
    let ts = Script { code_hash: [9; 32], hash_type: 1, args: vec![] };
    let type_hash = calc_script_hash(&ts);
    let ts2 = Script { code_hash: [9; 32], hash_type: 1, args: vec![] };
    let deps = vec![dep(1, b"old", Some(ts)), dep(2, b"new", Some(ts2))];
    let index = ElfIndex::from_cell_deps(&deps);
    assert_eq!(index.get_program_elf(&script(type_hash, 1)).unwrap(), b"new".to_vec());
}

#[test]
fn code_out_point_search() {
    let ts = Script { code_hash: [5; 32], hash_type: 1, args: vec![] };
    let type_hash = calc_script_hash(&ts);
    let deps = vec![dep(1, b"a", None), dep(2, b"b", Some(ts)), dep(3, b"a", None)];
    let found = script_code_out_point(&deps, &script(blake2b_256(b"a"), 4)).unwrap().unwrap();
    assert_eq!((found.tx_hash[0], found.index), (1, 1));
    let found = script_code_out_point(&deps, &script(type_hash, 1)).unwrap().unwrap();
    assert_eq!((found.tx_hash[0], found.index), (2, 2));
    let found = code_out_point(&deps, &script(blake2b_256(b"b"), 0));
    assert_eq!((found.tx_hash[0], found.index), (2, 2));
    assert!(script_code_out_point(&deps, &script([0; 32], 0)).unwrap().is_none());
    assert!(script_code_out_point(&deps, &script(blake2b_256(b"a"), 6)).unwrap().is_none());
    match script_code_out_point(&deps, &script([0; 32], 3)) {
        Err(HostError::ScriptError(msg)) => assert!(msg.starts_with("invalid script hash type")),
        _ => panic!("hash type 3 must be rejected"),
    }
}

#[test]
fn resolved_program_lookup() {
    let at = |b: u8| OutPoint { tx_hash: [b; 32], index: 0 };
    let resolved = vec![
        ResolvedCellDep { out_point: at(1), data: None },
        ResolvedCellDep { out_point: at(2), data: Some(b"code".to_vec()) },
        ResolvedCellDep { out_point: at(2), data: Some(b"later".to_vec()) },
    ];
    assert_eq!(resolved_program(&resolved, &at(2)).unwrap(), b"code".to_vec());
    assert!(matches!(resolved_program(&resolved, &at(1)), Err(HostError::ProgramElfNotFound)));
    assert!(matches!(resolved_program(&resolved, &at(3)), Err(HostError::ProgramElfNotFound)));
}

#[test]
fn epochs_select_versions() {
    assert_eq!(verifier_epoch(ScriptVersion::V0), (15, 0, 1));
    assert_eq!(verifier_epoch(ScriptVersion::V1), (25, 0, 1));
    assert_eq!(verifier_epoch(ScriptVersion::V2), (35, 0, 1));
}

#[test]
fn script_hash_is_blake2b_of_the_molecule_encoding() {
    let args = vec![9u8, 8, 7];
    let s = Script { code_hash: [5; 32], hash_type: 1, args: args.clone() };
    let mut enc: Vec<u8> = Vec::new();
    enc.extend_from_slice(&(53u32 + 3).to_le_bytes());
    enc.extend_from_slice(&16u32.to_le_bytes());
    enc.extend_from_slice(&48u32.to_le_bytes());
    enc.extend_from_slice(&49u32.to_le_bytes());
    enc.extend_from_slice(&[5u8; 32]);
    enc.push(1);
    enc.extend_from_slice(&3u32.to_le_bytes());
    enc.extend_from_slice(&args);
    assert_eq!(calc_script_hash(&s), ckb_hash::blake2b_256(&enc));
    let empty = Script { code_hash: [0; 32], hash_type: 0, args: vec![] };
    let mut enc0: Vec<u8> = Vec::new();
    for n in [53u32, 16, 48, 49] {
        enc0.extend_from_slice(&n.to_le_bytes());
    }
    enc0.extend_from_slice(&[0u8; 33]);
    enc0.extend_from_slice(&0u32.to_le_bytes());
    assert_eq!(calc_script_hash(&empty), blake2b_256(&enc0));
}
