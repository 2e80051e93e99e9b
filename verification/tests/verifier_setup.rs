use ckb_mock_tx_types::{MockCellDep as CkbMockCellDep, MockInfo, MockTransaction};
use ckb_types::packed::{CellDep, CellOutput, OutPoint as PackedOutPoint, Script as PackedScript};
use ckb_types::prelude::{Builder, Entity, IntoTransactionView, Pack};
use jolt_testing::chain::{blake2b_256, calc_script_hash, Script, ScriptVersion};
use jolt_testing::types::error::HostError;
use jolt_testing::verifier_setup::{
    find_verifier_program_elf, group_context, mock_cell_deps, resolve_mock_transaction, resolved_cell_deps,
    verifier_consensus, verifier_program_elf, VM1_EPOCH, VM2_EPOCH,
};

fn out_point(b: u8, index: u32) -> PackedOutPoint {
    PackedOutPoint::new_builder().tx_hash([b; 32].pack()).index(index).build()
}

fn mock_with_deps() -> MockTransaction {
    let type_script = PackedScript::new_builder()
        .code_hash([7u8; 32].pack())
        .hash_type(ckb_types::core::ScriptHashType::Type)
        .args(vec![1u8, 2].pack())
        .build();
    let deps = vec![
        (out_point(1, 0), b"first program".to_vec(), None),
        (out_point(2, 3), b"second program".to_vec(), Some(type_script)),
    ];
    let mut info = MockInfo::default();
    let mut builder = ckb_types::core::TransactionBuilder::default();
    for (op, data, ts) in deps {
        let cell_dep = CellDep::new_builder().out_point(op).dep_type(ckb_types::core::DepType::Code).build();
        builder = builder.cell_dep(cell_dep.clone());
        let output = CellOutput::new_builder().type_(ts.pack()).build();
        info.cell_deps.push(CkbMockCellDep { cell_dep, output, data: data.into(), header: None });
    }
    MockTransaction { mock_info: info, tx: builder.build().data() }
}

#[test]
fn cell_deps_of_a_mock_transaction() {
    let mock = mock_with_deps();
    let deps = mock_cell_deps(&mock);
    assert_eq!(deps.len(), 2);
    assert_eq!((deps[0].out_point.tx_hash, deps[0].out_point.index), ([1; 32], 0));
    assert_eq!(deps[0].data, b"first program".to_vec());
    assert!(deps[0].type_script.is_none());
    let ts = deps[1].type_script.as_ref().unwrap();
    assert_eq!((ts.code_hash, ts.hash_type, ts.args.clone()), ([7; 32], 1, vec![1, 2]));
    assert_eq!(deps[1].out_point.index, 3);
}

#[test]
fn setup_indexes_the_programs_and_finds_no_groups_without_inputs() {
    assert_eq!((VM1_EPOCH, VM2_EPOCH), (20, 30));
    assert!(verifier_consensus().is_ok());
    let mock = mock_with_deps();
    let setup = group_context(&mock, ScriptVersion::V2).unwrap();
    assert!(setup.groups.is_empty());
    let by_data = Script { code_hash: blake2b_256(b"first program"), hash_type: 2, args: vec![] };
    assert_eq!(setup.programs.get_program_elf(&by_data).unwrap(), b"first program".to_vec());
    let ts = mock_cell_deps(&mock)[1].type_script.as_ref().map(|s| calc_script_hash(s)).unwrap();
    let by_type = Script { code_hash: ts, hash_type: 1, args: vec![] };
    assert_eq!(setup.programs.get_program_elf(&by_type).unwrap(), b"second program".to_vec());
}

#[test]
fn program_of_a_script_comes_from_its_resolved_dependency() {
    let mock = mock_with_deps();
    let (_, rtx) = resolve_mock_transaction(&mock).unwrap();
    let resolved = resolved_cell_deps(&rtx);
    assert_eq!(resolved.len(), 2);
    assert_eq!(resolved[1].data.as_deref(), Some(&b"second program"[..]));
    let by_data = Script { code_hash: blake2b_256(b"first program"), hash_type: 0, args: vec![] };
    assert_eq!(verifier_program_elf(&mock, &rtx, &by_data).unwrap(), b"first program".to_vec());
    let missing = Script { code_hash: [9; 32], hash_type: 0, args: vec![] };
    assert!(find_verifier_program_elf(&mock, &rtx, &missing).unwrap().is_none());
    let bad = Script { code_hash: [9; 32], hash_type: 3, args: vec![] };
    match find_verifier_program_elf(&mock, &rtx, &bad) {
        Err(HostError::ScriptError(m)) => assert!(m.starts_with("invalid script hash type: ")),
        _ => panic!("hash type 3 must be refused"),
    }
}

fn mock_with_lock(hash_type: u8) -> MockTransaction {
    let mut mock = mock_with_deps();
    let lock = PackedScript::new_builder()
        .code_hash(blake2b_256(b"first program").pack())
        .hash_type(ckb_types::packed::Byte::new(hash_type))
        .build();
    let input = ckb_types::packed::CellInput::new_builder().previous_output(out_point(5, 0)).build();
    let output = CellOutput::new_builder().lock(lock).build();
    mock.mock_info.inputs.push(ckb_mock_tx_types::MockInput { input: input.clone(), output, data: Default::default(), header: None });
    let tx = mock.tx.clone().into_view().as_advanced_builder().input(input).build();
    mock.tx = tx.data();
    mock
}

#[test]
fn groups_run_under_the_version_their_hash_type_selects() {
    let setup = group_context(&mock_with_lock(2), ScriptVersion::V2).unwrap();
    assert_eq!(setup.groups.len(), 1);
    assert_eq!(setup.groups[0].version, ScriptVersion::V1);
    assert_eq!(setup.groups[0].group.script.hash_type, 2);
    let setup = group_context(&mock_with_lock(0), ScriptVersion::V2).unwrap();
    assert_eq!(setup.groups[0].version, ScriptVersion::V0);
    let setup = group_context(&mock_with_lock(1), ScriptVersion::V1).unwrap();
    assert_eq!(setup.groups[0].version, ScriptVersion::V1);
    let setup = group_context(&mock_with_lock(1), ScriptVersion::V0).unwrap();
    assert_eq!(setup.groups[0].version, ScriptVersion::V0);
    assert!(matches!(group_context(&mock_with_lock(4), ScriptVersion::V1), Err(HostError::ScriptError(_))));
    assert!(matches!(group_context(&mock_with_lock(6), ScriptVersion::V2), Err(HostError::ScriptError(_))));
}
