use ckb_types::prelude::Entity;
use jolt_testing::chain::{Script, ScriptGroup, ScriptGroupType};
use jolt_testing::type_id::{is_type_id_group, is_type_id_script};

fn type_id_hash() -> [u8; 32] {
    ckb_chain_spec::consensus::TYPE_ID_CODE_HASH.0
}

#[test]
fn type_id_code_hash_layout() {
    let h = type_id_hash();
    assert_eq!(&h[..25], &[0u8; 25]);
    assert_eq!(&h[25..], b"TYPE_ID");
}

#[test]
fn type_id_scripts_are_recognised() {
    assert!(is_type_id_script(&Script { code_hash: type_id_hash(), hash_type: 1, args: vec![1; 32] }));
    assert!(!is_type_id_script(&Script { code_hash: type_id_hash(), hash_type: 0, args: vec![] }));
    assert!(!is_type_id_script(&Script { code_hash: [0; 32], hash_type: 1, args: vec![] }));
    let group = ScriptGroup {
        script: Script { code_hash: type_id_hash(), hash_type: 1, args: vec![] },
        group_type: ScriptGroupType::Type,
    };
    assert!(is_type_id_group(&group));
}

#[test]
fn type_id_injection_leaves_the_transaction_unchanged() {
    let mut mock = ckb_mock_tx_types::MockTransaction::default();
    let before = mock.tx.as_slice().to_vec();
    jolt_testing::type_id::inject_type_id_if_needed(&mut mock);
    assert_eq!(mock.tx.as_slice(), before.as_slice());
    assert!(mock.mock_info.inputs.is_empty());
    assert!(mock.mock_info.cell_deps.is_empty());
}
