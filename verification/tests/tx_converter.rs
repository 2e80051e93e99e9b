use ckb_types::prelude::{Builder, Entity, Pack, PackVec};
use jolt_testing::chain::{CellDep, DepType, OutPoint};
use jolt_testing::tx_converter::{
    assemble_cell_deps, dep_group_members, header_requests, sub_requests, ResultSlot,
    TransactionRefs,
};
use jolt_testing::types::error::HostError;

fn op(b: u8, index: u32) -> OutPoint {
    OutPoint { tx_hash: [b; 32], index }
}

fn null_out_point() -> OutPoint {
    OutPoint { tx_hash: [0; 32], index: u32::MAX }
}

fn packed_out_point_vec(ops: &[OutPoint]) -> Vec<u8> {
    let items: Vec<ckb_types::packed::OutPoint> = ops
        .iter()
        .map(|o| {
            ckb_types::packed::OutPoint::new_builder()
                .tx_hash(o.tx_hash.pack())
                .index(o.index)
                .build()
        })
        .collect();
    ckb_types::packed::OutPointVec::new_builder().set(items).build().as_slice().to_vec()
}

fn refs(inputs: Vec<OutPoint>, cell_deps: Vec<CellDep>, witness_count: usize) -> TransactionRefs {
    TransactionRefs { inputs, cell_deps, header_deps: vec![], witness_count }
}

#[test]
fn cellbase_is_recognised() {
    assert!(refs(vec![null_out_point()], vec![], 1).is_cellbase());
    assert!(!refs(vec![null_out_point()], vec![], 2).is_cellbase());
    assert!(!refs(vec![null_out_point(), op(1, 0)], vec![], 1).is_cellbase());
    assert!(!refs(vec![op(0, 0)], vec![], 1).is_cellbase());
    assert!(!refs(vec![OutPoint { tx_hash: [0; 32], index: 5 }], vec![], 1).is_cellbase());
    let mut almost = [0u8; 32];
    almost[31] = 1;
    assert!(!refs(vec![OutPoint { tx_hash: almost, index: u32::MAX }], vec![], 1).is_cellbase());
}

#[test]
fn cellbase_agrees_with_ckb_types() {
    let null_input = ckb_types::packed::CellInput::new_builder()
        .previous_output(ckb_types::packed::OutPoint::new_builder().index(u32::MAX).build())
        .build();
    let raw = ckb_types::packed::RawTransaction::new_builder().inputs(vec![null_input].pack()).build();
    let tx = ckb_types::packed::Transaction::new_builder()
        .raw(raw)
        .witnesses(vec![ckb_types::packed::Bytes::default()].pack())
        .build();
    assert!(tx.is_cellbase());
    assert!(refs(vec![null_out_point()], vec![], 1).is_cellbase());
}

#[test]
fn requests_list_inputs_then_deps() {
    let deps = vec![
        CellDep { out_point: op(7, 1), dep_type: DepType::Code },
        CellDep { out_point: op(8, 2), dep_type: DepType::DepGroup },
    ];
    let tx = refs(vec![op(1, 0), op(2, 3)], deps.clone(), 2);
    let r = tx.cell_requests();
    let got: Vec<(u8, u32)> = r.iter().map(|o| (o.tx_hash[0], o.index)).collect();
    assert_eq!(got, vec![(1, 0), (2, 3), (7, 1), (8, 2)]);
    assert_eq!(tx.resolved_input_count(), 2);

    let cellbase = refs(vec![null_out_point()], deps, 1);
    let r = cellbase.cell_requests();
    let got: Vec<(u8, u32)> = r.iter().map(|o| (o.tx_hash[0], o.index)).collect();
    assert_eq!(got, vec![(7, 1), (8, 2)]);
    assert_eq!(cellbase.resolved_input_count(), 0);
}

#[test]
fn dep_groups_are_expanded_in_place() {
    let deps = vec![
        CellDep { out_point: op(1, 0), dep_type: DepType::DepGroup },
        CellDep { out_point: op(2, 0), dep_type: DepType::Code },
        CellDep { out_point: op(3, 0), dep_type: DepType::DepGroup },
    ];
    let data = vec![
        packed_out_point_vec(&[op(10, 1), op(11, 2)]),
        vec![0xde, 0xad],
        packed_out_point_vec(&[op(12, 3)]),
    ];
    let members = dep_group_members(&deps, &data).unwrap();
    assert_eq!(members.len(), 3);
    assert_eq!(members[0].iter().map(|o| (o.tx_hash[0], o.index)).collect::<Vec<_>>(), vec![(10, 1), (11, 2)]);
    assert!(members[1].is_empty());
    assert_eq!(members[2].iter().map(|o| (o.tx_hash[0], o.index)).collect::<Vec<_>>(), vec![(12, 3)]);

    let subs = sub_requests(&members);
    assert_eq!(subs.iter().map(|o| o.tx_hash[0]).collect::<Vec<_>>(), vec![10, 11, 12]);

    let entries = assemble_cell_deps(&deps, &members);
    let shape: Vec<(u8, DepType, ResultSlot)> =
        entries.iter().map(|e| (e.cell_dep.out_point.tx_hash[0], e.cell_dep.dep_type, e.slot)).collect();
    assert_eq!(
        shape,
        vec![
            (1, DepType::DepGroup, ResultSlot::Main(0)),
            (10, DepType::Code, ResultSlot::Sub(0)),
            (11, DepType::Code, ResultSlot::Sub(1)),
            (2, DepType::Code, ResultSlot::Main(1)),
            (3, DepType::DepGroup, ResultSlot::Main(2)),
            (12, DepType::Code, ResultSlot::Sub(2)),
        ]
    );
}

#[test]
fn empty_dep_group_expands_to_nothing() {
    let deps = vec![CellDep { out_point: op(1, 0), dep_type: DepType::DepGroup }];
    let data = vec![packed_out_point_vec(&[])];
    assert_eq!(data[0], vec![0, 0, 0, 0]);
    let members = dep_group_members(&deps, &data).unwrap();
    assert!(members[0].is_empty());
    let entries = assemble_cell_deps(&deps, &members);
    assert_eq!(entries.len(), 1);
    assert_eq!(entries[0].slot, ResultSlot::Main(0));
}

#[test]
fn malformed_dep_group_is_a_verification_error() {
    let deps = vec![CellDep { out_point: op(1, 0), dep_type: DepType::DepGroup }];
    for bad in [vec![], vec![1, 0, 0], vec![1, 0, 0, 0, 1, 2], vec![0, 0, 0, 0, 9]] {
        match dep_group_members(&deps, &[bad]) {
            Err(HostError::VerificationError(_)) => {}
            other => panic!("expected a verification error, got {:?}", other.map(|m| m.len())),
        }
    }
}

#[test]
fn header_hashes_are_hex() {
    let mut h = [0u8; 32];
    h[0] = 0xab;
    h[31] = 0x01;
    let r = header_requests(&[h]);
    let expected = format!("0x{:x}", ckb_types::packed::Byte32::from_slice(&h).unwrap());
    assert_eq!(r, vec![expected.clone()]);
    assert_eq!(expected, format!("0xab{}01", "00".repeat(30)));
}
