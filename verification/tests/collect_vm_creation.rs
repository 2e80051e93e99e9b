use jolt_testing::collect_vm_creation::{
    collector_key_str, is_renderable, vm_tree_lines, BinaryLocator, CollectorKey, CycleScale,
    HumanReadableCycles, VmTraceEntry,
};

fn key(vm_id: u64, generation_id: u64) -> CollectorKey {
    CollectorKey { vm_id, generation_id }
}

fn entry(k: CollectorKey, source: u64, children: Vec<CollectorKey>) -> VmTraceEntry {
    VmTraceEntry { key: k, locator: BinaryLocator { index: 1, source, offset: 0, length: 100 }, children }
}

#[test]
fn cycle_scales() {
    assert_eq!(HumanReadableCycles(1023).scale(), CycleScale::Exact);
    assert_eq!(HumanReadableCycles(1024).scale(), CycleScale::Kilo);
    assert_eq!(HumanReadableCycles(1024 * 1024 - 1).scale(), CycleScale::Kilo);
    assert_eq!(HumanReadableCycles(1024 * 1024).scale(), CycleScale::Mega);
}

#[test]
fn keys_render_with_generation_when_nonzero() {
    assert_eq!(collector_key_str(&key(0, 0)), "0");
    assert_eq!(collector_key_str(&key(12, 0)), "12");
    assert_eq!(collector_key_str(&key(3, 2)), "3/2");
    assert_eq!(collector_key_str(&key(u64::MAX, 10)), format!("{}/10", u64::MAX));
}

#[test]
fn no_spawns_draw_nothing() {
    let entries = vec![entry(key(0, 0), 3, vec![])];
    assert!(is_renderable(&entries));
    assert!(vm_tree_lines(&entries).is_empty());
}

#[test]
fn spawn_tree_is_drawn_depth_first() {
    let entries = vec![
        entry(key(0, 0), 3, vec![key(1, 0), key(2, 0)]),
        entry(key(1, 0), 0x0100000000000001, vec![key(3, 1)]),
        entry(key(2, 0), 1, vec![]),
        entry(key(3, 1), 4, vec![]),
    ];
    assert!(is_renderable(&entries));
    let lines = vm_tree_lines(&entries);
    assert_eq!(
        lines,
        vec![
            "Spawn tree: 0                    cell_dep[1][0..100]".to_string(),
            "Spawn tree: ├── 1                group_input[1][0..100]".to_string(),
            "Spawn tree: │   └── 3/1          header_dep[1][0..100]".to_string(),
            "Spawn tree: └── 2                input[1][0..100]".to_string(),
        ]
    );
}

#[test]
fn unknown_sources_and_missing_children_cannot_be_drawn() {
    assert!(!is_renderable(&vec![entry(key(0, 0), 9, vec![])]));
    assert!(!is_renderable(&vec![entry(key(0, 0), 3, vec![key(5, 0)])]));
    assert!(!is_renderable(&vec![entry(key(1, 0), 3, vec![key(2, 0)]), entry(key(2, 0), 3, vec![])]));
}

#[test]
fn without_spawns_the_root_needs_no_entry() {
    let entries = vec![entry(key(1, 0), 3, vec![])];
    assert!(is_renderable(&entries));
    assert!(vm_tree_lines(&entries).is_empty());
}

#[test]
fn unreachable_vms_need_no_children_entries() {
    let entries = vec![
        entry(key(0, 0), 3, vec![key(1, 0)]),
        entry(key(1, 0), 1, vec![]),
        entry(key(7, 0), 2, vec![key(8, 0)]),
    ];
    assert!(is_renderable(&entries));
    assert_eq!(vm_tree_lines(&entries).len(), 2);
}

#[test]
fn spawn_cycles_cannot_be_drawn() {
    let entries = vec![entry(key(0, 0), 3, vec![key(1, 0)]), entry(key(1, 0), 1, vec![key(0, 0)])];
    assert!(!is_renderable(&entries));
    assert!(!is_renderable(&vec![entry(key(0, 0), 3, vec![key(0, 0)])]));
}

#[test]
fn a_shared_child_is_drawn_under_each_parent() {
    let entries = vec![
        entry(key(0, 0), 3, vec![key(1, 0), key(2, 0)]),
        entry(key(1, 0), 1, vec![key(3, 0)]),
        entry(key(2, 0), 1, vec![key(3, 0)]),
        entry(key(3, 0), 2, vec![]),
    ];
    assert!(is_renderable(&entries));
    assert_eq!(vm_tree_lines(&entries).len(), 5);
}
