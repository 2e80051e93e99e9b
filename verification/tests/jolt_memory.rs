use ckb_vm::memory::Memory;
use jolt_testing::guest::jolt_memory::{
    JoltMemory, MemError, FLAG_DIRTY, RISCV_MAX_MEMORY, RISCV_PAGESIZE, RISCV_PAGE_SHIFTS,
};

#[test]
fn constants_match_ckb_vm() {
    assert_eq!(RISCV_MAX_MEMORY, ckb_vm::RISCV_MAX_MEMORY);
    assert_eq!(RISCV_PAGESIZE, ckb_vm::RISCV_PAGESIZE);
    assert_eq!(RISCV_PAGE_SHIFTS as usize, ckb_vm::RISCV_PAGE_SHIFTS);
    assert_eq!(FLAG_DIRTY, ckb_vm::memory::FLAG_DIRTY);
}

#[test]
fn fresh_memory_is_zero_and_clean() {
    let m = JoltMemory::new();
    assert_eq!(m.memory_size(), 4 * 1024 * 1024);
    assert_eq!(m.load64(&0), Ok(0));
    assert_eq!(m.load8(&(4 * 1024 * 1024 - 1)), Ok(0));
    assert_eq!(m.fetch_flag(0), Ok(0));
    assert_eq!(m.fetch_flag(1023), Ok(0));
    assert_eq!(m.fetch_flag(1024), Err(MemError::MemOutOfBound));
    assert_eq!(*m.lr(), u64::MAX);
}

#[test]
fn store_then_load_each_width() {
    let mut m = JoltMemory::new_with_memory(8192);
    let v: u64 = 0x1122_3344_5566_7788;
    assert_eq!(m.store8(&10, &v), Ok(()));
    assert_eq!(m.load8(&10), Ok(0x88));
    assert_eq!(m.store16(&20, &v), Ok(()));
    assert_eq!(m.load16(&20), Ok(0x7788));
    assert_eq!(m.store32(&40, &v), Ok(()));
    assert_eq!(m.load32(&40), Ok(0x5566_7788));
    assert_eq!(m.store64(&80, &v), Ok(()));
    assert_eq!(m.load64(&80), Ok(v));
}

#[test]
fn loads_are_little_endian() {
    let mut m = JoltMemory::new_with_memory(4096);
    assert_eq!(m.store_bytes(100, &[0x01, 0x02, 0x03, 0x04, 0x05, 0x06, 0x07, 0x08]), Ok(()));
    assert_eq!(m.load16(&100), Ok(0x0201));
    assert_eq!(m.load32(&100), Ok(0x0403_0201));
    assert_eq!(m.load64(&100), Ok(0x0807_0605_0403_0201));
    assert_eq!(m.execute_load16(102), Ok(0x0403));
    assert_eq!(m.execute_load32(104), Ok(0x0807_0605));
}

#[test]
fn store_leaves_neighbours_alone() {
    let mut m = JoltMemory::new_with_memory(4096);
    assert_eq!(m.store64(&8, &u64::MAX), Ok(()));
    assert_eq!(m.store16(&10, &0), Ok(()));
    assert_eq!(m.load64(&8), Ok(0xffff_ffff_0000_ffff));
    assert_eq!(m.load8(&7), Ok(0));
    assert_eq!(m.load8(&16), Ok(0));
}

#[test]
fn accesses_at_the_end() {
    let mut m = JoltMemory::new_with_memory(4096);
    assert_eq!(m.store64(&4088, &7), Ok(()));
    assert_eq!(m.load64(&4088), Ok(7));
    assert_eq!(m.store64(&4089, &7), Err(MemError::MemOutOfBound));
    assert_eq!(m.load64(&4089), Err(MemError::MemOutOfBound));
    assert_eq!(m.load32(&4093), Err(MemError::MemOutOfBound));
    assert_eq!(m.load16(&4095), Err(MemError::MemOutOfBound));
    assert_eq!(m.load8(&4096), Err(MemError::MemOutOfBound));
    assert_eq!(m.store8(&4096, &1), Err(MemError::MemOutOfBound));
    assert_eq!(m.load64(&u64::MAX), Err(MemError::MemOutOfBound));
    assert_eq!(m.store32(&(u64::MAX - 1), &1), Err(MemError::MemOutOfBound));
    assert_eq!(m.fetch_flag(0), Ok(FLAG_DIRTY));
}

#[test]
fn failed_store_changes_nothing() {
    let mut m = JoltMemory::new_with_memory(4096);
    assert_eq!(m.store16(&4095, &0xffff), Err(MemError::MemOutOfBound));
    assert_eq!(m.load8(&4095), Ok(0));
    assert_eq!(m.fetch_flag(0), Ok(0));
}

#[test]
fn stores_mark_every_touched_page_dirty() {
    let mut m = JoltMemory::new_with_memory(3 * 4096);
    assert_eq!(m.store64(&4092, &1), Ok(()));
    assert_eq!(m.fetch_flag(0), Ok(FLAG_DIRTY));
    assert_eq!(m.fetch_flag(1), Ok(FLAG_DIRTY));
    assert_eq!(m.fetch_flag(2), Ok(0));
    assert_eq!(m.store8(&8192, &1), Ok(()));
    assert_eq!(m.fetch_flag(2), Ok(FLAG_DIRTY));
}

#[test]
fn flags_set_and_clear() {
    let mut m = JoltMemory::new_with_memory(2 * 4096);
    assert_eq!(m.set_flag(1, 0b01), Ok(()));
    assert_eq!(m.set_flag(1, 0b10), Ok(()));
    assert_eq!(m.fetch_flag(1), Ok(0b11));
    assert_eq!(m.clear_flag(1, 0b01), Ok(()));
    assert_eq!(m.fetch_flag(1), Ok(0b10));
    assert_eq!(m.set_flag(2, 1), Err(MemError::MemOutOfBound));
    assert_eq!(m.clear_flag(2, 1), Err(MemError::MemOutOfBound));
    assert_eq!(m.fetch_flag(0), Ok(0));
}

#[test]
fn bulk_stores_and_loads() {
    let mut m = JoltMemory::new_with_memory(2 * 4096);
    assert_eq!(m.store_bytes(4094, &[9, 8, 7, 6]), Ok(()));
    assert_eq!(m.load_bytes(4094, 4), Ok(vec![9, 8, 7, 6]));
    assert_eq!(m.fetch_flag(0), Ok(FLAG_DIRTY));
    assert_eq!(m.fetch_flag(1), Ok(FLAG_DIRTY));
    assert_eq!(m.store_byte(10, 5, 0xaa), Ok(()));
    assert_eq!(m.load_bytes(9, 7), Ok(vec![0, 0xaa, 0xaa, 0xaa, 0xaa, 0xaa, 0]));
    assert_eq!(m.load_bytes(8190, 3), Err(MemError::MemOutOfBound));
    assert_eq!(m.store_bytes(8190, &[1, 2, 3]), Err(MemError::MemOutOfBound));
    assert_eq!(m.store_byte(8190, 3, 1), Err(MemError::MemOutOfBound));
}

#[test]
fn empty_bulk_operations_always_succeed() {
    let mut m = JoltMemory::new_with_memory(4096);
    assert_eq!(m.store_bytes(1 << 40, &[]), Ok(()));
    assert_eq!(m.store_byte(1 << 40, 0, 5), Ok(()));
    assert_eq!(m.load_bytes(1 << 40, 0), Ok(vec![]));
    assert_eq!(m.fetch_flag(0), Ok(0));
}

#[test]
fn load_reservation() {
    let mut m = JoltMemory::new_with_memory(4096);
    m.set_lr(&0x40);
    assert_eq!(*m.lr(), 0x40);
}

#[test]
fn agrees_with_flat_memory() {
    let mut ours = JoltMemory::new_with_memory(2 * 4096);
    let mut flat = ckb_vm::FlatMemory::<u64>::new_with_memory(2 * 4096);
    let writes: [(u64, u64, u8); 5] = [
        (0, 0xdead_beef_cafe_babe, 8),
        (4095, 0x1234, 2),
        (100, 0xffff_ffff, 4),
        (8191, 0x77, 1),
        (50, 0x0102_0304_0506_0708, 8),
    ];
    for (addr, value, width) in writes {
        match width {
            1 => {
                ours.store8(&addr, &value).unwrap();
                flat.store8(&addr, &value).unwrap();
            }
            2 => {
                ours.store16(&addr, &value).unwrap();
                flat.store16(&addr, &value).unwrap();
            }
            4 => {
                ours.store32(&addr, &value).unwrap();
                flat.store32(&addr, &value).unwrap();
            }
            _ => {
                ours.store64(&addr, &value).unwrap();
                flat.store64(&addr, &value).unwrap();
            }
        }
    }
    for addr in [0u64, 3, 50, 100, 101, 4094, 4095, 4096, 8184] {
        assert_eq!(ours.load64(&addr).unwrap(), flat.load64(&addr).unwrap());
    }
    for page in 0..2u64 {
        assert_eq!(ours.fetch_flag(page).unwrap(), flat.fetch_flag(page).unwrap());
    }
    assert_eq!(ours.load_bytes(4090, 10).unwrap(), flat.load_bytes(4090, 10).unwrap().to_vec());
}

#[test]
fn clear_after_set_on_every_page_of_the_memory() {
    let mut m = JoltMemory::new_with_memory(3 * 4096);
    let pages = (m.memory_size() / RISCV_PAGESIZE) as u64;
    assert_eq!(pages, 3);
    for page in 0..pages {
        assert_eq!(JoltMemory::set_flag(&mut m, page, 0b0110), Ok(()));
        assert_eq!(JoltMemory::clear_flag(&mut m, page, 0b0010), Ok(()));
        assert_eq!(JoltMemory::fetch_flag(&m, page), Ok(0b0100));
    }
    assert_eq!(JoltMemory::set_flag(&mut m, pages, 1), Err(MemError::MemOutOfBound));
    assert_eq!(JoltMemory::fetch_flag(&m, pages), Err(MemError::MemOutOfBound));
}
