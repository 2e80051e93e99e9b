//! A flat, zero-based CKB-VM memory backed by plain vectors.
//!
//! CKB-VM addresses are used directly as indices into a byte vector, so the
//! memory never relies on the host's own address space.  Every multi-byte
//! access is little-endian.  Each page carries a flag byte; writes mark the
//! pages they touch as dirty.
use vstd::bytes::*;
use vstd::prelude::*;
use vstd::slice::slice_subrange;

verus! {

/// Number of address bits inside one page.
pub const RISCV_PAGE_SHIFTS: u64 = 12;

/// Size in bytes of one RISC-V page.
pub const RISCV_PAGESIZE: usize = 4096;

/// Largest memory a CKB-VM machine may address (4 MiB).
pub const RISCV_MAX_MEMORY: usize = 4194304;

/// Page flag set by every write that touches the page.
pub const FLAG_DIRTY: u8 = 4;

/// Errors reported by the memory.
#[derive(Debug, Clone, Copy, PartialEq, Eq, Structural)]
pub enum MemError {
    /// The access reaches past the end of the memory, or names a page that
    /// does not exist.
    MemOutOfBound,
}

/// The abstract state of a [`JoltMemory`].
#[verifier::ext_equal]
pub struct MemoryState {
    /// Byte `i` of the memory is `data[i]`; the memory size is `data.len()`.
    pub data: Seq<u8>,
    /// Flag byte of each page.
    pub flags: Seq<u8>,
    /// Load-reservation address used by atomic instructions.
    pub load_reservation: u64,
}

/// `s` with `bytes` written from position `addr` on.
pub open spec fn write_bytes(s: Seq<u8>, addr: int, bytes: Seq<u8>) -> Seq<u8> {
    Seq::new(s.len(), |i: int| if addr <= i < addr + bytes.len() { bytes[i - addr] } else { s[i] })
}

/// Page number holding address `addr`.
pub open spec fn page_of(addr: int) -> int {
    addr / (RISCV_PAGESIZE as int)
}

/// `flags` with `flag` or-ed into every page from `first` to `last`, both included.
pub open spec fn mark_pages(flags: Seq<u8>, first: int, last: int, flag: u8) -> Seq<u8> {
    Seq::new(flags.len(), |p: int| if first <= p <= last { flags[p] | flag } else { flags[p] })
}

/// `flags` after the pages touched by `size > 0` bytes from `addr` are marked dirty.
pub open spec fn mark_dirty(flags: Seq<u8>, addr: int, size: int) -> Seq<u8> {
    mark_pages(flags, page_of(addr), page_of(addr + size - 1), FLAG_DIRTY)
}

/// `m` with its page flags replaced by `flags`.
pub open spec fn with_flags(m: MemoryState, flags: Seq<u8>) -> MemoryState {
    MemoryState { flags, ..m }
}

/// `m` with its bytes replaced by `data`.
pub open spec fn with_data(m: MemoryState, data: Seq<u8>) -> MemoryState {
    MemoryState { data, ..m }
}

/// `flags` with `page` replaced by `f`.
pub open spec fn with_flag(flags: Seq<u8>, page: int, f: u8) -> Seq<u8> {
    flags.update(page, f)
}

/// The value that a `width`-byte little-endian load reads from `bytes`.
pub open spec fn loaded_value(bytes: Seq<u8>, width: nat) -> u64 {
    if width == 1 {
        bytes[0] as u64
    } else if width == 2 {
        spec_u16_from_le_bytes(bytes) as u64
    } else if width == 4 {
        spec_u32_from_le_bytes(bytes) as u64
    } else {
        spec_u64_from_le_bytes(bytes)
    }
}

/// The bytes that a `width`-byte little-endian store of `value` writes.
pub open spec fn stored_bytes(value: u64, width: nat) -> Seq<u8> {
    if width == 1 {
        seq![value as u8]
    } else if width == 2 {
        spec_u16_to_le_bytes(value as u16)
    } else if width == 4 {
        spec_u32_to_le_bytes(value as u32)
    } else {
        spec_u64_to_le_bytes(value)
    }
}

/// `value` cut to its low `width` bytes.
pub open spec fn truncated(value: u64, width: nat) -> u64 {
    if width == 1 {
        (value as u8) as u64
    } else if width == 2 {
        (value as u16) as u64
    } else if width == 4 {
        (value as u32) as u64
    } else {
        value
    }
}

/// The access widths of the memory's load and store instructions.
pub open spec fn is_access_width(width: nat) -> bool {
    width == 1 || width == 2 || width == 4 || width == 8
}

/// What a load of `width` bytes from `addr` returns on memory `m`.
pub open spec fn spec_load(m: MemoryState, addr: u64, width: nat) -> Result<u64, MemError> {
    if addr + width <= m.data.len() {
        Ok(loaded_value(m.data.subrange(addr as int, addr + width), width))
    } else {
        Err(MemError::MemOutOfBound)
    }
}

/// The memory after `bytes` are written at `addr` (for a non-empty, in-range write).
pub open spec fn spec_write(m: MemoryState, addr: u64, bytes: Seq<u8>) -> MemoryState {
    MemoryState {
        data: write_bytes(m.data, addr as int, bytes),
        flags: mark_dirty(m.flags, addr as int, bytes.len() as int),
        load_reservation: m.load_reservation,
    }
}

/// What a store of `width` bytes of `value` at `addr` does to memory `m`:
/// the result and the memory afterwards.
pub open spec fn spec_store(m: MemoryState, addr: u64, value: u64, width: nat) -> (Result<(), MemError>, MemoryState) {
    if addr + width <= m.data.len() {
        (Ok(()), spec_write(m, addr, stored_bytes(value, width)))
    } else {
        (Err(MemError::MemOutOfBound), m)
    }
}

/// What `store_bytes(addr, bytes)` does to memory `m`.
pub open spec fn spec_store_bytes(m: MemoryState, addr: u64, bytes: Seq<u8>) -> (Result<(), MemError>, MemoryState) {
    if bytes.len() == 0 {
        (Ok(()), m)
    } else if addr + bytes.len() <= m.data.len() {
        (Ok(()), spec_write(m, addr, bytes))
    } else {
        (Err(MemError::MemOutOfBound), m)
    }
}

/// What `store_byte(addr, size, value)` (a memset) does to memory `m`.
pub open spec fn spec_store_byte(m: MemoryState, addr: u64, size: u64, value: u8) -> (Result<(), MemError>, MemoryState) {
    spec_store_bytes(m, addr, Seq::new(size as nat, |i: int| value))
}

/// What `load_bytes(addr, size)` returns on memory `m`.
pub open spec fn spec_load_bytes(m: MemoryState, addr: u64, size: u64) -> Result<Seq<u8>, MemError> {
    if size == 0 {
        Ok(Seq::empty())
    } else if addr + size <= m.data.len() {
        Ok(m.data.subrange(addr as int, addr + size))
    } else {
        Err(MemError::MemOutOfBound)
    }
}

/// CKB-VM's error type, carried opaquely from its page arithmetic.
#[verifier::external_type_specification]
#[verifier::external_body]
pub struct ExVmError(ckb_vm::Error);

/// Calls `ckb_vm::memory::get_page_indices`, whose source returns
/// `Err(MemOutOfBound)` when `addr + size` overflows or passes
/// `RISCV_MAX_MEMORY`, and otherwise the pages `addr >> 12` and
/// `(addr + size - 1) >> 12`.  It debug-asserts `size > 0`.
#[verifier::external_body]
fn page_indices(addr: u64, size: u64) -> (r: Result<(u64, u64), ckb_vm::Error>)
    requires
        size > 0,
    ensures
        match r {
            Ok((first, last)) => {
                &&& addr + size <= RISCV_MAX_MEMORY
                &&& first == page_of(addr as int)
                &&& last == page_of(addr + size - 1)
            },
            Err(_) => addr + size > RISCV_MAX_MEMORY,
        },
{
    ckb_vm::memory::get_page_indices(addr, size)
}

/// A load of the width just stored, at the same address, reads back the
/// stored value cut to that width.
pub proof fn lemma_load_after_store(m: MemoryState, addr: u64, value: u64, width: nat)
    requires
        state_wf(m),
        is_access_width(width),
        addr + width <= m.data.len(),
    ensures
        spec_load(spec_store(m, addr, value, width).1, addr, width) == Ok::<u64, MemError>(truncated(value, width)),
{
    lemma_auto_spec_u16_to_from_le_bytes();
    lemma_auto_spec_u32_to_from_le_bytes();
    lemma_auto_spec_u64_to_from_le_bytes();
    let bytes = stored_bytes(value, width);
    assert(bytes.len() == width);
    let after = spec_store(m, addr, value, width).1;
    assert(after.data.subrange(addr as int, addr + width) =~= bytes);
}

/// A store leaves every load of a range that does not overlap it unchanged.
pub proof fn lemma_store_keeps_other_loads(
    m: MemoryState,
    addr: u64,
    value: u64,
    width: nat,
    other: u64,
    other_width: nat,
)
    requires
        state_wf(m),
        is_access_width(width),
        is_access_width(other_width),
        other + other_width <= addr || addr + width <= other,
    ensures
        spec_load(spec_store(m, addr, value, width).1, other, other_width) == spec_load(m, other, other_width),
{
    lemma_auto_spec_u16_to_from_le_bytes();
    lemma_auto_spec_u32_to_from_le_bytes();
    lemma_auto_spec_u64_to_from_le_bytes();
    let after = spec_store(m, addr, value, width).1;
    if other + other_width <= m.data.len() {
        assert(after.data.subrange(other as int, other + other_width)
            =~= m.data.subrange(other as int, other + other_width));
    }
}

/// A store that succeeds leaves every page it touches flagged dirty, and
/// changes no other page's flags.
pub proof fn lemma_store_marks_pages_dirty(m: MemoryState, addr: u64, value: u64, width: nat, page: int)
    requires
        state_wf(m),
        is_access_width(width),
        addr + width <= m.data.len(),
        0 <= page < m.flags.len(),
    ensures
        ({
            let after = spec_store(m, addr, value, width).1;
            &&& page_of(addr as int) <= page <= page_of(addr + width - 1)
                ==> after.flags[page] & FLAG_DIRTY == FLAG_DIRTY
            &&& !(page_of(addr as int) <= page <= page_of(addr + width - 1))
                ==> after.flags[page] == m.flags[page]
        }),
{
    lemma_auto_spec_u16_to_from_le_bytes();
    lemma_auto_spec_u32_to_from_le_bytes();
    lemma_auto_spec_u64_to_from_le_bytes();
    assert(stored_bytes(value, width).len() == width);
    let f = m.flags[page];
    assert((f | 4u8) & 4u8 == 4u8) by (bit_vector);
}

/// Clearing a flag undoes setting it: a page's flags after `set_flag` then
/// `clear_flag` of the same bits are its earlier flags without those bits,
/// and after `set_flag` alone the bits read back as set.
pub proof fn lemma_clear_undoes_set(f: u8, flag: u8)
    ensures
        ((f | flag) & !flag) == (f & !flag),
        (f | flag) & flag == flag,
        (f & !flag) & flag == 0,
{
    assert(((f | flag) & !flag) == (f & !flag)) by (bit_vector);
    assert((f | flag) & flag == flag) by (bit_vector);
    assert((f & !flag) & flag == 0) by (bit_vector);
}

/// Setting then clearing the same bits of an existing page leaves that page
/// with its earlier flags without those bits, and leaves every other page's
/// flags and every byte as they were.
pub proof fn lemma_set_then_clear_flag(m: MemoryState, page: int, flag: u8)
    requires
        state_wf(m),
        0 <= page < m.data.len() / (RISCV_PAGESIZE as nat),
    ensures
        ({
            let set = with_flags(m, with_flag(m.flags, page, m.flags[page] | flag));
            let cleared = with_flags(set, with_flag(set.flags, page, set.flags[page] & !flag));
            &&& page < m.flags.len()
            &&& cleared.flags[page] == m.flags[page] & !flag
            &&& cleared.flags.len() == m.flags.len()
            &&& forall|p: int| 0 <= p < m.flags.len() && p != page ==> #[trigger] cleared.flags[p] == m.flags[p]
            &&& cleared.data == m.data
            &&& cleared.load_reservation == m.load_reservation
        }),
{
    lemma_clear_undoes_set(m.flags[page], flag);
}

/// Every in-range byte read of a fresh memory returns zeros.
pub proof fn lemma_fresh_memory_reads_zero(size: nat, addr: u64, len: u64)
    requires
        addr + len <= size,
    ensures
        spec_load_bytes(
            MemoryState { data: Seq::new(size, |i: int| 0u8), flags: Seq::empty(), load_reservation: 0 },
            addr,
            len,
        ) == Ok::<Seq<u8>, MemError>(Seq::new(len as nat, |i: int| 0u8)),
        spec_load(
            MemoryState { data: Seq::new(size, |i: int| 0u8), flags: Seq::empty(), load_reservation: 0 },
            addr,
            1,
        ) == (if addr + 1 <= size { Ok::<u64, MemError>(0) } else { Err(MemError::MemOutOfBound) }),
{
    assert(Seq::new(size, |i: int| 0u8).subrange(addr as int, addr + len) =~= Seq::new(len as nat, |i: int| 0u8));
    assert(Seq::<u8>::empty() =~= Seq::new(0nat, |i: int| 0u8));
}

/// A store of `bytes` followed by a load of as many bytes at the same address
/// returns them.
pub proof fn lemma_load_bytes_after_store_bytes(m: MemoryState, addr: u64, bytes: Seq<u8>)
    requires
        state_wf(m),
        0 < bytes.len(),
        addr + bytes.len() <= m.data.len(),
    ensures
        spec_load_bytes(spec_store_bytes(m, addr, bytes).1, addr, bytes.len() as u64) == Ok::<Seq<u8>, MemError>(bytes),
{
    let after = spec_store_bytes(m, addr, bytes).1;
    assert(after.data.subrange(addr as int, addr + bytes.len()) =~= bytes);
}

/// CKB-VM memory for guests that run inside a zkVM: a zero-based address
/// space stored as a plain byte vector, with one flag byte per page.
pub struct JoltMemory {
    data: Vec<u8>,
    flags: Vec<u8>,
    memory_size: usize,
    riscv_pages: usize,
    load_reservation_address: u64,
}

impl View for JoltMemory {
    type V = MemoryState;

    closed spec fn view(&self) -> MemoryState {
        MemoryState {
            data: self.data@,
            flags: self.flags@,
            load_reservation: self.load_reservation_address,
        }
    }
}

/// The shape every memory keeps: the size is a whole number of pages, at
/// most `RISCV_MAX_MEMORY`, and there is one flag byte per page.
pub open spec fn state_wf(m: MemoryState) -> bool {
    &&& m.data.len() <= RISCV_MAX_MEMORY
    &&& m.data.len() % (RISCV_PAGESIZE as nat) == 0
    &&& m.flags.len() == m.data.len() / (RISCV_PAGESIZE as nat)
}

proof fn lemma_last_page_in_range(addr: int, size: int, len: int)
    requires
        0 <= addr,
        0 < size,
        addr + size <= len,
        len % 4096 == 0,
    ensures
        0 <= page_of(addr) <= page_of(addr + size - 1) < len / 4096,
{
    assert(page_of(addr) <= page_of(addr + size - 1)) by (nonlinear_arith)
        requires
            0 <= addr <= addr + size - 1,
    {
        assert(addr / 4096 <= (addr + size - 1) / 4096) by {
            vstd::arithmetic::div_mod::lemma_div_is_ordered(addr, addr + size - 1, 4096);
        }
    }
    assert((addr + size - 1) / 4096 < len / 4096) by {
        let q = len / 4096;
        vstd::arithmetic::div_mod::lemma_fundamental_div_mod(len, 4096);
        assert(len == q * 4096);
        vstd::arithmetic::div_mod::lemma_fundamental_div_mod_converse_div(len - 1, 4096, q - 1, 4095);
        vstd::arithmetic::div_mod::lemma_div_is_ordered(addr + size - 1, len - 1, 4096);
    }
}

impl JoltMemory {
    /// The internal invariant: the view is well formed and the cached sizes agree with it.
    pub closed spec fn wf(&self) -> bool {
        &&& state_wf(self@)
        &&& self.memory_size == self.data@.len()
        &&& self.riscv_pages == self.flags@.len()
    }

    /// A well-formed memory has the shape [`state_wf`] describes, so the
    /// laws stated over memory states apply to it.
    pub proof fn lemma_wf_shape(&self)
        requires
            self.wf(),
        ensures
            state_wf(self@),
            self@.flags.len() == self@.data.len() / (RISCV_PAGESIZE as nat),
    {
    }

    /// A memory of `RISCV_MAX_MEMORY` bytes, all zero, with all page flags clear.
    pub fn new() -> (m: Self)
        ensures
            m.wf(),
            m@.data == Seq::new(RISCV_MAX_MEMORY as nat, |i: int| 0u8),
            m@.flags == Seq::new((RISCV_MAX_MEMORY / RISCV_PAGESIZE) as nat, |i: int| 0u8),
            m@.load_reservation == u64::MAX,
    {
        Self::new_with_memory(RISCV_MAX_MEMORY)
    }

    /// A memory of `memory_size` bytes, all zero, with all page flags clear.
    pub fn new_with_memory(memory_size: usize) -> (m: Self)
        requires
            memory_size <= RISCV_MAX_MEMORY,
            memory_size % RISCV_PAGESIZE == 0,
        ensures
            m.wf(),
            m@.data == Seq::new(memory_size as nat, |i: int| 0u8),
            m@.flags == Seq::new((memory_size / RISCV_PAGESIZE) as nat, |i: int| 0u8),
            m@.load_reservation == u64::MAX,
    {
        let data: Vec<u8> = vec![0u8; memory_size];
        let flags: Vec<u8> = vec![0u8; memory_size / RISCV_PAGESIZE];
        let m = JoltMemory {
            data,
            flags,
            memory_size,
            riscv_pages: memory_size / RISCV_PAGESIZE,
            load_reservation_address: u64::MAX,
        };
        assert(m@.data =~= Seq::new(memory_size as nat, |i: int| 0u8));
        assert(m@.flags =~= Seq::new((memory_size / RISCV_PAGESIZE) as nat, |i: int| 0u8));
        m
    }

    /// Size of the memory in bytes: a whole number of pages, at most
    /// `RISCV_MAX_MEMORY`, with one flag byte per page.
    pub fn memory_size(&self) -> (n: usize)
        requires
            self.wf(),
        ensures
            n == self@.data.len(),
            state_wf(self@),
            self@.flags.len() == n / RISCV_PAGESIZE,
    {
        self.memory_size
    }

    /// The flag byte of `page`.
    pub fn fetch_flag(&self, page: u64) -> (r: Result<u8, MemError>)
        requires
            self.wf(),
        ensures
            r == (if page < self@.flags.len() {
                Ok::<u8, MemError>(self@.flags[page as int])
            } else {
                Err(MemError::MemOutOfBound)
            }),
    {
        if page < self.riscv_pages as u64 {
            Ok(self.flags[page as usize])
        } else {
            Err(MemError::MemOutOfBound)
        }
    }

    /// Ors `flag` into the flag byte of `page`.
    pub fn set_flag(&mut self, page: u64, flag: u8) -> (r: Result<(), MemError>)
        requires
            old(self).wf(),
        ensures
            final(self).wf(),
            page < old(self)@.flags.len() ==> {
                &&& r is Ok
                &&& final(self)@ == with_flags(old(self)@, with_flag(old(self)@.flags, page as int, old(self)@.flags[page as int] | flag))
            },
            page >= old(self)@.flags.len() ==> {
                &&& r == Err::<(), MemError>(MemError::MemOutOfBound)
                &&& final(self)@ == old(self)@
            },
    {
        if page < self.riscv_pages as u64 {
            let p = page as usize;
            let f = self.flags[p] | flag;
            self.flags.set(p, f);
            Ok(())
        } else {
            Err(MemError::MemOutOfBound)
        }
    }

    /// Clears the bits of `flag` in the flag byte of `page`.
    pub fn clear_flag(&mut self, page: u64, flag: u8) -> (r: Result<(), MemError>)
        requires
            old(self).wf(),
        ensures
            final(self).wf(),
            page < old(self)@.flags.len() ==> {
                &&& r is Ok
                &&& final(self)@ == with_flags(old(self)@, with_flag(old(self)@.flags, page as int, old(self)@.flags[page as int] & !flag))
            },
            page >= old(self)@.flags.len() ==> {
                &&& r == Err::<(), MemError>(MemError::MemOutOfBound)
                &&& final(self)@ == old(self)@
            },
    {
        if page < self.riscv_pages as u64 {
            let p = page as usize;
            let f = self.flags[p] & !flag;
            self.flags.set(p, f);
            Ok(())
        } else {
            Err(MemError::MemOutOfBound)
        }
    }

    /// Whether `size` bytes from `addr` lie inside the memory.
    fn in_range(&self, addr: u64, size: u64) -> (b: bool)
        requires
            self.wf(),
        ensures
            b == (addr + size <= self@.data.len()),
    {
        let n = self.memory_size as u64;
        addr <= n && size <= n - addr
    }

    /// Marks dirty the pages touched by `size > 0` in-range bytes from `addr`.
    fn set_dirty(&mut self, addr: u64, size: u64)
        requires
            old(self).wf(),
            size > 0,
            addr + size <= old(self)@.data.len(),
        ensures
            final(self).wf(),
            final(self)@ == with_flags(old(self)@, mark_dirty(old(self)@.flags, addr as int, size as int)),
    {
        proof {
            lemma_last_page_in_range(addr as int, size as int, self@.data.len() as int);
        }
        match page_indices(addr, size) {
            Err(_) => {
                // The range lies inside the memory, which is no larger than RISCV_MAX_MEMORY.
                assert(false);
            },
            Ok((first, last)) => {
                let ghost start = self@;
                let mut page = first;
                while page <= last
                    invariant
                        self.wf(),
                        first == page_of(addr as int),
                        last == page_of(addr + size - 1),
                        last < self@.flags.len(),
                        first <= page <= last + 1,
                        self@.data == start.data,
                        self@.load_reservation == start.load_reservation,
                        self@.flags == mark_pages(start.flags, first as int, page - 1, FLAG_DIRTY),
                    decreases last + 1 - page,
                {
                    let r = self.set_flag(page, FLAG_DIRTY);
                    assert(r is Ok);
                    page = page + 1;
                    assert(self@.flags =~= mark_pages(start.flags, first as int, page - 1, FLAG_DIRTY));
                }
                assert(self@ =~= with_flags(start, mark_dirty(start.flags, addr as int, size as int)));
            },
        }
    }

    /// Writes `bytes` at the in-range position `addr`, without touching flags.
    fn copy_in(&mut self, addr: usize, bytes: &[u8])
        requires
            old(self).wf(),
            addr + bytes@.len() <= old(self)@.data.len(),
        ensures
            final(self).wf(),
            final(self)@ == with_data(old(self)@, write_bytes(old(self)@.data, addr as int, bytes@)),
    {
        let ghost start = self@;
        let mut i: usize = 0;
        while i < bytes.len()
            invariant
                self.wf(),
                addr + bytes@.len() <= self@.data.len(),
                i <= bytes@.len(),
                self@.flags == start.flags,
                self@.load_reservation == start.load_reservation,
                self@.data == write_bytes(start.data, addr as int, bytes@.subrange(0, i as int)),
            decreases bytes@.len() - i,
        {
            self.data.set(addr + i, bytes[i]);
            i = i + 1;
            assert(self@.data =~= write_bytes(start.data, addr as int, bytes@.subrange(0, i as int)));
        }
        assert(bytes@.subrange(0, i as int) =~= bytes@);
        assert(self@ =~= with_data(start, write_bytes(start.data, addr as int, bytes@)));
    }

    /// Writes `bytes` (non-empty, in range) at `addr`, marking the pages dirty.
    fn write(&mut self, addr: u64, bytes: &[u8])
        requires
            old(self).wf(),
            bytes@.len() > 0,
            addr + bytes@.len() <= old(self)@.data.len(),
        ensures
            final(self).wf(),
            final(self)@ == spec_write(old(self)@, addr, bytes@),
    {
        self.set_dirty(addr, bytes.len() as u64);
        self.copy_in(addr as usize, bytes);
    }

    /// Reads one byte.
    pub fn load8(&self, addr: &u64) -> (r: Result<u64, MemError>)
        requires
            self.wf(),
        ensures
            r == spec_load(self@, *addr, 1),
    {
        if !self.in_range(*addr, 1) {
            return Err(MemError::MemOutOfBound);
        }
        Ok(self.data[*addr as usize] as u64)
    }

    /// Reads two bytes, little-endian.
    pub fn load16(&self, addr: &u64) -> (r: Result<u64, MemError>)
        requires
            self.wf(),
        ensures
            r == spec_load(self@, *addr, 2),
    {
        if !self.in_range(*addr, 2) {
            return Err(MemError::MemOutOfBound);
        }
        let a = *addr as usize;
        let v = u16_from_le_bytes(slice_subrange(self.data.as_slice(), a, a + 2));
        Ok(v as u64)
    }

    /// Reads four bytes, little-endian.
    pub fn load32(&self, addr: &u64) -> (r: Result<u64, MemError>)
        requires
            self.wf(),
        ensures
            r == spec_load(self@, *addr, 4),
    {
        if !self.in_range(*addr, 4) {
            return Err(MemError::MemOutOfBound);
        }
        let a = *addr as usize;
        let v = u32_from_le_bytes(slice_subrange(self.data.as_slice(), a, a + 4));
        Ok(v as u64)
    }

    /// Reads eight bytes, little-endian.
    pub fn load64(&self, addr: &u64) -> (r: Result<u64, MemError>)
        requires
            self.wf(),
        ensures
            r == spec_load(self@, *addr, 8),
    {
        if !self.in_range(*addr, 8) {
            return Err(MemError::MemOutOfBound);
        }
        let a = *addr as usize;
        let v = u64_from_le_bytes(slice_subrange(self.data.as_slice(), a, a + 8));
        Ok(v)
    }

    /// Fetches a 16-bit instruction parcel.
    pub fn execute_load16(&self, addr: u64) -> (r: Result<u16, MemError>)
        requires
            self.wf(),
        ensures
            r == (match spec_load(self@, addr, 2) {
                Ok(v) => Ok::<u16, MemError>(v as u16),
                Err(e) => Err(e),
            }),
    {
        match self.load16(&addr) {
            Ok(v) => Ok(v as u16),
            Err(e) => Err(e),
        }
    }

    /// Fetches a 32-bit instruction.
    pub fn execute_load32(&self, addr: u64) -> (r: Result<u32, MemError>)
        requires
            self.wf(),
        ensures
            r == (match spec_load(self@, addr, 4) {
                Ok(v) => Ok::<u32, MemError>(v as u32),
                Err(e) => Err(e),
            }),
    {
        match self.load32(&addr) {
            Ok(v) => Ok(v as u32),
            Err(e) => Err(e),
        }
    }

    /// Writes the low byte of `value`.
    pub fn store8(&mut self, addr: &u64, value: &u64) -> (r: Result<(), MemError>)
        requires
            old(self).wf(),
        ensures
            final(self).wf(),
            (r, final(self)@) == spec_store(old(self)@, *addr, *value, 1),
    {
        if !self.in_range(*addr, 1) {
            return Err(MemError::MemOutOfBound);
        }
        let bytes: [u8; 1] = [*value as u8];
        self.write(*addr, bytes.as_slice());
        assert(bytes@ =~= stored_bytes(*value, 1));
        Ok(())
    }

    /// Writes the low two bytes of `value`, little-endian.
    pub fn store16(&mut self, addr: &u64, value: &u64) -> (r: Result<(), MemError>)
        requires
            old(self).wf(),
        ensures
            final(self).wf(),
            (r, final(self)@) == spec_store(old(self)@, *addr, *value, 2),
    {
        if !self.in_range(*addr, 2) {
            return Err(MemError::MemOutOfBound);
        }
        let bytes = u16_to_le_bytes(*value as u16);
        self.write(*addr, bytes.as_slice());
        Ok(())
    }

    /// Writes the low four bytes of `value`, little-endian.
    pub fn store32(&mut self, addr: &u64, value: &u64) -> (r: Result<(), MemError>)
        requires
            old(self).wf(),
        ensures
            final(self).wf(),
            (r, final(self)@) == spec_store(old(self)@, *addr, *value, 4),
    {
        if !self.in_range(*addr, 4) {
            return Err(MemError::MemOutOfBound);
        }
        let bytes = u32_to_le_bytes(*value as u32);
        self.write(*addr, bytes.as_slice());
        Ok(())
    }

    /// Writes the eight bytes of `value`, little-endian.
    pub fn store64(&mut self, addr: &u64, value: &u64) -> (r: Result<(), MemError>)
        requires
            old(self).wf(),
        ensures
            final(self).wf(),
            (r, final(self)@) == spec_store(old(self)@, *addr, *value, 8),
    {
        if !self.in_range(*addr, 8) {
            return Err(MemError::MemOutOfBound);
        }
        let bytes = u64_to_le_bytes(*value);
        self.write(*addr, bytes.as_slice());
        Ok(())
    }

    /// Copies `value` into memory from `addr` on.
    pub fn store_bytes(&mut self, addr: u64, value: &[u8]) -> (r: Result<(), MemError>)
        requires
            old(self).wf(),
        ensures
            final(self).wf(),
            (r, final(self)@) == spec_store_bytes(old(self)@, addr, value@),
    {
        let size = value.len();
        if size == 0 {
            return Ok(());
        }
        if !self.in_range(addr, size as u64) {
            return Err(MemError::MemOutOfBound);
        }
        self.write(addr, value);
        Ok(())
    }

    /// Sets `size` bytes from `addr` on to `value`.
    pub fn store_byte(&mut self, addr: u64, size: u64, value: u8) -> (r: Result<(), MemError>)
        requires
            old(self).wf(),
        ensures
            final(self).wf(),
            (r, final(self)@) == spec_store_byte(old(self)@, addr, size, value),
    {
        if size == 0 {
            return Ok(());
        }
        if !self.in_range(addr, size) {
            return Err(MemError::MemOutOfBound);
        }
        self.set_dirty(addr, size);
        let ghost start = self@;
        let a = addr as usize;
        let s = size as usize;
        let mut i: usize = 0;
        while i < s
            invariant
                self.wf(),
                a == addr,
                s == size,
                a + s <= self@.data.len(),
                i <= s,
                self@.flags == start.flags,
                self@.load_reservation == start.load_reservation,
                self@.data == write_bytes(start.data, a as int, Seq::new(i as nat, |k: int| value)),
            decreases s - i,
        {
            self.data.set(a + i, value);
            i = i + 1;
            assert(self@.data =~= write_bytes(start.data, a as int, Seq::new(i as nat, |k: int| value)));
        }
        assert(self@ =~= spec_store_byte(old(self)@, addr, size, value).1);
        Ok(())
    }

    /// Copies `size` bytes from `addr` on out of memory.
    pub fn load_bytes(&self, addr: u64, size: u64) -> (r: Result<Vec<u8>, MemError>)
        requires
            self.wf(),
        ensures
            match (r, spec_load_bytes(self@, addr, size)) {
                (Ok(v), Ok(s)) => v@ == s,
                (Err(e), Err(f)) => e == f,
                _ => false,
            },
    {
        if size == 0 {
            return Ok(Vec::new());
        }
        if !self.in_range(addr, size) {
            return Err(MemError::MemOutOfBound);
        }
        let a = addr as usize;
        let s = size as usize;
        Ok(vstd::slice::slice_to_vec(slice_subrange(self.data.as_slice(), a, a + s)))
    }

    /// The load-reservation address.
    pub fn lr(&self) -> (r: &u64)
        ensures
            *r == self@.load_reservation,
    {
        &self.load_reservation_address
    }

    /// Sets the load-reservation address.
    pub fn set_lr(&mut self, value: &u64)
        requires
            old(self).wf(),
        ensures
            final(self).wf(),
            final(self)@.data == old(self)@.data,
            final(self)@.flags == old(self)@.flags,
            final(self)@.load_reservation == *value,
    {
        self.load_reservation_address = *value;
    }
}

} // verus!
