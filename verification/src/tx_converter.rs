//! Planning the resolution of a transaction into a mock transaction.
//!
//! Resolving a transaction means fetching every cell it reads: the cells its
//! inputs spend (none for a cellbase), its cell dependencies, the member cells
//! of each dependency group, and its header dependencies.  The fetching is
//! done by the caller; this module decides what to fetch, in which order, and
//! where each fetched cell goes in the mock transaction.
use crate::chain::{CellDep, DepType, OutPoint};
use crate::text::{hex_string_0x, spec_hex_bytes};
use crate::types::error::HostError;
use ckb_types::prelude::{Entity, Unpack};
use vstd::bytes::spec_u32_from_le_bytes;
use vstd::prelude::*;

verus! {

/// The parts of a transaction that resolving it reads.
pub struct TransactionRefs {
    /// The out point spent by each input, in input order.
    pub inputs: Vec<OutPoint>,
    /// The cell dependencies, in order.
    pub cell_deps: Vec<CellDep>,
    /// The block hashes of the header dependencies, in order.
    pub header_deps: Vec<[u8; 32]>,
    /// Number of witnesses.
    pub witness_count: usize,
}

/// The out point that a cellbase input spends: a zero hash and index `u32::MAX`.
pub open spec fn is_null_out_point(op: OutPoint) -> bool {
    &&& op.tx_hash@ == Seq::new(32, |i: int| 0u8)
    &&& op.index == u32::MAX
}

/// A cellbase has exactly one input and one witness, and its input spends the null out point.
pub open spec fn spec_is_cellbase(tx: TransactionRefs) -> bool {
    &&& tx.inputs@.len() == 1
    &&& tx.witness_count == 1
    &&& is_null_out_point(tx.inputs@[0])
}

/// The out points of a list of cell dependencies.
pub open spec fn dep_out_points(deps: Seq<CellDep>) -> Seq<OutPoint> {
    deps.map_values(|d: CellDep| d.out_point)
}

/// The cells fetched first: the inputs' cells (none for a cellbase), then the cell dependencies.
pub open spec fn spec_cell_requests(tx: TransactionRefs) -> Seq<OutPoint> {
    if spec_is_cellbase(tx) {
        dep_out_points(tx.cell_deps@)
    } else {
        tx.inputs@ + dep_out_points(tx.cell_deps@)
    }
}

/// A well-formed `OutPointVec`: a little-endian `u32` count, then that many
/// 36-byte out points.
pub open spec fn out_point_vec_valid(data: Seq<u8>) -> bool {
    &&& data.len() >= 4
    &&& data.len() == 4 + 36 * out_point_vec_count(data)
}

/// The item count that an `OutPointVec` header announces.
pub open spec fn out_point_vec_count(data: Seq<u8>) -> nat {
    spec_u32_from_le_bytes(data.subrange(0, 4)) as nat
}

/// `op` is the out point encoded at `offset`: 32 bytes of hash, then a little-endian `u32` index.
pub open spec fn out_point_at(op: OutPoint, data: Seq<u8>, offset: int) -> bool {
    &&& op.tx_hash@ == data.subrange(offset, offset + 32)
    &&& op.index == spec_u32_from_le_bytes(data.subrange(offset + 32, offset + 36))
}

/// `items` are the out points that a valid `OutPointVec` `data` holds.
pub open spec fn out_point_vec_items(data: Seq<u8>, items: Seq<OutPoint>) -> bool {
    &&& out_point_vec_valid(data)
    &&& items.len() == out_point_vec_count(data)
    &&& forall|i: int| 0 <= i < items.len() ==> #[trigger] out_point_at(items[i], data, 4 + 36 * i)
}

/// Parses `data` with `ckb_types::packed::OutPointVec::from_slice`.  Its
/// source accepts exactly the slices of at least 4 bytes whose length is 4
/// plus 36 times the little-endian `u32` count in the first 4 bytes; each
/// item is a 32-byte hash followed by a little-endian `u32` index.  On
/// failure the molecule error's text is returned; nothing is promised of it.
#[verifier::external_body]
fn parse_out_point_vec(data: &[u8]) -> (r: Result<Vec<OutPoint>, String>)
    ensures
        match r {
            Ok(v) => out_point_vec_items(data@, v@),
            Err(_) => !out_point_vec_valid(data@),
        },
{
    match ckb_types::packed::OutPointVec::from_slice(data) {
        Ok(v) => Ok(v.into_iter().map(|op| OutPoint {
            tx_hash: op.tx_hash().as_reader().into(),
            index: op.index().as_reader().unpack(),
        }).collect()),
        Err(e) => Err(e.to_string()),
    }
}

/// The member out points of dependency `i` that a successful expansion yields:
/// the parsed group for a dependency group, nothing otherwise.
pub open spec fn members_ok(deps: Seq<CellDep>, data: Seq<Vec<u8>>, members: Seq<Vec<OutPoint>>) -> bool {
    &&& members.len() == if deps.len() <= data.len() { deps.len() } else { data.len() }
    &&& forall|i: int| 0 <= i < members.len() ==> {
        &&& (#[trigger] deps[i]).dep_type == DepType::DepGroup ==> out_point_vec_items(data[i]@, members[i]@)
        &&& deps[i].dep_type == DepType::Code ==> members[i]@.len() == 0
    }
}

/// A dependency group among the first `n` dependencies whose data does not parse.
pub open spec fn has_bad_group(deps: Seq<CellDep>, data: Seq<Vec<u8>>, n: int) -> bool {
    exists|i: int| 0 <= i < n && i < deps.len() && i < data.len()
        && (#[trigger] deps[i]).dep_type == DepType::DepGroup && !out_point_vec_valid(data[i]@)
}

/// Expands each dependency group: for each cell dependency, paired with the
/// data of its fetched cell, the out points that the data lists if it is a
/// dependency group, and nothing otherwise.  Fails with a verification error
/// when a dependency group's data is not a valid `OutPointVec`.
pub fn dep_group_members(cell_deps: &[CellDep], data: &[Vec<u8>]) -> (r: Result<Vec<Vec<OutPoint>>, HostError>)
    ensures
        match r {
            Ok(members) => !has_bad_group(cell_deps@, data@, cell_deps@.len() as int) && members_ok(cell_deps@, data@, members@),
            Err(e) => has_bad_group(cell_deps@, data@, cell_deps@.len() as int) && e is VerificationError,
        },
{
    let n = if cell_deps.len() <= data.len() { cell_deps.len() } else { data.len() };
    let mut members: Vec<Vec<OutPoint>> = Vec::new();
    let mut i: usize = 0;
    while i < n
        invariant
            n == (if cell_deps@.len() <= data@.len() { cell_deps@.len() } else { data@.len() }),
            i <= n,
            members@.len() == i,
            !has_bad_group(cell_deps@, data@, i as int),
            forall|k: int| 0 <= k < i ==> {
                &&& (#[trigger] cell_deps@[k]).dep_type == DepType::DepGroup ==> out_point_vec_items(data@[k]@, members@[k]@)
                &&& cell_deps@[k].dep_type == DepType::Code ==> members@[k]@.len() == 0
            },
        decreases n - i,
    {
        if cell_deps[i].dep_type == DepType::DepGroup {
            match parse_out_point_vec(data[i].as_slice()) {
                Ok(v) => {
                    members.push(v);
                },
                Err(msg) => {
                    assert(has_bad_group(cell_deps@, data@, cell_deps@.len() as int)) by {
                        assert(cell_deps@[i as int].dep_type == DepType::DepGroup);
                    }
                    return Err(HostError::VerificationError(msg));
                },
            }
        } else {
            members.push(Vec::new());
        }
        i = i + 1;
    }
    assert(!has_bad_group(cell_deps@, data@, cell_deps@.len() as int)) by {
        if has_bad_group(cell_deps@, data@, cell_deps@.len() as int) {
            let k = choose|k: int| 0 <= k < cell_deps@.len() && k < cell_deps@.len() && k < data@.len()
                && (#[trigger] cell_deps@[k]).dep_type == DepType::DepGroup && !out_point_vec_valid(data@[k]@);
            assert(k < n);
            assert(has_bad_group(cell_deps@, data@, n as int));
        }
    }
    Ok(members)
}

/// The views of a list of out-point lists.
pub open spec fn member_views(members: Seq<Vec<OutPoint>>) -> Seq<Seq<OutPoint>> {
    members.map_values(|v: Vec<OutPoint>| v@)
}

/// The first `n` lists of `lists`, one after the other.
pub open spec fn concat_prefix(lists: Seq<Seq<OutPoint>>, n: int) -> Seq<OutPoint>
    decreases n,
{
    if n <= 0 {
        Seq::empty()
    } else {
        concat_prefix(lists, n - 1) + lists[n - 1]
    }
}

/// All member out points of all dependency groups, in order: the cells to fetch second.
pub fn sub_requests(members: &[Vec<OutPoint>]) -> (r: Vec<OutPoint>)
    ensures
        r@ == concat_prefix(member_views(members@), members@.len() as int),
{
    let mut r: Vec<OutPoint> = Vec::new();
    let mut i: usize = 0;
    while i < members.len()
        invariant
            i <= members@.len(),
            r@ == concat_prefix(member_views(members@), i as int),
        decreases members@.len() - i,
    {
        let group = &members[i];
        let ghost before = r@;
        let mut k: usize = 0;
        while k < group.len()
            invariant
                k <= group@.len(),
                group == members@[i as int],
                r@ == before + group@.subrange(0, k as int),
            decreases group@.len() - k,
        {
            r.push(group[k]);
            k = k + 1;
            assert(r@ =~= before + group@.subrange(0, k as int));
        }
        assert(group@.subrange(0, k as int) =~= group@);
        i = i + 1;
        assert(concat_prefix(member_views(members@), i as int)
            == concat_prefix(member_views(members@), i - 1) + member_views(members@)[i - 1]);
    }
    r
}

/// Where the fetched cell of a mock cell dependency comes from.
#[derive(Clone, Copy, Debug, PartialEq, Eq, Structural)]
pub enum ResultSlot {
    /// Position among the results of the first fetch that follow the inputs' results.
    Main(usize),
    /// Position among the results of the second fetch.
    Sub(usize),
}

/// One cell dependency of the mock transaction and where its cell comes from.
#[derive(Clone, Copy, Debug)]
pub struct CellDepEntry {
    /// The dependency as it stands in the mock transaction.
    pub cell_dep: CellDep,
    /// The fetched cell that backs it.
    pub slot: ResultSlot,
}

/// The entries for dependency `i`: the dependency itself, then, for a
/// dependency group, each member as a code dependency.
pub open spec fn entries_for(deps: Seq<CellDep>, lists: Seq<Seq<OutPoint>>, i: int) -> Seq<CellDepEntry> {
    seq![CellDepEntry { cell_dep: deps[i], slot: ResultSlot::Main(i as usize) }] + if deps[i].dep_type
        == DepType::DepGroup {
        Seq::new(
            lists[i].len(),
            |k: int|
                CellDepEntry {
                    cell_dep: CellDep { out_point: lists[i][k], dep_type: DepType::Code },
                    slot: ResultSlot::Sub((concat_prefix(lists, i).len() + k) as usize),
                },
        )
    } else {
        Seq::empty()
    }
}

/// The entries for the first `n` dependencies.
pub open spec fn spec_cell_dep_entries(deps: Seq<CellDep>, lists: Seq<Seq<OutPoint>>, n: int) -> Seq<CellDepEntry>
    decreases n,
{
    if n <= 0 {
        Seq::empty()
    } else {
        spec_cell_dep_entries(deps, lists, n - 1) + entries_for(deps, lists, n - 1)
    }
}

proof fn lemma_concat_prefix_len(lists: Seq<Seq<OutPoint>>, n: int)
    requires
        0 <= n <= lists.len(),
    ensures
        concat_prefix(lists, n).len() <= concat_prefix(lists, lists.len() as int).len(),
    decreases lists.len() - n,
{
    if n < lists.len() {
        lemma_concat_prefix_len(lists, n + 1);
    }
}

/// The cell dependencies of the mock transaction, in order: each dependency,
/// followed, if it is a dependency group, by its members as code
/// dependencies, each backed by its cell from the second fetch.
pub fn assemble_cell_deps(cell_deps: &[CellDep], members: &[Vec<OutPoint>]) -> (r: Vec<CellDepEntry>)
    requires
        members@.len() == cell_deps@.len(),
        concat_prefix(member_views(members@), members@.len() as int).len() <= usize::MAX,
    ensures
        r@ == spec_cell_dep_entries(cell_deps@, member_views(members@), cell_deps@.len() as int),
{
    let ghost lists = member_views(members@);
    let mut r: Vec<CellDepEntry> = Vec::new();
    let mut offset: usize = 0;
    let mut i: usize = 0;
    while i < cell_deps.len()
        invariant
            members@.len() == cell_deps@.len(),
            lists == member_views(members@),
            concat_prefix(lists, lists.len() as int).len() <= usize::MAX,
            i <= cell_deps@.len(),
            offset == concat_prefix(lists, i as int).len(),
            r@ == spec_cell_dep_entries(cell_deps@, lists, i as int),
        decreases cell_deps@.len() - i,
    {
        let dep = cell_deps[i];
        let ghost before = r@;
        r.push(CellDepEntry { cell_dep: dep, slot: ResultSlot::Main(i) });
        let group = &members[i];
        assert(group@ == lists[i as int]);
        proof {
            lemma_concat_prefix_len(lists, i + 1);
            assert(concat_prefix(lists, i + 1) == concat_prefix(lists, i as int) + lists[i as int]);
        }
        if dep.dep_type == DepType::DepGroup {
            let mut k: usize = 0;
            while k < group.len()
                invariant
                    k <= group@.len(),
                    group@ == lists[i as int],
                    offset + group@.len() <= usize::MAX,
                    dep == cell_deps@[i as int],
                    dep.dep_type == DepType::DepGroup,
                    offset == concat_prefix(lists, i as int).len(),
                    r@ == before + entries_for(cell_deps@, lists, i as int).subrange(0, k + 1),
                decreases group@.len() - k,
            {
                r.push(CellDepEntry {
                    cell_dep: CellDep { out_point: group[k], dep_type: DepType::Code },
                    slot: ResultSlot::Sub(offset + k),
                });
                k = k + 1;
                assert(r@ =~= before + entries_for(cell_deps@, lists, i as int).subrange(0, k + 1));
            }
            assert(entries_for(cell_deps@, lists, i as int).subrange(0, k + 1)
                =~= entries_for(cell_deps@, lists, i as int));
            offset = offset + group.len();
        } else {
            assert(entries_for(cell_deps@, lists, i as int) =~= seq![CellDepEntry { cell_dep: dep, slot: ResultSlot::Main(i) }]);
            assert(r@ =~= before + entries_for(cell_deps@, lists, i as int));
            offset = offset + group.len();
        }
        i = i + 1;
    }
    r
}

/// Every cell dependency of the mock transaction is backed by the right
/// fetched cell: an entry backed by `Main(i)` is dependency `i` itself, and
/// an entry backed by `Sub(j)` is a code dependency on the `j`-th cell of the
/// second fetch.
pub proof fn lemma_entries_match_fetches(deps: Seq<CellDep>, lists: Seq<Seq<OutPoint>>, n: int, e: int)
    requires
        0 <= n <= deps.len(),
        deps.len() == lists.len(),
        deps.len() <= usize::MAX,
        0 <= e < spec_cell_dep_entries(deps, lists, n).len(),
        concat_prefix(lists, n).len() <= usize::MAX,
    ensures
        ({
            let entry = spec_cell_dep_entries(deps, lists, n)[e];
            match entry.slot {
                ResultSlot::Main(i) => i < n && entry.cell_dep == deps[i as int],
                ResultSlot::Sub(j) => {
                    &&& j < concat_prefix(lists, n).len()
                    &&& entry.cell_dep.out_point == concat_prefix(lists, n)[j as int]
                    &&& entry.cell_dep.dep_type == DepType::Code
                },
            }
        }),
    decreases n,
{
    let entries = spec_cell_dep_entries(deps, lists, n);
    let prev = spec_cell_dep_entries(deps, lists, n - 1);
    assert(n > 0);
    assert(concat_prefix(lists, n) == concat_prefix(lists, n - 1) + lists[n - 1]);
    if e < prev.len() {
        lemma_entries_match_fetches(deps, lists, n - 1, e);
        assert(entries[e] == prev[e]);
    } else {
        let k = e - prev.len();
        let group = entries_for(deps, lists, n - 1);
        assert(entries[e] == group[k]);
        if k > 0 {
            let j = concat_prefix(lists, n - 1).len() + k - 1;
            assert(concat_prefix(lists, n)[j] == lists[n - 1][k - 1]);
        }
    }
}

/// The block hashes to fetch headers for, each as `"0x"` and 64 lower-case hex digits.
pub fn header_requests(header_deps: &[[u8; 32]]) -> (r: Vec<String>)
    ensures
        r@.len() == header_deps@.len(),
        forall|i: int| 0 <= i < r@.len() ==> #[trigger] r@[i]@ == seq!['0', 'x'] + spec_hex_bytes(header_deps@[i]@),
{
    let mut r: Vec<String> = Vec::new();
    let mut i: usize = 0;
    while i < header_deps.len()
        invariant
            i <= header_deps@.len(),
            r@.len() == i,
            forall|k: int| 0 <= k < i ==> #[trigger] r@[k]@ == seq!['0', 'x'] + spec_hex_bytes(header_deps@[k]@),
        decreases header_deps@.len() - i,
    {
        let h = &header_deps[i];
        r.push(hex_string_0x(h.as_slice()));
        i = i + 1;
    }
    r
}

impl TransactionRefs {
    /// Whether the transaction is a cellbase (a block's miner reward), whose
    /// single input refers to no real cell.
    pub fn is_cellbase(&self) -> (b: bool)
        ensures
            b == spec_is_cellbase(*self),
    {
        if self.inputs.len() != 1 || self.witness_count != 1 {
            return false;
        }
        let op = &self.inputs[0];
        if op.index != u32::MAX {
            return false;
        }
        let mut i: usize = 0;
        while i < 32
            invariant
                i <= 32,
                op == self.inputs@[0],
                forall|k: int| 0 <= k < i ==> op.tx_hash@[k] == 0u8,
            decreases 32 - i,
        {
            if op.tx_hash[i] != 0 {
                return false;
            }
            i = i + 1;
        }
        assert(op.tx_hash@ =~= Seq::new(32, |i: int| 0u8));
        true
    }

    /// Number of leading fetch results that belong to inputs: none for a cellbase.
    pub fn resolved_input_count(&self) -> (n: usize)
        ensures
            n == if spec_is_cellbase(*self) { 0 } else { self.inputs@.len() },
    {
        if self.is_cellbase() {
            0
        } else {
            self.inputs.len()
        }
    }

    /// The cells to fetch first: each input's cell (none for a cellbase), then
    /// each cell dependency's cell.
    pub fn cell_requests(&self) -> (r: Vec<OutPoint>)
        ensures
            r@ == spec_cell_requests(*self),
    {
        let mut r: Vec<OutPoint> = Vec::new();
        if !self.is_cellbase() {
            let mut i: usize = 0;
            while i < self.inputs.len()
                invariant
                    i <= self.inputs@.len(),
                    r@ == self.inputs@.subrange(0, i as int),
                decreases self.inputs@.len() - i,
            {
                r.push(self.inputs[i]);
                i = i + 1;
                assert(r@ =~= self.inputs@.subrange(0, i as int));
            }
            assert(self.inputs@.subrange(0, i as int) =~= self.inputs@);
        }
        let ghost before = r@;
        let mut j: usize = 0;
        while j < self.cell_deps.len()
            invariant
                j <= self.cell_deps@.len(),
                r@ == before + dep_out_points(self.cell_deps@).subrange(0, j as int),
            decreases self.cell_deps@.len() - j,
        {
            r.push(self.cell_deps[j].out_point);
            j = j + 1;
            assert(r@ =~= before + dep_out_points(self.cell_deps@).subrange(0, j as int));
        }
        assert(dep_out_points(self.cell_deps@).subrange(0, j as int) =~= dep_out_points(self.cell_deps@));
        r
    }
}

} // verus!
