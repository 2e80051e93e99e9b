//! The host's proof context and its conversion into the guest's form.
//!
//! Several script groups often run the same program.  The guest form keeps
//! each distinct program once, in the order in which the groups first name
//! it (by code hash), and gives each group the position of its program.
use crate::chain::{ScriptGroupType, ScriptVersion};
use crate::guest;
use crate::text::{bytes_eq, copy_bytes};
use crate::types::ncp_types;
use vstd::prelude::*;

verus! {

/// A block header together with the full transactions of its block.
pub struct HistoricalWitness {
    /// The serialized header.
    pub header: Vec<u8>,
    /// The serialized transactions of the block.
    pub full_transactions: Vec<Vec<u8>>,
}

/// The traces of one script group, as collected on the host.
pub struct ScriptGroupTraces {
    /// The VM version the group's script runs under.
    pub script_version: ScriptVersion,
    /// Whether the group is a lock or a type group.
    pub script_group_type: ScriptGroupType,
    /// Hash of the group's script.
    pub script_hash: [u8; 32],
    /// Code hash of the group's script: the same code hash means the same program.
    pub code_hash: [u8; 32],
    /// The recorded syscall trace of the group's root VM.
    pub machine_trace_data: Vec<u8>,
    /// The program the group runs.
    pub machine_program_elf: Vec<u8>,
}

/// A transaction and the traces of all its script groups.
pub struct TransactionProofContext {
    /// The serialized raw transaction.
    pub transaction: Vec<u8>,
    /// One entry per traced script group.
    pub vm_traces: Vec<ScriptGroupTraces>,
}

/// The version byte of a script version.
pub open spec fn version_byte(v: ScriptVersion) -> u8 {
    match v {
        ScriptVersion::V0 => 0,
        ScriptVersion::V1 => 1,
        ScriptVersion::V2 => 2,
    }
}

/// The type byte of a script group type.
pub open spec fn group_type_byte(t: ScriptGroupType) -> u8 {
    match t {
        ScriptGroupType::Lock => 0,
        ScriptGroupType::Type => 1,
    }
}

/// The code hashes of a list of traces.
pub open spec fn code_hashes(traces: Seq<ScriptGroupTraces>) -> Seq<Seq<u8>> {
    traces.map_values(|t: ScriptGroupTraces| t.code_hash@)
}

/// The programs of a list of traces.
pub open spec fn programs(traces: Seq<ScriptGroupTraces>) -> Seq<Seq<u8>> {
    traces.map_values(|t: ScriptGroupTraces| t.machine_program_elf@)
}

/// The distinct values among the first `n` of `hs`, in order of first appearance.
pub open spec fn distinct_prefix(hs: Seq<Seq<u8>>, n: int) -> Seq<Seq<u8>>
    decreases n,
{
    if n <= 0 {
        Seq::empty()
    } else {
        let p = distinct_prefix(hs, n - 1);
        if p.contains(hs[n - 1]) {
            p
        } else {
            p.push(hs[n - 1])
        }
    }
}

/// For each distinct value among the first `n` of `hs`, in order of first
/// appearance, the entry of `elfs` at its first appearance.
pub open spec fn first_programs(hs: Seq<Seq<u8>>, elfs: Seq<Seq<u8>>, n: int) -> Seq<Seq<u8>>
    decreases n,
{
    if n <= 0 {
        Seq::empty()
    } else {
        let p = first_programs(hs, elfs, n - 1);
        if distinct_prefix(hs, n - 1).contains(hs[n - 1]) {
            p
        } else {
            p.push(elfs[n - 1])
        }
    }
}

/// The views of a list of byte vectors.
pub open spec fn byte_views(v: Seq<Vec<u8>>) -> Seq<Seq<u8>> {
    v.map_values(|b: Vec<u8>| b@)
}

/// The program table of the guest form: the distinct programs, in order of
/// the first trace that names each code hash.
pub open spec fn spec_program_table(traces: Seq<ScriptGroupTraces>) -> Seq<Seq<u8>> {
    first_programs(code_hashes(traces), programs(traces), traces.len() as int)
}

/// The position in the program table of the program of trace `i`, cut to 16 bits.
pub open spec fn spec_program_index(traces: Seq<ScriptGroupTraces>, i: int) -> u16 {
    distinct_prefix(code_hashes(traces), traces.len() as int).index_of(code_hashes(traces)[i]) as u16
}

proof fn lemma_distinct_prefix_props(hs: Seq<Seq<u8>>, elfs: Seq<Seq<u8>>, n: int)
    requires
        0 <= n <= hs.len(),
        hs.len() == elfs.len(),
    ensures
        distinct_prefix(hs, n).no_duplicates(),
        distinct_prefix(hs, n).len() == first_programs(hs, elfs, n).len(),
        forall|j: int| 0 <= j < n ==> distinct_prefix(hs, n).contains(#[trigger] hs[j]),
        forall|x: Seq<u8>| distinct_prefix(hs, n).contains(x) ==> hs.subrange(0, n).contains(x),
    decreases n,
{
    if n > 0 {
        lemma_distinct_prefix_props(hs, elfs, n - 1);
        let p = distinct_prefix(hs, n - 1);
        assert forall|j: int| 0 <= j < n implies distinct_prefix(hs, n).contains(#[trigger] hs[j]) by {
            if j < n - 1 {
                let k = choose|k: int| 0 <= k < p.len() && p[k] == hs[j];
                assert(distinct_prefix(hs, n)[k] == hs[j]);
            } else if !p.contains(hs[n - 1]) {
                assert(distinct_prefix(hs, n)[p.len() as int] == hs[j]);
            }
        }
        assert forall|x: Seq<u8>| distinct_prefix(hs, n).contains(x) implies hs.subrange(0, n).contains(x) by {
            let k = choose|k: int| 0 <= k < distinct_prefix(hs, n).len() && distinct_prefix(hs, n)[k] == x;
            if k < p.len() {
                assert(p.contains(x));
                let m = choose|m: int| 0 <= m < n - 1 && #[trigger] hs.subrange(0, n - 1)[m] == x;
                assert(hs.subrange(0, n)[m] == x);
            } else {
                assert(hs.subrange(0, n)[n - 1] == x);
            }
        }
    }
}

proof fn lemma_first_programs_match(hs: Seq<Seq<u8>>, elfs: Seq<Seq<u8>>, n: int)
    requires
        0 <= n <= hs.len(),
        hs.len() == elfs.len(),
    ensures
        forall|k: int| 0 <= k < distinct_prefix(hs, n).len() ==> exists|j: int| {
            &&& 0 <= j < n
            &&& #[trigger] distinct_prefix(hs, n)[k] == hs[j]
            &&& first_programs(hs, elfs, n)[k] == elfs[j]
            &&& forall|m: int| 0 <= m < j ==> hs[m] != hs[j]
        },
    decreases n,
{
    if n > 0 {
        lemma_first_programs_match(hs, elfs, n - 1);
        lemma_distinct_prefix_props(hs, elfs, n - 1);
        let p = distinct_prefix(hs, n - 1);
        if !p.contains(hs[n - 1]) {
            let k = p.len() as int;
            assert forall|m: int| 0 <= m < n - 1 implies #[trigger] hs[m] != hs[n - 1] by {
                assert(p.contains(hs[m]));
            }
            assert(distinct_prefix(hs, n)[k] == hs[n - 1]);
            assert(first_programs(hs, elfs, n)[k] == elfs[n - 1]);
        }
        assert forall|k: int| 0 <= k < distinct_prefix(hs, n).len() implies exists|j: int| {
            &&& 0 <= j < n
            &&& #[trigger] distinct_prefix(hs, n)[k] == hs[j]
            &&& first_programs(hs, elfs, n)[k] == elfs[j]
            &&& forall|m: int| 0 <= m < j ==> hs[m] != hs[j]
        } by {
            if k < p.len() {
                let j = choose|j: int| {
                    &&& 0 <= j < n - 1
                    &&& #[trigger] distinct_prefix(hs, n - 1)[k] == hs[j]
                    &&& first_programs(hs, elfs, n - 1)[k] == elfs[j]
                    &&& forall|m: int| 0 <= m < j ==> hs[m] != hs[j]
                };
                assert(distinct_prefix(hs, n)[k] == hs[j]);
            } else {
                assert(distinct_prefix(hs, n)[k] == hs[n - 1]);
                assert forall|m: int| 0 <= m < n - 1 implies #[trigger] hs[m] != hs[n - 1] by {
                    assert(p.contains(hs[m]));
                }
            }
        }
    }
}

/// In the guest form, each trace's program index names the program of the
/// first trace with the same code hash, provided the index fits in 16 bits
/// (that is, there are at most 65536 distinct programs).
pub proof fn lemma_program_index_names_first_program(traces: Seq<ScriptGroupTraces>, i: int)
    requires
        0 <= i < traces.len(),
        spec_program_table(traces).len() <= 65536,
    ensures
        ({
            let hs = code_hashes(traces);
            let idx = spec_program_index(traces, i) as int;
            &&& idx < spec_program_table(traces).len()
            &&& exists|j: int| {
                &&& 0 <= j <= i
                &&& hs[j] == hs[i]
                &&& #[trigger] programs(traces)[j] == spec_program_table(traces)[idx]
                &&& forall|m: int| 0 <= m < j ==> hs[m] != hs[i]
            }
        }),
{
    let hs = code_hashes(traces);
    let es = programs(traces);
    let n = traces.len() as int;
    lemma_distinct_prefix_props(hs, es, n);
    lemma_first_programs_match(hs, es, n);
    let d = distinct_prefix(hs, n);
    assert(d.contains(hs[i]));
    let k = d.index_of(hs[i]);
    assert(0 <= k < d.len() && d[k] == hs[i]);
    assert(k < 65536);
    assert(spec_program_index(traces, i) as int == k);
    let j = choose|j: int| {
        &&& 0 <= j < n
        &&& #[trigger] d[k] == hs[j]
        &&& first_programs(hs, es, n)[k] == es[j]
        &&& forall|m: int| 0 <= m < j ==> hs[m] != hs[j]
    };
    assert(j <= i) by {
        if j > i {
            assert(hs[i] != hs[j]);
        }
    }
}

/// The program table and the program position of each trace.
struct ProgramTable {
    hashes: Vec<[u8; 32]>,
    elfs: Vec<Vec<u8>>,
}

/// Position of `h` in `hashes`, if it is there.
fn find_hash(hashes: &Vec<[u8; 32]>, h: &[u8; 32]) -> (r: Option<usize>)
    ensures
        match r {
            Some(k) => k < hashes@.len() && hashes@[k as int]@ == h@
                && forall|m: int| 0 <= m < k ==> hashes@[m]@ != h@,
            None => forall|m: int| 0 <= m < hashes@.len() ==> hashes@[m]@ != h@,
        },
{
    let mut k: usize = 0;
    while k < hashes.len()
        invariant
            k <= hashes@.len(),
            forall|m: int| 0 <= m < k ==> hashes@[m]@ != h@,
        decreases hashes@.len() - k,
    {
        if bytes_eq(hashes[k].as_slice(), h.as_slice()) {
            return Some(k);
        }
        k = k + 1;
    }
    None
}

/// The views of a list of hashes.
spec fn hash_views(v: Seq<[u8; 32]>) -> Seq<Seq<u8>> {
    v.map_values(|h: [u8; 32]| h@)
}

/// Builds the program table of `traces`.
fn program_table(traces: &Vec<ScriptGroupTraces>) -> (t: ProgramTable)
    ensures
        hash_views(t.hashes@) == distinct_prefix(code_hashes(traces@), traces@.len() as int),
        byte_views(t.elfs@) == spec_program_table(traces@),
{
    let ghost hs = code_hashes(traces@);
    let ghost es = programs(traces@);
    let mut hashes: Vec<[u8; 32]> = Vec::new();
    let mut elfs: Vec<Vec<u8>> = Vec::new();
    let mut i: usize = 0;
    while i < traces.len()
        invariant
            i <= traces@.len(),
            hs == code_hashes(traces@),
            es == programs(traces@),
            hash_views(hashes@) == distinct_prefix(hs, i as int),
            byte_views(elfs@) == first_programs(hs, es, i as int),
        decreases traces@.len() - i,
    {
        let t = &traces[i];
        assert(hs[i as int] == t.code_hash@);
        match find_hash(&hashes, &t.code_hash) {
            Some(k) => {
                assert(distinct_prefix(hs, i as int)[k as int] == hs[i as int]);
                assert(distinct_prefix(hs, i as int).contains(hs[i as int]));
            },
            None => {
                assert(!distinct_prefix(hs, i as int).contains(hs[i as int])) by {
                    if distinct_prefix(hs, i as int).contains(hs[i as int]) {
                        let m = choose|m: int| 0 <= m < distinct_prefix(hs, i as int).len()
                            && distinct_prefix(hs, i as int)[m] == hs[i as int];
                        assert(hashes@[m]@ == hs[i as int]);
                    }
                }
                hashes.push(t.code_hash);
                elfs.push(copy_bytes(t.machine_program_elf.as_slice()));
                assert(hash_views(hashes@) =~= distinct_prefix(hs, i + 1));
                assert(byte_views(elfs@) =~= first_programs(hs, es, i + 1));
            },
        }
        i = i + 1;
    }
    ProgramTable { hashes, elfs }
}

/// The guest-form fields of one trace.
pub open spec fn guest_trace_fields(
    t: ScriptGroupTraces,
    version: u8,
    group_type: u8,
    script_hash: Seq<u8>,
    trace_data: Seq<u8>,
) -> bool {
    &&& version == version_byte(t.script_version)
    &&& group_type == group_type_byte(t.script_group_type)
    &&& script_hash == t.script_hash@
    &&& trace_data == t.machine_trace_data@
}

fn version_to_byte(v: ScriptVersion) -> (b: u8)
    ensures
        b == version_byte(v),
{
    match v {
        ScriptVersion::V0 => 0,
        ScriptVersion::V1 => 1,
        ScriptVersion::V2 => 2,
    }
}

fn group_type_to_byte(t: ScriptGroupType) -> (b: u8)
    ensures
        b == group_type_byte(t),
{
    match t {
        ScriptGroupType::Lock => 0,
        ScriptGroupType::Type => 1,
    }
}

/// The program position of a trace, given the table.
fn program_index(table: &ProgramTable, t: &ScriptGroupTraces, Ghost(traces): Ghost<Seq<ScriptGroupTraces>>, Ghost(i): Ghost<int>) -> (idx: u16)
    requires
        0 <= i < traces.len(),
        traces[i] == *t,
        hash_views(table.hashes@) == distinct_prefix(code_hashes(traces), traces.len() as int),
        byte_views(table.elfs@) == spec_program_table(traces),
    ensures
        idx == spec_program_index(traces, i),
{
    let ghost hs = code_hashes(traces);
    proof {
        lemma_distinct_prefix_props(hs, programs(traces), traces.len() as int);
        assert(hs[i] == t.code_hash@);
    }
    match find_hash(&table.hashes, &t.code_hash) {
        Some(k) => {
            let ghost d = distinct_prefix(hs, traces.len() as int);
            assert(d[k as int] == hs[i]);
            assert(d.index_of(hs[i]) == k) by {
                let c = d.index_of(hs[i]);
                assert(d.contains(hs[i]));
                assert(d[c] == hs[i]);
            }
            k as u16
        },
        None => {
            proof {
                let d = distinct_prefix(hs, traces.len() as int);
                assert(d.contains(hs[i]));
                let m = choose|m: int| 0 <= m < d.len() && d[m] == hs[i];
                assert(table.hashes@[m]@ == hs[i]);
            }
            0
        },
    }
}

/// The guest program's form of a self-contained proof context: the same fields.
fn guest_from_ncp(c: ncp_types::TransactionProofContext) -> (r: guest::TransactionProofContext)
    ensures
        r.raw_transaction_bytes == c.raw_transaction_bytes,
        r.machine_program_elfs == c.machine_program_elfs,
        r.vm_traces@.len() == c.vm_traces@.len(),
        forall|i: int| 0 <= i < r.vm_traces@.len() ==> {
            let g = #[trigger] r.vm_traces@[i];
            let n = c.vm_traces@[i];
            &&& g.script_version == n.script_version
            &&& g.script_group_type == n.script_group_type
            &&& g.script_hash == n.script_hash
            &&& g.machine_trace_data@ == n.machine_trace_data@
            &&& g.machine_program_elf_index == n.machine_program_elf_index
        },
{
    let mut vm_traces: Vec<guest::ScriptGroupTraces> = Vec::new();
    let mut i: usize = 0;
    while i < c.vm_traces.len()
        invariant
            i <= c.vm_traces@.len(),
            vm_traces@.len() == i,
            forall|k: int| 0 <= k < i ==> {
                let g = #[trigger] vm_traces@[k];
                let n = c.vm_traces@[k];
                &&& g.script_version == n.script_version
                &&& g.script_group_type == n.script_group_type
                &&& g.script_hash == n.script_hash
                &&& g.machine_trace_data@ == n.machine_trace_data@
                &&& g.machine_program_elf_index == n.machine_program_elf_index
            },
        decreases c.vm_traces@.len() - i,
    {
        let t = &c.vm_traces[i];
        vm_traces.push(guest::ScriptGroupTraces {
            script_version: t.script_version,
            script_group_type: t.script_group_type,
            script_hash: t.script_hash,
            machine_trace_data: copy_bytes(t.machine_trace_data.as_slice()),
            machine_program_elf_index: t.machine_program_elf_index,
        });
        i = i + 1;
    }
    guest::TransactionProofContext {
        raw_transaction_bytes: c.raw_transaction_bytes,
        vm_traces,
        machine_program_elfs: c.machine_program_elfs,
    }
}

impl TransactionProofContext {
    /// The guest-side proof context: the raw transaction, each trace with its
    /// version and group type as bytes and the position of its program, and
    /// the table of distinct programs.
    pub fn to_ncp_context(&self) -> (r: ncp_types::TransactionProofContext)
        ensures
            r.raw_transaction_bytes@ == self.transaction@,
            byte_views(r.machine_program_elfs@) == spec_program_table(self.vm_traces@),
            r.vm_traces@.len() == self.vm_traces@.len(),
            forall|i: int| 0 <= i < r.vm_traces@.len() ==> {
                let g = #[trigger] r.vm_traces@[i];
                &&& guest_trace_fields(self.vm_traces@[i], g.script_version, g.script_group_type, g.script_hash@, g.machine_trace_data@)
                &&& g.machine_program_elf_index == spec_program_index(self.vm_traces@, i)
            },
    {
        let table = program_table(&self.vm_traces);
        let mut vm_traces: Vec<ncp_types::ScriptGroupTraces> = Vec::new();
        let mut i: usize = 0;
        while i < self.vm_traces.len()
            invariant
                i <= self.vm_traces@.len(),
                hash_views(table.hashes@) == distinct_prefix(code_hashes(self.vm_traces@), self.vm_traces@.len() as int),
                byte_views(table.elfs@) == spec_program_table(self.vm_traces@),
                vm_traces@.len() == i,
                forall|k: int| 0 <= k < i ==> {
                    let g = #[trigger] vm_traces@[k];
                    &&& guest_trace_fields(self.vm_traces@[k], g.script_version, g.script_group_type, g.script_hash@, g.machine_trace_data@)
                    &&& g.machine_program_elf_index == spec_program_index(self.vm_traces@, k)
                },
            decreases self.vm_traces@.len() - i,
        {
            let t = &self.vm_traces[i];
            let idx = program_index(&table, t, Ghost(self.vm_traces@), Ghost(i as int));
            vm_traces.push(ncp_types::ScriptGroupTraces {
                script_version: version_to_byte(t.script_version),
                script_group_type: group_type_to_byte(t.script_group_type),
                script_hash: t.script_hash,
                machine_trace_data: copy_bytes(t.machine_trace_data.as_slice()),
                machine_program_elf_index: idx,
            });
            i = i + 1;
        }
        ncp_types::TransactionProofContext {
            raw_transaction_bytes: copy_bytes(self.transaction.as_slice()),
            vm_traces,
            machine_program_elfs: table.elfs,
        }
    }

    /// The same context in the guest program's own types: [`Self::to_ncp_context`], field for field.
    pub fn to_guest_context(&self) -> (r: guest::TransactionProofContext)
        ensures
            r.raw_transaction_bytes@ == self.transaction@,
            byte_views(r.machine_program_elfs@) == spec_program_table(self.vm_traces@),
            r.vm_traces@.len() == self.vm_traces@.len(),
            forall|i: int| 0 <= i < r.vm_traces@.len() ==> {
                let g = #[trigger] r.vm_traces@[i];
                &&& guest_trace_fields(self.vm_traces@[i], g.script_version, g.script_group_type, g.script_hash@, g.machine_trace_data@)
                &&& g.machine_program_elf_index == spec_program_index(self.vm_traces@, i)
            },
    {
        guest_from_ncp(self.to_ncp_context())
    }
}

} // verus!
