//! The decisions of the host's replay driver.
//!
//! The driver fetches a transaction, enumerates its script groups, records
//! each group's syscalls and hands the traces to the guest.  This module
//! holds the parts of that drive that decide: how a transaction hash is
//! spelled, which groups are traced, and what is recorded for each.
use crate::chain::{ScriptGroup, ScriptGroupType, ScriptVersion};
use crate::collect_vm_creation::CollectorKey;
use crate::text::{copy_bytes, push_char};
use crate::type_id::{is_type_id_group, spec_is_type_id_script};
use crate::types::error::HostError;
use crate::tx_converter::{spec_is_cellbase, TransactionRefs};
use crate::types::types::ScriptGroupTraces;
use crate::verifier_context::ElfIndex;
use vstd::prelude::*;
use vstd::string::StrSliceExecFns;
use vstd::string::StringExecFns;

verus! {

/// A hash spelled with the `0x` prefix: as given if it has one, else with it added.
pub open spec fn spec_prefixed_hash(h: Seq<char>) -> Seq<char> {
    if h.len() >= 2 && h[0] == '0' && h[1] == 'x' {
        h
    } else {
        seq!['0', 'x'] + h
    }
}

/// Spells `tx_hash` with the `0x` prefix that the node expects.
pub fn normalize_tx_hash(tx_hash: &str) -> (r: String)
    ensures
        r@ == spec_prefixed_hash(tx_hash@),
{
    let n = tx_hash.unicode_len();
    if n >= 2 && tx_hash.get_char(0) == '0' && tx_hash.get_char(1) == 'x' {
        return String::from_str(tx_hash);
    }
    let mut r = String::new();
    push_char(&mut r, '0');
    push_char(&mut r, 'x');
    r.append(tx_hash);
    assert(r@ =~= seq!['0', 'x'] + tx_hash@);
    r
}

/// What the driver does with a fetched transaction.
#[derive(Clone, Copy, Debug, PartialEq, Eq, Structural)]
pub enum ReplayDecision {
    /// A cellbase: it has no input cells and no scripts to run, so nothing is replayed.
    SkipCellbase,
    /// Every other transaction: its scripts are traced and replayed.
    Replay,
}

/// Decides whether a fetched transaction is replayed: a cellbase is skipped,
/// every other transaction is replayed.
pub fn replay_decision(refs: &TransactionRefs) -> (d: ReplayDecision)
    ensures
        d == (if spec_is_cellbase(*refs) {
            ReplayDecision::SkipCellbase
        } else {
            ReplayDecision::Replay
        }),
{
    if refs.is_cellbase() {
        ReplayDecision::SkipCellbase
    } else {
        ReplayDecision::Replay
    }
}

/// One script group of a transaction, as the verifier enumerates it.
pub struct GroupMetadata {
    /// Lock or type group.
    pub group_type: ScriptGroupType,
    /// Hash of the group's script.
    pub script_hash: [u8; 32],
    /// The group.
    pub group: ScriptGroup,
    /// The VM version the group's script runs under.
    pub version: ScriptVersion,
}

/// Whether a group's syscalls are collected: every group but Type ID groups,
/// which are built in and have no program.
pub fn should_trace(meta: &GroupMetadata) -> (b: bool)
    ensures
        b == !spec_is_type_id_script(meta.group.script),
{
    !is_type_id_group(&meta.group)
}

/// `t` is what is recorded for group `meta`: its version, type, script hash
/// and code hash, the root VM's syscall trace `root`, and its program as
/// `programs` holds it under the script's code hash.
pub open spec fn trace_matches(t: ScriptGroupTraces, meta: GroupMetadata, programs: Map<Seq<u8>, Seq<u8>>, root: Seq<u8>) -> bool {
    &&& programs.contains_key(meta.group.script.code_hash@)
    &&& t.machine_program_elf@ == programs[meta.group.script.code_hash@]
    &&& t.script_version == meta.version
    &&& t.script_group_type == meta.group_type
    &&& t.script_hash@ == meta.script_hash@
    &&& t.code_hash@ == meta.group.script.code_hash@
    &&& t.machine_trace_data@ == root
}

/// What is recorded for a traced group: its version, type, script hash and
/// code hash, the syscall trace of its root VM (empty when the root VM left
/// none), and its program, found by the script's code hash.  Fails with
/// `ProgramElfNotFound` when no cell dependency holds the program.
pub fn group_traces(meta: &GroupMetadata, programs: &ElfIndex, root_trace: Option<&[u8]>) -> (r: Result<ScriptGroupTraces, HostError>)
    requires
        programs.wf(),
    ensures
        match r {
            Ok(t) => trace_matches(t, *meta, programs@, match root_trace {
                Some(d) => d@,
                None => Seq::empty(),
            }),
            Err(e) => !programs@.contains_key(meta.group.script.code_hash@) && e is ProgramElfNotFound,
        },
{
    let elf = match programs.get_program_elf(&meta.group.script) {
        Ok(elf) => elf,
        Err(e) => return Err(e),
    };
    let data = match root_trace {
        Some(d) => copy_bytes(d),
        None => Vec::new(),
    };
    Ok(ScriptGroupTraces {
        script_version: meta.version,
        script_group_type: meta.group_type,
        script_hash: meta.script_hash,
        code_hash: meta.group.script.code_hash,
        machine_trace_data: data,
        machine_program_elf: elf,
    })
}

/// The syscalls one VM of a script run recorded.
pub struct VmSyscallTrace {
    /// The VM.
    pub key: CollectorKey,
    /// Its recorded syscalls, serialized.
    pub data: Vec<u8>,
}

/// Position of the first trace of the root VM, searching from `start`.
pub open spec fn root_pos(ts: Seq<VmSyscallTrace>, start: int) -> Option<int>
    decreases ts.len() - start,
{
    if start < 0 || start >= ts.len() {
        None
    } else if ts[start].key == (CollectorKey { vm_id: 0, generation_id: 0 }) {
        Some(start)
    } else {
        root_pos(ts, start + 1)
    }
}

/// The root VM's recorded syscalls: those of the first trace keyed
/// `{ vm_id: 0, generation_id: 0 }`, or nothing when there is none.
pub open spec fn spec_root_trace(ts: Seq<VmSyscallTrace>) -> Seq<u8> {
    match root_pos(ts, 0) {
        Some(i) => ts[i].data@,
        None => Seq::empty(),
    }
}

proof fn lemma_root_pos(ts: Seq<VmSyscallTrace>, start: int)
    ensures
        root_pos(ts, start) matches Some(i) ==> 0 <= start <= i < ts.len(),
    decreases ts.len() - start,
{
    if 0 <= start < ts.len() {
        lemma_root_pos(ts, start + 1);
    }
}

/// The root VM's recorded syscalls among the traces of a script run.
pub fn root_trace(ts: &Vec<VmSyscallTrace>) -> (r: Vec<u8>)
    ensures
        r@ == spec_root_trace(ts@),
{
    let mut i: usize = 0;
    while i < ts.len()
        invariant
            i <= ts@.len(),
            root_pos(ts@, 0) == root_pos(ts@, i as int),
        decreases ts@.len() - i,
    {
        if ts[i].key.vm_id == 0 && ts[i].key.generation_id == 0 {
            proof {
                lemma_root_pos(ts@, 0);
            }
            return copy_bytes(ts[i].data.as_slice());
        }
        i = i + 1;
    }
    Vec::new()
}

/// Positions of the groups among the first `n` that are traced, in order.
pub open spec fn traced_groups(groups: Seq<GroupMetadata>, n: int) -> Seq<int>
    decreases n,
{
    if n <= 0 {
        Seq::empty()
    } else if spec_is_type_id_script(groups[n - 1].group.script) {
        traced_groups(groups, n - 1)
    } else {
        traced_groups(groups, n - 1).push(n - 1)
    }
}

proof fn lemma_traced_prefix(groups: Seq<GroupMetadata>, i: int, n: int)
    requires
        0 <= i <= n,
    ensures
        traced_groups(groups, i).len() <= traced_groups(groups, n).len(),
        traced_groups(groups, n).subrange(0, traced_groups(groups, i).len() as int) == traced_groups(groups, i),
    decreases n - i,
{
    if i < n {
        lemma_traced_prefix(groups, i, n - 1);
        assert(traced_groups(groups, n).subrange(0, traced_groups(groups, i).len() as int)
            =~= traced_groups(groups, n - 1).subrange(0, traced_groups(groups, i).len() as int));
    } else {
        assert(traced_groups(groups, n).subrange(0, traced_groups(groups, n).len() as int) =~= traced_groups(groups, n));
    }
}

/// The traces of a transaction's script groups, given what each group's run
/// recorded (`collected[i]` for group `i`; ignored for untraced groups): for
/// every group but the Type ID groups, in order, what is recorded for it
/// with its root VM's syscalls.  Fails with `ProgramElfNotFound` exactly when
/// some traced group's program is not among the cell dependencies.
pub fn accumulate_traces(groups: &Vec<GroupMetadata>, programs: &ElfIndex, collected: &Vec<Vec<VmSyscallTrace>>) -> (r: Result<Vec<ScriptGroupTraces>, HostError>)
    requires
        programs.wf(),
        collected@.len() == groups@.len(),
    ensures
        ({
            let traced = traced_groups(groups@, groups@.len() as int);
            match r {
                Ok(v) => {
                    &&& v@.len() == traced.len()
                    &&& forall|k: int| 0 <= k < v@.len() ==> trace_matches(
                        #[trigger] v@[k],
                        groups@[traced[k]],
                        programs@,
                        spec_root_trace(collected@[traced[k]]@),
                    )
                },
                Err(e) => {
                    &&& e is ProgramElfNotFound
                    &&& exists|k: int| 0 <= k < traced.len()
                        && !programs@.contains_key(groups@[#[trigger] traced[k]].group.script.code_hash@)
                },
            }
        }),
{
    let mut out: Vec<ScriptGroupTraces> = Vec::new();
    let mut i: usize = 0;
    while i < groups.len()
        invariant
            i <= groups@.len(),
            collected@.len() == groups@.len(),
            programs.wf(),
            out@.len() == traced_groups(groups@, i as int).len(),
            forall|k: int| 0 <= k < out@.len() ==> trace_matches(
                #[trigger] out@[k],
                groups@[traced_groups(groups@, i as int)[k]],
                programs@,
                spec_root_trace(collected@[traced_groups(groups@, i as int)[k]]@),
            ),
        decreases groups@.len() - i,
    {
        let ghost before = traced_groups(groups@, i as int);
        if should_trace(&groups[i]) {
            let root = root_trace(&collected[i]);
            match group_traces(&groups[i], programs, Some(root.as_slice())) {
                Ok(t) => {
                    out.push(t);
                    assert(traced_groups(groups@, i + 1) == before.push(i as int));
                },
                Err(e) => {
                    proof {
                        let all = traced_groups(groups@, groups@.len() as int);
                        lemma_traced_prefix(groups@, i + 1, groups@.len() as int);
                        assert(traced_groups(groups@, i + 1) == before.push(i as int));
                        assert(all.subrange(0, before.len() + 1 as int)[before.len() as int] == i as int);
                        assert(all[before.len() as int] == i as int);
                    }
                    return Err(e);
                },
            }
        } else {
            assert(traced_groups(groups@, i + 1) == before);
        }
        i = i + 1;
    }
    Ok(out)
}

/// Spelling a hash with its prefix is idempotent: a spelled hash is left as it is.
pub proof fn lemma_prefixed_hash_idempotent(h: Seq<char>)
    ensures
        spec_prefixed_hash(spec_prefixed_hash(h)) == spec_prefixed_hash(h),
{
}

} // verus!
