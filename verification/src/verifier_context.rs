//! The parts of setting up script verification that choose data: where a
//! script's program lives and which epoch selects a script version.
use crate::chain::{
    blake2b_256, calc_script_hash, out_point_eq, spec_blake2b_256, spec_script_hash,
    OutPoint, Script, ScriptVersion,
};
use crate::text::{bytes_eq, copy_bytes, with_detail};
use crate::types::error::HostError;
use vstd::prelude::*;

verus! {

/// A resolved cell dependency: its out point and, if loaded, the cell's data.
pub struct ResolvedCellDep {
    /// The dependency's out point.
    pub out_point: OutPoint,
    /// The cell's data, when it was loaded.
    pub data: Option<Vec<u8>>,
}

/// A cell dependency of a mock transaction, as the code lookup reads it:
/// the dependency's out point, the cell's data, and the cell's type script,
/// if it has one.
pub struct MockCellDep {
    /// The dependency's out point.
    pub out_point: OutPoint,
    /// The cell's data.
    pub data: Vec<u8>,
    /// The cell's type script.
    pub type_script: Option<Script>,
}

/// The type-script hash of a cell, if it has a type script.
pub open spec fn type_hash_of(dep: MockCellDep) -> Option<Seq<u8>> {
    match dep.type_script {
        Some(s) => Some(spec_script_hash(s.code_hash@, s.hash_type, s.args@)),
        None => None,
    }
}

/// The map from hash to program built from the first `n` cell dependencies:
/// each dependency's data is entered under the hash of the data and, if the
/// cell has a type script, under the type script's hash; later entries
/// replace earlier ones.
pub open spec fn spec_elf_map(deps: Seq<MockCellDep>, n: int) -> Map<Seq<u8>, Seq<u8>>
    decreases n,
{
    if n <= 0 {
        Map::empty()
    } else {
        let d = deps[n - 1];
        let m = spec_elf_map(deps, n - 1).insert(spec_blake2b_256(d.data@), d.data@);
        match type_hash_of(d) {
            Some(h) => m.insert(h, d.data@),
            None => m,
        }
    }
}

/// Programs of a transaction's cell dependencies, keyed by data hash (for
/// scripts that name their code by data hash) and by type-script hash (for
/// scripts that name it by type).
pub struct ElfIndex {
    entries: Vec<([u8; 32], Vec<u8>)>,
}

/// The map that a list of entries stands for.
pub open spec fn entries_map(entries: Seq<([u8; 32], Vec<u8>)>) -> Map<Seq<u8>, Seq<u8>> {
    Map::new(
        |k: Seq<u8>| exists|i: int| 0 <= i < entries.len() && (#[trigger] entries[i]).0@ == k,
        |k: Seq<u8>| entries[choose|i: int| 0 <= i < entries.len() && (#[trigger] entries[i]).0@ == k].1@,
    )
}

/// No key occurs twice.
pub open spec fn keys_distinct(entries: Seq<([u8; 32], Vec<u8>)>) -> bool {
    forall|i: int, j: int|
        0 <= i < entries.len() && 0 <= j < entries.len() && i != j ==> (#[trigger] entries[i]).0@ != (#[trigger] entries[j]).0@
}

impl View for ElfIndex {
    type V = Map<Seq<u8>, Seq<u8>>;

    closed spec fn view(&self) -> Map<Seq<u8>, Seq<u8>> {
        entries_map(self.entries@)
    }
}

/// The epoch `(number, index, length)` at which a script version is the one in force.
pub open spec fn spec_verifier_epoch(version: ScriptVersion) -> (u64, u64, u64) {
    match version {
        ScriptVersion::V0 => (15, 0, 1),
        ScriptVersion::V1 => (25, 0, 1),
        ScriptVersion::V2 => (35, 0, 1),
    }
}

/// The epoch, as `(number, index, length)`, whose header selects `version`
/// under the verifier's hard-fork settings (CKB2021 from epoch 20, CKB2023
/// from epoch 30).
pub fn verifier_epoch(version: ScriptVersion) -> (e: (u64, u64, u64))
    ensures
        e == spec_verifier_epoch(version),
{
    match version {
        ScriptVersion::V0 => (15, 0, 1),
        ScriptVersion::V1 => (25, 0, 1),
        ScriptVersion::V2 => (35, 0, 1),
    }
}

impl ElfIndex {
    /// The internal invariant: each hash is entered once.
    pub closed spec fn wf(&self) -> bool {
        keys_distinct(self.entries@)
    }

    /// Position of `key` among the entries.
    fn position(&self, key: &[u8]) -> (r: Option<usize>)
        requires
            self.wf(),
        ensures
            match r {
                Some(i) => i < self.entries@.len() && self.entries@[i as int].0@ == key@,
                None => !self@.contains_key(key@),
            },
    {
        let mut i: usize = 0;
        while i < self.entries.len()
            invariant
                i <= self.entries@.len(),
                forall|k: int| 0 <= k < i ==> self.entries@[k].0@ != key@,
            decreases self.entries@.len() - i,
        {
            if bytes_eq(self.entries[i].0.as_slice(), key) {
                return Some(i);
            }
            i = i + 1;
        }
        None
    }

    /// Enters `data` under `key`, replacing what was there.
    fn insert(&mut self, key: [u8; 32], data: Vec<u8>)
        requires
            old(self).wf(),
        ensures
            final(self).wf(),
            final(self)@ == old(self)@.insert(key@, data@),
    {
        let ghost before = self.entries@;
        match self.position(key.as_slice()) {
            Some(i) => {
                self.entries.set(i, (key, data));
                assert(entries_map(self.entries@) =~= entries_map(before).insert(key@, data@)) by {
                    assert forall|k: Seq<u8>| #[trigger] entries_map(self.entries@).contains_key(k)
                        == entries_map(before).insert(key@, data@).contains_key(k) by {
                        if k == key@ {
                            assert(self.entries@[i as int].0@ == k);
                        } else if entries_map(before).contains_key(k) {
                            let j = choose|j: int| 0 <= j < before.len() && (#[trigger] before[j]).0@ == k;
                            assert(self.entries@[j].0@ == k);
                        }
                    }
                    assert forall|k: Seq<u8>| entries_map(self.entries@).contains_key(k) implies
                        #[trigger] entries_map(self.entries@)[k] == entries_map(before).insert(key@, data@)[k] by {
                        let j = choose|j: int| 0 <= j < self.entries@.len() && (#[trigger] self.entries@[j]).0@ == k;
                        if k != key@ {
                            let j2 = choose|j2: int| 0 <= j2 < before.len() && (#[trigger] before[j2]).0@ == k;
                            assert(j == j2);
                        }
                    }
                }
            },
            None => {
                self.entries.push((key, data));
                assert(entries_map(self.entries@) =~= entries_map(before).insert(key@, data@)) by {
                    assert forall|k: Seq<u8>| #[trigger] entries_map(self.entries@).contains_key(k)
                        == entries_map(before).insert(key@, data@).contains_key(k) by {
                        if k == key@ {
                            assert(self.entries@[before.len() as int].0@ == k);
                        } else if entries_map(before).contains_key(k) {
                            let j = choose|j: int| 0 <= j < before.len() && (#[trigger] before[j]).0@ == k;
                            assert(self.entries@[j].0@ == k);
                        }
                    }
                    assert forall|k: Seq<u8>| entries_map(self.entries@).contains_key(k) implies
                        #[trigger] entries_map(self.entries@)[k] == entries_map(before).insert(key@, data@)[k] by {
                        let j = choose|j: int| 0 <= j < self.entries@.len() && (#[trigger] self.entries@[j]).0@ == k;
                        if k != key@ {
                            let j2 = choose|j2: int| 0 <= j2 < before.len() && (#[trigger] before[j2]).0@ == k;
                            assert(self.entries@[j2].0@ == k);
                            assert(j == j2);
                        } else {
                            assert(self.entries@[before.len() as int].0@ == k);
                        }
                    }
                }
            },
        }
    }

    /// Indexes the programs of a transaction's cell dependencies: each
    /// dependency's data under the Blake2b hash of the data and, for a cell
    /// with a type script, under the hash of that script.
    pub fn from_cell_deps(cell_deps: &Vec<MockCellDep>) -> (r: Self)
        ensures
            r.wf(),
            r@ == spec_elf_map(cell_deps@, cell_deps@.len() as int),
    {
        let mut index = ElfIndex { entries: Vec::new() };
        assert(index@ =~= Map::<Seq<u8>, Seq<u8>>::empty());
        let mut i: usize = 0;
        while i < cell_deps.len()
            invariant
                i <= cell_deps@.len(),
                index.wf(),
                index@ == spec_elf_map(cell_deps@, i as int),
            decreases cell_deps@.len() - i,
        {
            let dep = &cell_deps[i];
            let data_hash = blake2b_256(dep.data.as_slice());
            index.insert(data_hash, copy_bytes(dep.data.as_slice()));
            match &dep.type_script {
                Some(script) => {
                    let type_hash = calc_script_hash(script);
                    index.insert(type_hash, copy_bytes(dep.data.as_slice()));
                },
                None => {},
            }
            i = i + 1;
        }
        index
    }

    /// The program indexed under the code hash of `script`.
    pub fn get_program_elf(&self, script: &Script) -> (r: Result<Vec<u8>, HostError>)
        requires
            self.wf(),
        ensures
            match r {
                Ok(elf) => self@.contains_key(script.code_hash@) && elf@ == self@[script.code_hash@],
                Err(e) => !self@.contains_key(script.code_hash@) && e is ProgramElfNotFound,
            },
    {
        match self.position(script.code_hash.as_slice()) {
            Some(i) => {
                proof {
                    let k = script.code_hash@;
                    let j = choose|j: int| 0 <= j < self.entries@.len() && (#[trigger] self.entries@[j]).0@ == k;
                    assert(j == i);
                }
                Ok(copy_bytes(self.entries[i].1.as_slice()))
            },
            None => Err(HostError::ProgramElfNotFound),
        }
    }
}


/// Every program found under a hash was entered under that hash by some cell
/// dependency: the hash is that of the dependency's data or of its type
/// script, and the program is the dependency's data.
pub proof fn lemma_indexed_program_comes_from_a_dep(deps: Seq<MockCellDep>, n: int, key: Seq<u8>)
    requires
        0 <= n <= deps.len(),
        spec_elf_map(deps, n).contains_key(key),
    ensures
        exists|i: int| 0 <= i < n && {
            &&& spec_blake2b_256((#[trigger] deps[i]).data@) == key || type_hash_of(deps[i]) == Some(key)
            &&& spec_elf_map(deps, n)[key] == deps[i].data@
        },
    decreases n,
{
    let d = deps[n - 1];
    let m = spec_elf_map(deps, n - 1).insert(spec_blake2b_256(d.data@), d.data@);
    if type_hash_of(d) == Some(key) || spec_blake2b_256(d.data@) == key {
        assert(spec_elf_map(deps, n)[key] == deps[n - 1].data@);
    } else {
        lemma_indexed_program_comes_from_a_dep(deps, n - 1, key);
        let i = choose|i: int| 0 <= i < n - 1 && {
            &&& spec_blake2b_256((#[trigger] deps[i]).data@) == key || type_hash_of(deps[i]) == Some(key)
            &&& spec_elf_map(deps, n - 1)[key] == deps[i].data@
        };
        assert(spec_elf_map(deps, n)[key] == spec_elf_map(deps, n - 1)[key]);
    }
}

/// Hash types that name code by the hash of a cell's data (`data`, `data1`, `data2`).
pub open spec fn is_data_hash_type(b: u8) -> bool {
    b == 0 || b == 2 || b == 4
}

/// The hash-type bytes CKB accepts: `type` (1) and every even byte.
pub open spec fn is_known_hash_type(b: u8) -> bool {
    b == 1 || b % 2 == 0
}

/// The first cell dependency, from `start` on, that `matches` selects.
pub open spec fn first_dep_from(deps: Seq<MockCellDep>, start: int, matches: spec_fn(MockCellDep) -> bool) -> Option<OutPoint>
    decreases deps.len() - start,
{
    if start < 0 || start >= deps.len() {
        None
    } else if matches(deps[start]) {
        Some(deps[start].out_point)
    } else {
        first_dep_from(deps, start + 1, matches)
    }
}

/// The out point of the first cell dependency that holds the code of a
/// script with this code hash and hash type: by data hash for the data hash
/// types, by type-script hash for `type`; `None` for other hash types.
pub open spec fn spec_code_out_point(deps: Seq<MockCellDep>, code_hash: Seq<u8>, hash_type: u8) -> Option<OutPoint> {
    if is_data_hash_type(hash_type) {
        first_dep_from(deps, 0, |d: MockCellDep| spec_blake2b_256(d.data@) == code_hash)
    } else if hash_type == 1 {
        first_dep_from(deps, 0, |d: MockCellDep| type_hash_of(d) == Some(code_hash))
    } else {
        None
    }
}

/// Calls `ckb_types::core::ScriptHashType::try_from` on `hash_type` and
/// formats its error with `Debug`.  Its source fails exactly for the odd
/// bytes above 1; nothing is promised of the text.
#[verifier::external_body]
fn hash_type_error_debug(hash_type: u8) -> (s: String)
    requires
        !is_known_hash_type(hash_type),
{
    format!("{:?}", ckb_types::core::ScriptHashType::try_from(hash_type).unwrap_err())
}

/// Position of the first cell dependency holding the code of `script`,
/// whose hash type names code by data hash or by type.
fn find_code_dep(cell_deps: &Vec<MockCellDep>, script: &Script) -> (r: Option<usize>)
    requires
        is_data_hash_type(script.hash_type) || script.hash_type == 1,
    ensures
        match r {
            Some(i) => i < cell_deps@.len() && spec_code_out_point(cell_deps@, script.code_hash@, script.hash_type)
                == Some(cell_deps@[i as int].out_point),
            None => spec_code_out_point(cell_deps@, script.code_hash@, script.hash_type) is None,
        },
{
    let ht = script.hash_type;
    let by_data = ht == 0 || ht == 2 || ht == 4;
    let ghost matches = if by_data {
        |d: MockCellDep| spec_blake2b_256(d.data@) == script.code_hash@
    } else {
        |d: MockCellDep| type_hash_of(d) == Some(script.code_hash@)
    };
    let mut i: usize = 0;
    while i < cell_deps.len()
        invariant
            i <= cell_deps@.len(),
            by_data == is_data_hash_type(ht),
            ht == script.hash_type,
            by_data || ht == 1,
            matches == (if by_data {
                |d: MockCellDep| spec_blake2b_256(d.data@) == script.code_hash@
            } else {
                |d: MockCellDep| type_hash_of(d) == Some(script.code_hash@)
            }),
            first_dep_from(cell_deps@, 0, matches) == first_dep_from(cell_deps@, i as int, matches),
        decreases cell_deps@.len() - i,
    {
        let dep = &cell_deps[i];
        let hit = if by_data {
            let h = blake2b_256(dep.data.as_slice());
            bytes_eq(h.as_slice(), script.code_hash.as_slice())
        } else {
            match &dep.type_script {
                Some(ts) => {
                    let h = calc_script_hash(ts);
                    bytes_eq(h.as_slice(), script.code_hash.as_slice())
                },
                None => false,
            }
        };
        assert(hit == matches(cell_deps@[i as int]));
        if hit {
            return Some(i);
        }
        i = i + 1;
    }
    None
}

/// The out point of the cell dependency that holds the code of `script`:
/// the first whose data hash (hash types `data`, `data1`, `data2`) or
/// type-script hash (`type`) is the script's code hash.  Such a dependency
/// must exist; [`script_code_out_point`] tells whether it does.
pub fn code_out_point(cell_deps: &Vec<MockCellDep>, script: &Script) -> (r: OutPoint)
    requires
        is_data_hash_type(script.hash_type) || script.hash_type == 1,
        spec_code_out_point(cell_deps@, script.code_hash@, script.hash_type) is Some,
    ensures
        Some(r) == spec_code_out_point(cell_deps@, script.code_hash@, script.hash_type),
{
    match find_code_dep(cell_deps, script) {
        Some(i) => cell_deps[i].out_point,
        None => {
            proof {
                assert(false);
            }
            OutPoint { tx_hash: [0u8; 32], index: 0 }
        },
    }
}

/// Looks for the cell dependency that holds the code of `script`.  A byte
/// that is no hash type is a script error.  For `data`, `data1`, `data2` and
/// `type`, the result is [`code_out_point`] when some dependency holds the
/// code, and `None` when none does; for the later data versions, which the
/// replay does not support, it is `None`.
pub fn script_code_out_point(cell_deps: &Vec<MockCellDep>, script: &Script) -> (r: Result<Option<OutPoint>, HostError>)
    ensures
        match r {
            Ok(found) => is_known_hash_type(script.hash_type)
                && found == spec_code_out_point(cell_deps@, script.code_hash@, script.hash_type),
            Err(e) => !is_known_hash_type(script.hash_type) && (e matches HostError::ScriptError(m)
                && m@.len() >= "invalid script hash type: "@.len()
                && m@.subrange(0, "invalid script hash type: "@.len() as int) == "invalid script hash type: "@),
        },
{
    let ht = script.hash_type;
    if !(ht == 1 || ht % 2 == 0) {
        let detail = hash_type_error_debug(ht);
        let m = with_detail("invalid script hash type: ", &detail);
        assert(m@.subrange(0, "invalid script hash type: "@.len() as int) =~= "invalid script hash type: "@);
        return Err(HostError::ScriptError(m));
    }
    let by_data = ht == 0 || ht == 2 || ht == 4;
    if !by_data && ht != 1 {
        return Ok(None);
    }
    match find_code_dep(cell_deps, script) {
        Some(_) => Ok(Some(code_out_point(cell_deps, script))),
        None => Ok(None),
    }
}

/// The loaded data of the first resolved dependency at `target`.
pub open spec fn spec_resolved_data(resolved: Seq<ResolvedCellDep>, target: OutPoint, start: int) -> Option<Seq<u8>>
    decreases resolved.len() - start,
{
    if start < 0 || start >= resolved.len() {
        None
    } else if resolved[start].out_point.tx_hash@ == target.tx_hash@ && resolved[start].out_point.index == target.index {
        match resolved[start].data {
            Some(d) => Some(d@),
            None => None,
        }
    } else {
        spec_resolved_data(resolved, target, start + 1)
    }
}

/// The program of a script: the data of the first resolved dependency at
/// the script's code out point, or `ProgramElfNotFound` when there is no such
/// dependency or its data was not loaded.
pub fn resolved_program(resolved: &Vec<ResolvedCellDep>, target: &OutPoint) -> (r: Result<Vec<u8>, HostError>)
    ensures
        match r {
            Ok(elf) => spec_resolved_data(resolved@, *target, 0) == Some(elf@),
            Err(e) => spec_resolved_data(resolved@, *target, 0) is None && e is ProgramElfNotFound,
        },
{
    let mut i: usize = 0;
    while i < resolved.len()
        invariant
            i <= resolved@.len(),
            spec_resolved_data(resolved@, *target, 0) == spec_resolved_data(resolved@, *target, i as int),
        decreases resolved@.len() - i,
    {
        let e = &resolved[i];
        if out_point_eq(&e.out_point, target) {
            return match &e.data {
                Some(d) => Ok(copy_bytes(d.as_slice())),
                None => Err(HostError::ProgramElfNotFound),
            };
        }
        i = i + 1;
    }
    Err(HostError::ProgramElfNotFound)
}

} // verus!
