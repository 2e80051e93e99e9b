//! Setting up script verification for a mock transaction: resolving it,
//! indexing the programs of its cell dependencies, enumerating its script
//! groups with the VM version each runs under, and finding a script's
//! program among the resolved dependencies.
//!
//! The outside work (resolution, consensus rules, the verifier's group
//! table and version selection) is done by `ckb-mock-tx-types`, `ckb-types`,
//! `ckb-chain-spec` and `ckb-script`; this module drives it and decides
//! what comes out.
use crate::chain::{Script, ScriptGroup, ScriptGroupType, ScriptVersion};
use crate::host::GroupMetadata;
use crate::text::{copy_bytes, with_detail};
use crate::types::error::HostError;
use crate::verifier_env::{
    ckb2021_from, ckb2023_from, committed_epoch_number, consensus_with, select_version, selected_version, tx_env_at,
    verifier_groups, EpochEnv, ForkConsensus,
};
use crate::verifier_context::{
    code_out_point, is_data_hash_type, is_known_hash_type, resolved_program, script_code_out_point,
    spec_code_out_point, spec_elf_map, spec_resolved_data, spec_verifier_epoch, verifier_epoch, ElfIndex,
    MockCellDep, ResolvedCellDep,
};
use ckb_mock_tx_types::{MockTransaction, Resource};
use ckb_types::prelude::{Builder, Entity, Pack, Reader, Unpack};
use vstd::prelude::*;
use vstd::string::StringExecFns;

verus! {

/// `ckb_mock_tx_types::Resource`, carried opaquely.
#[verifier::external_type_specification]
#[verifier::external_body]
pub struct ExResource(ckb_mock_tx_types::Resource);

/// `ckb_types::core::cell::ResolvedTransaction`, carried opaquely.
#[verifier::external_type_specification]
#[verifier::external_body]
pub struct ExResolvedTransaction(ckb_types::core::cell::ResolvedTransaction);

/// The cell dependencies a mock transaction carries (`mock_info.cell_deps`),
/// in order, as the code lookup reads them.
pub uninterp spec fn spec_mock_cell_deps(mock: MockTransaction) -> Seq<MockCellDep>;

/// The resolved cell dependencies of a resolved transaction
/// (`resolved_cell_deps`), in order.
pub uninterp spec fn spec_resolved_cell_deps(rtx: ckb_types::core::cell::ResolvedTransaction) -> Seq<ResolvedCellDep>;

/// Returns the length of `mock.mock_info.cell_deps`.
#[verifier::external_body]
fn mock_cell_dep_count(mock: &MockTransaction) -> (n: usize)
    ensures
        n == spec_mock_cell_deps(*mock).len(),
{
    mock.mock_info.cell_deps.len()
}

/// Converts `mock.mock_info.cell_deps[i]`: its out point, its data, and the
/// fields of its output's type script, if any.
#[verifier::external_body]
fn mock_cell_dep_at(mock: &MockTransaction, i: usize) -> (d: MockCellDep)
    requires
        i < spec_mock_cell_deps(*mock).len(),
    ensures
        d == spec_mock_cell_deps(*mock)[i as int],
{
    let d = &mock.mock_info.cell_deps[i];
    let op = d.cell_dep.out_point();
    MockCellDep {
        out_point: crate::chain::OutPoint { tx_hash: op.tx_hash().as_reader().into(), index: op.index().unpack() },
        data: d.data.to_vec(),
        type_script: d.output.type_().to_opt().map(|s| Script {
            code_hash: s.code_hash().as_reader().into(),
            hash_type: s.hash_type().into(),
            args: s.args().raw_data().to_vec(),
        }),
    }
}

/// Returns the length of `rtx.resolved_cell_deps`.
#[verifier::external_body]
fn resolved_dep_count(rtx: &ckb_types::core::cell::ResolvedTransaction) -> (n: usize)
    ensures
        n == spec_resolved_cell_deps(*rtx).len(),
{
    rtx.resolved_cell_deps.len()
}

/// Converts `rtx.resolved_cell_deps[i]`: its out point and its loaded data.
#[verifier::external_body]
fn resolved_dep_at(rtx: &ckb_types::core::cell::ResolvedTransaction, i: usize) -> (d: ResolvedCellDep)
    requires
        i < spec_resolved_cell_deps(*rtx).len(),
    ensures
        d == spec_resolved_cell_deps(*rtx)[i as int],
{
    let e = &rtx.resolved_cell_deps[i];
    ResolvedCellDep {
        out_point: crate::chain::OutPoint {
            tx_hash: e.out_point.tx_hash().as_reader().into(),
            index: e.out_point.index().unpack(),
        },
        data: e.mem_cell_data.as_ref().map(|d| d.to_vec()),
    }
}

/// Calls `Resource::from_mock_tx`, which gathers the cells, headers and
/// extensions of `mock`; its failure becomes `VerifierResource` with the
/// reported text.
#[verifier::external_body]
fn mock_resource(mock: &MockTransaction) -> (r: Result<Resource, HostError>)
    ensures
        r matches Err(e) ==> e is VerifierResource,
{
    Resource::from_mock_tx(mock).map_err(HostError::VerifierResource)
}

/// Calls `ckb_types::core::cell::resolve_transaction` on `mock`'s
/// transaction, with `resource` as cell provider and header checker and no
/// inputs seen before; its failure becomes `VerifierOutpointError` with the
/// error's text.
#[verifier::external_body]
fn resolve(mock: &MockTransaction, resource: &Resource) -> (r: Result<ckb_types::core::cell::ResolvedTransaction, HostError>)
    ensures
        r matches Err(e) ==> e is VerifierOutpointError,
{
    let mut seen = std::collections::HashSet::new();
    ckb_types::core::cell::resolve_transaction(mock.core_transaction(), &mut seen, resource, resource)
        .map_err(|e| HostError::VerifierOutpointError(e.to_string()))
}

/// Whether a script with hash type `hash_type` may run under `version`, as
/// `ckb_script`'s `select_version` decides for every consensus: `data` runs
/// under V0, `data1` under V1, `data2` under V2, and `type` under the
/// newest version the consensus enables at the transaction's epoch.
pub open spec fn version_fits(hash_type: u8, version: ScriptVersion) -> bool {
    if hash_type == 0 {
        version == ScriptVersion::V0
    } else if hash_type == 2 {
        version == ScriptVersion::V1
    } else if hash_type == 4 {
        version == ScriptVersion::V2
    } else {
        hash_type == 1
    }
}

fn clone_script(s: &Script) -> (r: Script)
    ensures
        r.code_hash == s.code_hash,
        r.hash_type == s.hash_type,
        r.args@ == s.args@,
{
    Script { code_hash: s.code_hash, hash_type: s.hash_type, args: copy_bytes(s.args.as_slice()) }
}

/// The epoch from which the verifier's consensus runs VM version 1 (the CKB2021 hard fork).
pub const VM1_EPOCH: u64 = 20;

/// The epoch from which the verifier's consensus runs VM version 2 (the CKB2023 hard fork).
pub const VM2_EPOCH: u64 = 30;

/// The consensus scripts are verified under: the default consensus with VM
/// version 1 from epoch [`VM1_EPOCH`] and VM version 2 from epoch
/// [`VM2_EPOCH`].  A hard fork that cannot be built is a
/// `VerifierContextCreation` error.
pub fn verifier_consensus() -> (r: Result<ForkConsensus, HostError>)
    ensures
        r matches Ok(c) ==> c.vm1_epoch() == VM1_EPOCH && c.vm2_epoch() == VM2_EPOCH,
        r matches Err(e) ==> e is VerifierContextCreation,
{
    let ckb2021 = match ckb2021_from(VM1_EPOCH) {
        Ok(h) => h,
        Err(m) => return Err(HostError::VerifierContextCreation(with_detail("CKB2021 build failed: ", &m))),
    };
    let ckb2023 = match ckb2023_from(VM2_EPOCH) {
        Ok(h) => h,
        Err(m) => return Err(HostError::VerifierContextCreation(with_detail("CKB2023 build failed: ", &m))),
    };
    Ok(consensus_with(ckb2021, ckb2023))
}

/// The environment of a transaction committed in the epoch that selects
/// `version` ([`verifier_epoch`]).
pub fn verifier_tx_env(version: ScriptVersion) -> (e: EpochEnv)
    ensures
        e.epoch() == spec_verifier_epoch(version),
{
    let (number, index, length) = verifier_epoch(version);
    tx_env_at(number, index, length)
}

/// The cell dependencies of `mock`, in order.
pub fn mock_cell_deps(mock: &MockTransaction) -> (r: Vec<MockCellDep>)
    ensures
        r@ == spec_mock_cell_deps(*mock),
{
    let n = mock_cell_dep_count(mock);
    let mut r: Vec<MockCellDep> = Vec::new();
    let mut i: usize = 0;
    while i < n
        invariant
            n == spec_mock_cell_deps(*mock).len(),
            i <= n,
            r@ == spec_mock_cell_deps(*mock).subrange(0, i as int),
        decreases n - i,
    {
        r.push(mock_cell_dep_at(mock, i));
        i = i + 1;
        assert(r@ =~= spec_mock_cell_deps(*mock).subrange(0, i as int));
    }
    assert(spec_mock_cell_deps(*mock).subrange(0, n as int) =~= spec_mock_cell_deps(*mock));
    r
}

/// The resolved cell dependencies of `rtx`, in order.
pub fn resolved_cell_deps(rtx: &ckb_types::core::cell::ResolvedTransaction) -> (r: Vec<ResolvedCellDep>)
    ensures
        r@ == spec_resolved_cell_deps(*rtx),
{
    let n = resolved_dep_count(rtx);
    let mut r: Vec<ResolvedCellDep> = Vec::new();
    let mut i: usize = 0;
    while i < n
        invariant
            n == spec_resolved_cell_deps(*rtx).len(),
            i <= n,
            r@ == spec_resolved_cell_deps(*rtx).subrange(0, i as int),
        decreases n - i,
    {
        r.push(resolved_dep_at(rtx, i));
        i = i + 1;
        assert(r@ =~= spec_resolved_cell_deps(*rtx).subrange(0, i as int));
    }
    assert(spec_resolved_cell_deps(*rtx).subrange(0, n as int) =~= spec_resolved_cell_deps(*rtx));
    r
}

/// Resolves `mock`: first its resource (cells, headers, extensions), whose
/// failure is a `VerifierResource` error, then its transaction against that
/// resource, whose failure is a `VerifierOutpointError`.
pub fn resolve_mock_transaction(mock: &MockTransaction) -> (r: Result<(Resource, ckb_types::core::cell::ResolvedTransaction), HostError>)
    ensures
        r matches Err(e) ==> e is VerifierResource || e is VerifierOutpointError,
{
    let resource = match mock_resource(mock) {
        Ok(x) => x,
        Err(e) => return Err(e),
    };
    match resolve(mock, &resource) {
        Ok(rtx) => Ok((resource, rtx)),
        Err(e) => Err(e),
    }
}

/// The VM version a group whose script has hash type `hash_type` runs under
/// when set up with `epoch_version` selecting the epoch, under the
/// verifier's consensus; `None` where version selection fails.
pub open spec fn group_version(hash_type: u8, epoch_version: ScriptVersion) -> Option<ScriptVersion> {
    selected_version(hash_type, committed_epoch_number(spec_verifier_epoch(epoch_version)), VM1_EPOCH, VM2_EPOCH)
}

/// The epoch chosen for a script version is one at which that version is the
/// newest enabled: scripts of hash type `type` run under exactly that
/// version, `data` scripts under V0, and `data1` and `data2` scripts under
/// their own versions exactly when those are not newer.
pub proof fn lemma_epoch_selects_its_version(v: ScriptVersion)
    ensures
        group_version(1, v) == Some(v),
        group_version(0, v) == Some(ScriptVersion::V0),
        group_version(2, v) == (if v == ScriptVersion::V0 { None } else { Some(ScriptVersion::V1) }),
        group_version(4, v) == (if v == ScriptVersion::V2 { Some(ScriptVersion::V2) } else { None }),
{
}

/// Pairs each enumerated group `found[k]` (its type, script hash and script)
/// with the VM version it runs under: one entry per enumerated group, in the
/// same order, carrying that group's type, script hash and script.  Fails
/// with `ScriptError` exactly when some group's version cannot be selected.
pub fn versioned_groups(
    found: &Vec<(ScriptGroupType, [u8; 32], Script)>,
    rtx: &ckb_types::core::cell::ResolvedTransaction,
    resource: &Resource,
    consensus: &ForkConsensus,
    env: &EpochEnv,
) -> (r: Result<Vec<GroupMetadata>, HostError>)
    ensures
        ({
            let n = committed_epoch_number(env.epoch());
            match r {
                Ok(gs) => {
                    &&& gs@.len() == found@.len()
                    &&& forall|k: int| 0 <= k < gs@.len() ==> {
                        let f = found@[k];
                        &&& (#[trigger] gs@[k]).group_type == f.0
                        &&& gs@[k].script_hash == f.1
                        &&& gs@[k].group.group_type == f.0
                        &&& gs@[k].group.script.code_hash == f.2.code_hash
                        &&& gs@[k].group.script.hash_type == f.2.hash_type
                        &&& gs@[k].group.script.args@ == f.2.args@
                        &&& selected_version(f.2.hash_type, n, consensus.vm1_epoch(), consensus.vm2_epoch())
                            == Some(gs@[k].version)
                    }
                },
                Err(e) => e is ScriptError && exists|k: int| 0 <= k < found@.len() && selected_version(
                    (#[trigger] found@[k]).2.hash_type,
                    n,
                    consensus.vm1_epoch(),
                    consensus.vm2_epoch(),
                ) is None,
            }
        }),
{
    let ghost n = committed_epoch_number(env.epoch());
    let mut gs: Vec<GroupMetadata> = Vec::new();
    let mut i: usize = 0;
    while i < found.len()
        invariant
            i <= found@.len(),
            n == committed_epoch_number(env.epoch()),
            gs@.len() == i,
            forall|k: int| 0 <= k < gs@.len() ==> {
                let f = found@[k];
                &&& (#[trigger] gs@[k]).group_type == f.0
                &&& gs@[k].script_hash == f.1
                &&& gs@[k].group.group_type == f.0
                &&& gs@[k].group.script.code_hash == f.2.code_hash
                &&& gs@[k].group.script.hash_type == f.2.hash_type
                &&& gs@[k].group.script.args@ == f.2.args@
                &&& selected_version(f.2.hash_type, n, consensus.vm1_epoch(), consensus.vm2_epoch())
                    == Some(gs@[k].version)
            },
        decreases found@.len() - i,
    {
        let (group_type, script_hash, script) = &found[i];
        let version = match select_version(rtx, resource, consensus, env, script) {
            Ok(v) => v,
            Err(e) => {
                assert(found@[i as int].2 == *script);
                return Err(e);
            },
        };
        gs.push(GroupMetadata {
            group_type: *group_type,
            script_hash: *script_hash,
            group: ScriptGroup { script: clone_script(script), group_type: *group_type },
            version,
        });
        i = i + 1;
    }
    Ok(gs)
}

/// The script groups of a resolved transaction, lock groups first, each with
/// its type, script hash and script and the VM version it runs under; a
/// group whose version cannot be selected is a `ScriptError`.
pub fn script_groups(
    rtx: &ckb_types::core::cell::ResolvedTransaction,
    resource: &Resource,
    consensus: &ForkConsensus,
    env: &EpochEnv,
) -> (r: Result<Vec<GroupMetadata>, HostError>)
    ensures
        match r {
            Ok(gs) => forall|k: int| 0 <= k < gs@.len() ==> {
                &&& version_fits((#[trigger] gs@[k]).group.script.hash_type, gs@[k].version)
                &&& gs@[k].group.group_type == gs@[k].group_type
                &&& selected_version(
                    gs@[k].group.script.hash_type,
                    committed_epoch_number(env.epoch()),
                    consensus.vm1_epoch(),
                    consensus.vm2_epoch(),
                ) == Some(gs@[k].version)
            },
            Err(e) => e is ScriptError,
        },
{
    let found = verifier_groups(rtx, resource, consensus, env);
    let r = versioned_groups(&found, rtx, resource, consensus, env);
    proof {
        if r is Ok {
            let gs = r->Ok_0;
            assert forall|k: int| 0 <= k < gs@.len() implies version_fits(
                (#[trigger] gs@[k]).group.script.hash_type,
                gs@[k].version,
            ) by {
                assert(found@[k].2.hash_type == gs@[k].group.script.hash_type);
            }
        }
    }
    r
}

/// What script verification of a mock transaction works with: its resource
/// and resolved transaction, the consensus and environment, the programs of
/// its cell dependencies, and its script groups.
pub struct VerifierSetup {
    /// The cells, headers and extensions of the mock transaction.
    pub resource: Resource,
    /// The resolved transaction.
    pub resolved: ckb_types::core::cell::ResolvedTransaction,
    /// The consensus.
    pub consensus: ckb_chain_spec::consensus::Consensus,
    /// The verification environment.
    pub tx_env: ckb_script::TxVerifyEnv,
    /// The programs of the cell dependencies, by data hash and type hash.
    pub programs: ElfIndex,
    /// The script groups with their VM versions.
    pub groups: Vec<GroupMetadata>,
}

/// Sets up verification of `mock` with the script version `epoch_version`
/// selecting the epoch: resolves the transaction, indexes the programs of
/// its cell dependencies ([`spec_elf_map`]), and lists its script groups
/// with their VM versions.  Fails as resolution, the consensus or version
/// selection fails, in that order.
pub fn group_context(mock: &MockTransaction, epoch_version: ScriptVersion) -> (r: Result<VerifierSetup, HostError>)
    ensures
        match r {
            Ok(s) => {
                &&& s.programs.wf()
                &&& s.programs@ == spec_elf_map(spec_mock_cell_deps(*mock), spec_mock_cell_deps(*mock).len() as int)
                &&& forall|k: int| 0 <= k < s.groups@.len() ==> {
                    &&& version_fits((#[trigger] s.groups@[k]).group.script.hash_type, s.groups@[k].version)
                    &&& s.groups@[k].group.group_type == s.groups@[k].group_type
                    &&& group_version(s.groups@[k].group.script.hash_type, epoch_version) == Some(s.groups@[k].version)
                }
            },
            Err(e) => e is VerifierResource || e is VerifierOutpointError || e is VerifierContextCreation
                || e is ScriptError,
        },
{
    let (resource, resolved) = match resolve_mock_transaction(mock) {
        Ok(x) => x,
        Err(e) => return Err(e),
    };
    let deps = mock_cell_deps(mock);
    let programs = ElfIndex::from_cell_deps(&deps);
    let consensus = match verifier_consensus() {
        Ok(c) => c,
        Err(e) => return Err(e),
    };
    let tx_env = verifier_tx_env(epoch_version);
    let groups = match script_groups(&resolved, &resource, &consensus, &tx_env) {
        Ok(g) => g,
        Err(e) => return Err(e),
    };
    Ok(VerifierSetup {
        resource,
        resolved,
        consensus: consensus.into_consensus(),
        tx_env: tx_env.into_env(),
        programs,
        groups,
    })
}

/// What finding the program of `script` gives, when the script's code can
/// be looked up: a script error for a byte that is no hash type; otherwise
/// the loaded data of the first resolved dependency at the code's out point
/// ([`spec_code_out_point`]), or `ProgramElfNotFound` when there is none.
pub open spec fn program_found(
    deps: Seq<MockCellDep>,
    resolved: Seq<ResolvedCellDep>,
    script: Script,
    r: Result<Vec<u8>, HostError>,
) -> bool {
    if !is_known_hash_type(script.hash_type) {
        r matches Err(e) && e is ScriptError
    } else {
        let op = spec_code_out_point(deps, script.code_hash@, script.hash_type).unwrap();
        match r {
            Ok(elf) => spec_resolved_data(resolved, op, 0) == Some(elf@),
            Err(e) => e is ProgramElfNotFound && spec_resolved_data(resolved, op, 0) is None,
        }
    }
}

/// The program of `script` for verifying `mock`, resolved as `rtx`: found
/// through the cell dependency that holds its code, which must exist when
/// the hash type is known.
pub fn verifier_program_elf(mock: &MockTransaction, rtx: &ckb_types::core::cell::ResolvedTransaction, script: &Script) -> (r: Result<Vec<u8>, HostError>)
    requires
        is_known_hash_type(script.hash_type) ==> spec_code_out_point(
            spec_mock_cell_deps(*mock),
            script.code_hash@,
            script.hash_type,
        ) is Some,
    ensures
        program_found(spec_mock_cell_deps(*mock), spec_resolved_cell_deps(*rtx), *script, r),
{
    let deps = mock_cell_deps(mock);
    match script_code_out_point(&deps, script) {
        Err(e) => Err(e),
        Ok(Some(op)) => resolved_program(&resolved_cell_deps(rtx), &op),
        Ok(None) => {
            proof {
                assert(false);
            }
            Err(HostError::ProgramElfNotFound)
        },
    }
}

/// Looks for the program of `script` for verifying `mock`, resolved as
/// `rtx`: `None` when the hash type is known but no cell dependency holds
/// the code (or it is a later data version); otherwise what
/// [`verifier_program_elf`] gives.
pub fn find_verifier_program_elf(mock: &MockTransaction, rtx: &ckb_types::core::cell::ResolvedTransaction, script: &Script) -> (r: Result<Option<Vec<u8>>, HostError>)
    ensures
        ({
            let deps = spec_mock_cell_deps(*mock);
            let lookable = !is_known_hash_type(script.hash_type)
                || spec_code_out_point(deps, script.code_hash@, script.hash_type) is Some;
            &&& (r matches Ok(None)) <==> !lookable
            &&& lookable ==> program_found(deps, spec_resolved_cell_deps(*rtx), *script, match r {
                Ok(Some(elf)) => Ok(elf),
                Ok(None) => Err(HostError::ProgramElfNotFound),
                Err(e) => Err(e),
            })
        }),
{
    let ht = script.hash_type;
    if ht == 1 || ht % 2 == 0 {
        let deps = mock_cell_deps(mock);
        match script_code_out_point(&deps, script) {
            Ok(Some(_)) => {},
            _ => return Ok(None),
        }
    }
    match verifier_program_elf(mock, rtx, script) {
        Ok(elf) => Ok(Some(elf)),
        Err(e) => Err(e),
    }
}

} // verus!
