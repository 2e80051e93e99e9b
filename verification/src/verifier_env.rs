//! The consensus and the verification environment scripts are checked
//! under, each kept together with the hard-fork epochs or the epoch it was
//! built for, and the calls into the script verifier that depend on them.
//!
//! The values can only be made here, by the calls that build them, so the
//! epochs recorded beside them are the ones they were built with.
use crate::chain::{Script, ScriptGroupType, ScriptVersion};
use crate::types::error::HostError;
use ckb_chain_spec::consensus::Consensus;
use ckb_mock_tx_types::Resource;
use ckb_script::TxVerifyEnv;
use ckb_types::prelude::{Builder, Entity, Pack, Reader};
use vstd::prelude::*;

verus! {

/// `ckb_chain_spec::consensus::Consensus`, carried opaquely.
#[verifier::external_type_specification]
#[verifier::external_body]
pub struct ExConsensus(ckb_chain_spec::consensus::Consensus);

/// `ckb_script::TxVerifyEnv`, carried opaquely.
#[verifier::external_type_specification]
#[verifier::external_body]
pub struct ExTxVerifyEnv(ckb_script::TxVerifyEnv);

/// `ckb_types::core::hardfork::CKB2021`, carried opaquely.
#[verifier::external_type_specification]
#[verifier::external_body]
pub struct ExCkb2021(ckb_types::core::hardfork::CKB2021);

/// `ckb_types::core::hardfork::CKB2023`, carried opaquely.
#[verifier::external_type_specification]
#[verifier::external_body]
pub struct ExCkb2023(ckb_types::core::hardfork::CKB2023);

/// The CKB2021 hard fork, with the epoch from which it enables VM version 1.
pub struct HardFork2021 {
    fork: ckb_types::core::hardfork::CKB2021,
    vm1_epoch: u64,
}

/// The CKB2023 hard fork, with the epoch from which it enables VM version 2.
pub struct HardFork2023 {
    fork: ckb_types::core::hardfork::CKB2023,
    vm2_epoch: u64,
}

/// A consensus, with the epochs from which it enables VM versions 1 and 2.
pub struct ForkConsensus {
    consensus: Consensus,
    vm1_epoch: u64,
    vm2_epoch: u64,
}

/// A verification environment, with the epoch `(number, index, length)` of
/// the header it was built from.
pub struct EpochEnv {
    env: TxVerifyEnv,
    number: u64,
    index: u64,
    length: u64,
}

impl HardFork2021 {
    /// The epoch from which VM version 1 is enabled.
    pub closed spec fn vm1_epoch(&self) -> u64 {
        self.vm1_epoch
    }
}

impl HardFork2023 {
    /// The epoch from which VM version 2 is enabled.
    pub closed spec fn vm2_epoch(&self) -> u64 {
        self.vm2_epoch
    }
}

impl ForkConsensus {
    /// The epoch from which VM version 1 is enabled.
    pub closed spec fn vm1_epoch(&self) -> u64 {
        self.vm1_epoch
    }

    /// The epoch from which VM version 2 is enabled.
    pub closed spec fn vm2_epoch(&self) -> u64 {
        self.vm2_epoch
    }

    /// The consensus itself.
    pub fn consensus(&self) -> &Consensus {
        &self.consensus
    }

    /// The consensus itself, by value.
    pub fn into_consensus(self) -> Consensus {
        self.consensus
    }
}

impl EpochEnv {
    /// The epoch `(number, index, length)` the environment was built for.
    pub closed spec fn epoch(&self) -> (u64, u64, u64) {
        (self.number, self.index, self.length)
    }

    /// The environment itself.
    pub fn env(&self) -> &TxVerifyEnv {
        &self.env
    }

    /// The environment itself, by value.
    pub fn into_env(self) -> TxVerifyEnv {
        self.env
    }
}

/// The epoch number a transaction committed at epoch `(number, index,
/// length)` is checked at: `number`, or the next epoch when `index` is not
/// below `length`.
pub open spec fn committed_epoch_number(epoch: (u64, u64, u64)) -> int {
    if epoch.1 >= epoch.2 {
        epoch.0 + 1
    } else {
        epoch.0 as int
    }
}

/// The VM version a script with hash type `hash_type` runs under at epoch
/// number `epoch_number`, when VM version 1 is enabled from `vm1_epoch` and
/// VM version 2 from `vm2_epoch`: `data` under V0; `data1` under V1 and
/// `data2` under V2, once enabled; `type` under the newest enabled version;
/// `None` where no version is allowed.
pub open spec fn selected_version(hash_type: u8, epoch_number: int, vm1_epoch: u64, vm2_epoch: u64) -> Option<ScriptVersion> {
    let v1 = epoch_number >= vm1_epoch;
    let v2 = epoch_number >= vm2_epoch;
    if hash_type == 0 {
        Some(ScriptVersion::V0)
    } else if hash_type == 2 {
        if v1 { Some(ScriptVersion::V1) } else { None }
    } else if hash_type == 4 {
        if v2 { Some(ScriptVersion::V2) } else { None }
    } else if hash_type == 1 {
        if v2 {
            Some(ScriptVersion::V2)
        } else if v1 {
            Some(ScriptVersion::V1)
        } else {
            Some(ScriptVersion::V0)
        }
    } else {
        None
    }
}

/// Calls `CKB2021::new_mirana().as_builder().rfc_0032(epoch).build()`: the
/// CKB2021 hard fork, which enables VM version 1 from `epoch` on
/// (`is_vm_version_1_and_syscalls_2_enabled` is `epoch_number >= rfc_0032`).
/// On failure, the builder's error in its `Debug` form.
#[verifier::external_body]
pub(crate) fn ckb2021_from(epoch: u64) -> (r: Result<HardFork2021, String>)
    ensures
        r matches Ok(f) ==> f.vm1_epoch() == epoch,
{
    match ckb_types::core::hardfork::CKB2021::new_mirana().as_builder().rfc_0032(epoch).build() {
        Ok(fork) => Ok(HardFork2021 { fork, vm1_epoch: epoch }),
        Err(e) => Err(format!("{:?}", e)),
    }
}

/// Calls `CKB2023::new_mirana().as_builder().rfc_0049(epoch).build()`: the
/// CKB2023 hard fork, which enables VM version 2 from `epoch` on
/// (`is_vm_version_2_and_syscalls_3_enabled` is `epoch_number >= rfc_0049`).
/// On failure, the builder's error in its `Debug` form.
#[verifier::external_body]
pub(crate) fn ckb2023_from(epoch: u64) -> (r: Result<HardFork2023, String>)
    ensures
        r matches Ok(f) ==> f.vm2_epoch() == epoch,
{
    match ckb_types::core::hardfork::CKB2023::new_mirana().as_builder().rfc_0049(epoch).build() {
        Ok(fork) => Ok(HardFork2023 { fork, vm2_epoch: epoch }),
        Err(e) => Err(format!("{:?}", e)),
    }
}

/// Calls `ConsensusBuilder::default().hardfork_switch(..).build()` with the
/// two hard forks: the default consensus, whose `hardfork_switch()` is the
/// two hard forks as given.
#[verifier::external_body]
pub(crate) fn consensus_with(ckb2021: HardFork2021, ckb2023: HardFork2023) -> (c: ForkConsensus)
    ensures
        c.vm1_epoch() == ckb2021.vm1_epoch(),
        c.vm2_epoch() == ckb2023.vm2_epoch(),
{
    let hardforks = ckb_types::core::hardfork::HardForks { ckb2021: ckb2021.fork, ckb2023: ckb2023.fork };
    let consensus = ckb_chain_spec::consensus::ConsensusBuilder::default().hardfork_switch(hardforks).build();
    ForkConsensus { consensus, vm1_epoch: ckb2021.vm1_epoch, vm2_epoch: ckb2023.vm2_epoch }
}

/// Calls `TxVerifyEnv::new_commit` on a header whose epoch is `number`
/// and `index / length`: the environment of a transaction committed in that
/// epoch.  `EpochNumberWithFraction::new` debug-asserts the three bounds,
/// within which the header's packed epoch reads back as given.
#[verifier::external_body]
pub(crate) fn tx_env_at(number: u64, index: u64, length: u64) -> (e: EpochEnv)
    requires
        number < 0x100_0000,
        index < 0x1_0000,
        0 < length < 0x1_0000,
    ensures
        e.epoch() == (number, index, length),
{
    let epoch = ckb_types::core::EpochNumberWithFraction::new(number, index, length);
    let header = ckb_types::core::HeaderView::new_advanced_builder().epoch(epoch.pack()).build();
    EpochEnv { env: TxVerifyEnv::new_commit(&header), number, index, length }
}

/// Calls `TransactionScriptsVerifier::new` and `groups_with_type`: the
/// transaction's lock groups, then its type groups, each converted to its
/// type, script hash and script.
#[verifier::external_body]
pub(crate) fn verifier_groups(
    rtx: &ckb_types::core::cell::ResolvedTransaction,
    resource: &Resource,
    consensus: &ForkConsensus,
    env: &EpochEnv,
) -> (r: Vec<(ScriptGroupType, [u8; 32], Script)>) {
    let verifier: ckb_script::TransactionScriptsVerifier<Resource> = ckb_script::TransactionScriptsVerifier::new(
        std::sync::Arc::new(rtx.clone()), resource.clone(),
        std::sync::Arc::new(consensus.consensus.clone()), std::sync::Arc::new(env.env.clone()),
    );
    verifier.groups_with_type().map(|(t, h, g)| (match t {
        ckb_script::ScriptGroupType::Lock => ScriptGroupType::Lock,
        ckb_script::ScriptGroupType::Type => ScriptGroupType::Type,
    }, h.as_reader().into(), Script {
        code_hash: g.script.code_hash().as_reader().into(), hash_type: g.script.hash_type().into(),
        args: g.script.args().raw_data().to_vec(),
    })).collect()
}

/// Builds a `ckb_types::packed::Script` from `script` and calls
/// `TransactionScriptsVerifier::select_version` on it.  Its source reads the
/// environment's epoch number (`epoch_number_without_proposal_window`, for a
/// committed transaction [`committed_epoch_number`]) and the consensus's two
/// hard forks, and decides as [`selected_version`] says; a failure becomes
/// `ScriptError` with the error's text.
#[verifier::external_body]
pub(crate) fn select_version(
    rtx: &ckb_types::core::cell::ResolvedTransaction,
    resource: &Resource,
    consensus: &ForkConsensus,
    env: &EpochEnv,
    script: &Script,
) -> (r: Result<ScriptVersion, HostError>)
    ensures
        ({
            let chosen = selected_version(
                script.hash_type,
                committed_epoch_number(env.epoch()),
                consensus.vm1_epoch(),
                consensus.vm2_epoch(),
            );
            match r {
                Ok(v) => chosen == Some(v),
                Err(e) => chosen is None && e is ScriptError,
            }
        }),
{
    let verifier: ckb_script::TransactionScriptsVerifier<Resource> = ckb_script::TransactionScriptsVerifier::new(
        std::sync::Arc::new(rtx.clone()), resource.clone(),
        std::sync::Arc::new(consensus.consensus.clone()), std::sync::Arc::new(env.env.clone()),
    );
    let packed = ckb_types::packed::Script::new_builder().code_hash(script.code_hash.pack())
        .hash_type(script.hash_type).args(script.args.as_slice().pack()).build();
    match verifier.select_version(&packed) {
        Ok(ckb_script::ScriptVersion::V0) => Ok(ScriptVersion::V0),
        Ok(ckb_script::ScriptVersion::V1) => Ok(ScriptVersion::V1),
        Ok(ckb_script::ScriptVersion::V2) => Ok(ScriptVersion::V2),
        Err(e) => Err(HostError::ScriptError(e.to_string())),
    }
}

} // verus!
