//! Type ID script support.
//!
//! CKB's Type ID is a built-in script with no on-chain binary: the node runs
//! it natively for scripts whose code hash is the Type ID code hash and whose
//! hash type is `type`.  Such groups have no program to trace.
use crate::chain::{Script, ScriptGroup};
use crate::text::bytes_eq;
use vstd::prelude::*;

verus! {

/// The Type ID code hash: 25 zero bytes followed by the ASCII bytes of `"TYPE_ID"`.
pub open spec fn spec_type_id_code_hash() -> Seq<u8> {
    Seq::new(25, |i: int| 0u8) + seq![0x54u8, 0x59u8, 0x50u8, 0x45u8, 0x5fu8, 0x49u8, 0x44u8]
}

/// Returns the bytes of `ckb_chain_spec::consensus::TYPE_ID_CODE_HASH`, which
/// its source defines as `h256!("0x545950455f4944")`: the trimmed hex is
/// right-aligned, giving 25 zero bytes and then `"TYPE_ID"`.
#[verifier::external_body]
fn type_id_code_hash() -> (h: [u8; 32])
    ensures
        h@ == spec_type_id_code_hash(),
{
    ckb_chain_spec::consensus::TYPE_ID_CODE_HASH.0
}

/// A Type ID script: the Type ID code hash, with hash type `type` (1).
pub open spec fn spec_is_type_id_script(script: Script) -> bool {
    script.code_hash@ == spec_type_id_code_hash() && script.hash_type == 1
}

/// Whether `script` is a Type ID script (built in, with no binary).
pub fn is_type_id_script(script: &Script) -> (b: bool)
    ensures
        b == spec_is_type_id_script(*script),
{
    let h = type_id_code_hash();
    bytes_eq(script.code_hash.as_slice(), h.as_slice()) && script.hash_type == 1
}

/// Whether a script group is a Type ID group, which has no trace to collect.
pub fn is_type_id_group(group: &ScriptGroup) -> (b: bool)
    ensures
        b == spec_is_type_id_script(group.script),
{
    is_type_id_script(&group.script)
}

/// `ckb_mock_tx_types::MockTransaction`, carried opaquely.
#[verifier::external_type_specification]
#[verifier::external_body]
pub struct ExMockTransaction(ckb_mock_tx_types::MockTransaction);

/// Leaves `mock_tx` as it is: Type ID groups are not given a program to
/// run, they are left out of trace collection instead ([`is_type_id_group`]).
pub fn inject_type_id_if_needed(mock_tx: &mut ckb_mock_tx_types::MockTransaction)
    ensures
        *final(mock_tx) == *old(mock_tx),
{
}

} // verus!
