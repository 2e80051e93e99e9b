//! Plain-value models of the CKB chain data that the host logic reads.
use crate::text::bytes_eq;
use ckb_types::prelude::{Builder, Entity, Pack};
use vstd::bytes::spec_u32_to_le_bytes;
use vstd::prelude::*;

verus! {

/// A reference to one output of a transaction.
#[derive(Clone, Copy, Debug)]
pub struct OutPoint {
    /// Hash of the transaction that created the cell.
    pub tx_hash: [u8; 32],
    /// Position of the cell among that transaction's outputs.
    pub index: u32,
}

/// How a cell dependency is to be used.
#[derive(Clone, Copy, Debug, PartialEq, Eq, Structural)]
pub enum DepType {
    /// The cell holds code directly.
    Code,
    /// The cell lists, as an `OutPointVec`, the cells it stands for.
    DepGroup,
}

/// A cell dependency of a transaction.
#[derive(Clone, Copy, Debug)]
pub struct CellDep {
    /// The cell.
    pub out_point: OutPoint,
    /// How the cell is used.
    pub dep_type: DepType,
}

/// A lock or type script.
#[derive(Debug)]
pub struct Script {
    /// Hash that selects the code.
    pub code_hash: [u8; 32],
    /// How `code_hash` selects the code (the raw `hash_type` byte).
    pub hash_type: u8,
    /// Arguments of the script.
    pub args: Vec<u8>,
}

/// Whether a script group holds lock scripts or type scripts.
#[derive(Clone, Copy, Debug, PartialEq, Eq, Structural)]
pub enum ScriptGroupType {
    /// Lock scripts.
    Lock,
    /// Type scripts.
    Type,
}

/// The CKB-VM version a script runs under.
#[derive(Clone, Copy, Debug, PartialEq, Eq, Structural)]
pub enum ScriptVersion {
    /// The first version.
    V0,
    /// The 2021 hard fork version.
    V1,
    /// The 2023 hard fork version.
    V2,
}

/// A group of cells that share one script.
#[derive(Debug)]
pub struct ScriptGroup {
    /// The shared script.
    pub script: Script,
    /// Whether the script is the cells' lock or type script.
    pub group_type: ScriptGroupType,
}

/// The CKB Blake2b-256 hash of `data`.
pub uninterp spec fn spec_blake2b_256(data: Seq<u8>) -> Seq<u8>;

/// The molecule encoding of a script with the given fields: a table of
/// three fields, that is its total size and the offsets of the fields (each
/// a little-endian `u32`), then the 32-byte code hash, the hash-type byte, and
/// the arguments as `Bytes` (their length as a little-endian `u32`, then the
/// bytes).  Sizes are cut to 32 bits, as the encoder does.
pub open spec fn script_molecule(code_hash: Seq<u8>, hash_type: u8, args: Seq<u8>) -> Seq<u8> {
    spec_u32_to_le_bytes((53 + args.len()) as u32) + spec_u32_to_le_bytes(16u32) + spec_u32_to_le_bytes(48u32)
        + spec_u32_to_le_bytes(49u32) + code_hash + seq![hash_type] + spec_u32_to_le_bytes(args.len() as u32)
        + args
}

/// The hash of a script with the given fields: the Blake2b hash of its
/// molecule encoding.
pub open spec fn spec_script_hash(code_hash: Seq<u8>, hash_type: u8, args: Seq<u8>) -> Seq<u8> {
    spec_blake2b_256(script_molecule(code_hash, hash_type, args))
}

/// Calls `ckb_hash::blake2b_256`, which returns the 32-byte CKB-personalised
/// Blake2b digest of `data`, a function of `data` alone.
#[verifier::external_body]
pub fn blake2b_256(data: &[u8]) -> (h: [u8; 32])
    ensures
        h@ == spec_blake2b_256(data@),
{
    ckb_hash::blake2b_256(data)
}

/// Builds a `ckb_types::packed::Script` from the fields of `script` and calls
/// its `calc_script_hash`, which is `ckb_hash::blake2b_256` of the script's
/// molecule encoding, [`script_molecule`].
#[verifier::external_body]
pub fn calc_script_hash(script: &Script) -> (h: [u8; 32])
    ensures
        h@ == spec_script_hash(script.code_hash@, script.hash_type, script.args@),
{
    let packed = ckb_types::packed::Script::new_builder()
        .code_hash(script.code_hash.pack())
        .hash_type(script.hash_type)
        .args(script.args.as_slice().pack())
        .build();
    packed.calc_script_hash().as_reader().into()
}

/// Whether two out points name the same cell.
pub fn out_point_eq(a: &OutPoint, b: &OutPoint) -> (r: bool)
    ensures
        r == (a.tx_hash@ == b.tx_hash@ && a.index == b.index),
{
    a.index == b.index && bytes_eq(a.tx_hash.as_slice(), b.tx_hash.as_slice())
}

} // verus!
