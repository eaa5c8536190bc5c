use vstd::prelude::*;

use crate::primitives::H256;

verus! {

/// The hashes of the verification keys of the recursion levels below the
/// scheduler.
#[derive(Clone, Copy, Debug, PartialEq, Eq)]
pub struct VerifierParams {
    pub recursion_node_level_vk_hash: H256,
    pub recursion_leaf_level_vk_hash: H256,
    pub recursion_circuits_set_vks_hash: H256,
}

/// The verifier configuration that a protocol version is stored with.
#[derive(Clone, Copy, Debug, PartialEq, Eq)]
pub struct L1VerifierConfig {
    pub params: VerifierParams,
    pub recursion_scheduler_level_vk_hash: H256,
}

/// The hash that the 32 stored bytes stand for.
pub fn h256_from_slice(bytes: &Vec<u8>) -> (h: H256)
    requires
        bytes@.len() == 32,
    ensures
        h.bytes@ == bytes@,
{
    let mut out = [0u8; 32];
    let mut i: usize = 0;
    while i < 32
        invariant
            i <= 32,
            bytes@.len() == 32,
            forall|j: int| 0 <= j < i ==> out@[j] == bytes@[j],
        decreases 32 - i,
    {
        out[i] = bytes[i];
        i += 1;
    }
    assert(out@ =~= bytes@);
    H256 { bytes: out }
}

/// Whether the four columns of a stored protocol version each hold a hash.
pub fn is_verifier_config_row(
    scheduler_level: &Vec<u8>,
    node_level: &Vec<u8>,
    leaf_level: &Vec<u8>,
    circuits_set: &Vec<u8>,
) -> (ok: bool)
    ensures
        ok == (scheduler_level@.len() == 32 && node_level@.len() == 32 && leaf_level@.len() == 32
            && circuits_set@.len() == 32),
{
    scheduler_level.len() == 32 && node_level.len() == 32 && leaf_level.len() == 32
        && circuits_set.len() == 32
}

/// The verifier configuration that the four columns of a stored protocol version
/// hold.
pub fn l1_verifier_config_from_row(
    scheduler_level: &Vec<u8>,
    node_level: &Vec<u8>,
    leaf_level: &Vec<u8>,
    circuits_set: &Vec<u8>,
) -> (config: L1VerifierConfig)
    requires
        scheduler_level@.len() == 32,
        node_level@.len() == 32,
        leaf_level@.len() == 32,
        circuits_set@.len() == 32,
    ensures
        config.recursion_scheduler_level_vk_hash.bytes@ == scheduler_level@,
        config.params.recursion_node_level_vk_hash.bytes@ == node_level@,
        config.params.recursion_leaf_level_vk_hash.bytes@ == leaf_level@,
        config.params.recursion_circuits_set_vks_hash.bytes@ == circuits_set@,
{
    L1VerifierConfig {
        params: VerifierParams {
            recursion_node_level_vk_hash: h256_from_slice(node_level),
            recursion_leaf_level_vk_hash: h256_from_slice(leaf_level),
            recursion_circuits_set_vks_hash: h256_from_slice(circuits_set),
        },
        recursion_scheduler_level_vk_hash: h256_from_slice(scheduler_level),
    }
}

} // verus!
