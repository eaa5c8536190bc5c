use sha3::Digest;
use vstd::prelude::*;

use crate::primitives::{zero_bytes32, H256};

verus! {

/// The Keccak-256 digest of a byte string.
pub uninterp spec fn keccak256_digest(data: Seq<u8>) -> Seq<u8>;

/// Calls `sha3::Keccak256::digest` on the given bytes. The contract claims that
/// the 32 bytes returned are the Keccak-256 digest of the input, a function of the
/// input alone.
#[verifier::external_body]
pub(crate) fn keccak256(data: &Vec<u8>) -> (out: [u8; 32])
    ensures
        out@ == keccak256_digest(data@),
{
    sha3::Keccak256::digest(data.as_slice()).into()
}

/// Big-endian encoding of `value` in `len` bytes (the low `len` bytes of it).
pub open spec fn be_bytes(value: nat, len: nat) -> Seq<u8>
    decreases len,
{
    if len == 0 {
        Seq::empty()
    } else {
        be_bytes(value / 256, (len - 1) as nat).push((value % 256) as u8)
    }
}

/// The rolling hash of a sequence of transaction hashes: it starts at 32 zero
/// bytes, and each transaction hash is appended to the hash so far and digested.
pub open spec fn rolling_hash(tx_hashes: Seq<Seq<u8>>) -> Seq<u8>
    decreases tx_hashes.len(),
{
    if tx_hashes.len() == 0 {
        zero_bytes32()
    } else {
        keccak256_digest(rolling_hash(tx_hashes.drop_last()) + tx_hashes.last())
    }
}

/// The hash of a miniblock: the digest of its number and its timestamp, each as
/// 32 big-endian bytes, the previous miniblock's hash, and the rolling hash of its
/// transactions.
pub open spec fn miniblock_hash(
    number: u32,
    timestamp: u64,
    prev_hash: Seq<u8>,
    tx_hashes: Seq<Seq<u8>>,
) -> Seq<u8> {
    keccak256_digest(
        be_bytes(number as nat, 32) + be_bytes(timestamp as nat, 32) + prev_hash + rolling_hash(
            tx_hashes,
        ),
    )
}

/// Appends the big-endian encoding of `value` in `len` bytes.
pub fn push_be_bytes(out: &mut Vec<u8>, value: u64, len: usize)
    ensures
        final(out)@ == old(out)@ + be_bytes(value as nat, len as nat),
    decreases len,
{
    if len > 0 {
        push_be_bytes(out, value / 256, len - 1);
        out.push((value % 256) as u8);
    }
    assert(out@ =~= old(out)@ + be_bytes(value as nat, len as nat));
}

/// Appends the 32 bytes of a hash.
pub fn push_hash(out: &mut Vec<u8>, hash: &H256)
    ensures
        final(out)@ == old(out)@ + hash.bytes@,
{
    let mut i: usize = 0;
    while i < 32
        invariant
            i <= 32,
            out@ == old(out)@ + hash.bytes@.subrange(0, i as int),
        decreases 32 - i,
    {
        out.push(hash.bytes[i]);
        assert(out@ =~= old(out)@ + hash.bytes@.subrange(0, i + 1));
        i += 1;
    }
    assert(hash.bytes@.subrange(0, 32) =~= hash.bytes@);
}

/// Digests the concatenation of two hashes.
pub fn concat_and_hash(left: &H256, right: &H256) -> (h: H256)
    ensures
        h.bytes@ == keccak256_digest(left.bytes@ + right.bytes@),
{
    let mut buf: Vec<u8> = Vec::new();
    push_hash(&mut buf, left);
    push_hash(&mut buf, right);
    assert(buf@ =~= left.bytes@ + right.bytes@);
    H256 { bytes: keccak256(&buf) }
}

/// Computes the hash of a miniblock from its header and the rolling hash of its
/// transactions.
pub fn finalize_miniblock_hash(
    number: u32,
    timestamp: u64,
    prev_hash: &H256,
    txs_rolling_hash: &H256,
) -> (h: H256)
    ensures
        h.bytes@ == keccak256_digest(
            be_bytes(number as nat, 32) + be_bytes(timestamp as nat, 32) + prev_hash.bytes@
                + txs_rolling_hash.bytes@,
        ),
{
    let mut buf: Vec<u8> = Vec::new();
    push_be_bytes(&mut buf, number as u64, 32);
    push_be_bytes(&mut buf, timestamp, 32);
    push_hash(&mut buf, prev_hash);
    push_hash(&mut buf, txs_rolling_hash);
    assert(buf@ =~= be_bytes(number as nat, 32) + be_bytes(timestamp as nat, 32)
        + prev_hash.bytes@ + txs_rolling_hash.bytes@);
    H256 { bytes: keccak256(&buf) }
}

} // verus!
