use vstd::prelude::*;

use crate::hashing::{concat_and_hash, finalize_miniblock_hash, miniblock_hash, rolling_hash};
use crate::primitives::{BlockGasCount, ExecutionMetrics, MiniblockNumber, ProtocolVersionId, H256};
use crate::records::{
    duplicate_records, record_hashes, record_views, Call, CompressedBytecodeInfo, Transaction,
    TransactionExecutionResult, TransactionExecutionResultView, VmExecutionResultAndLogs,
};

verus! {

/// What has been gathered for the miniblock that is open: the records of its
/// transactions in the order in which they were applied, and the running totals.
#[derive(Debug, PartialEq, Eq)]
pub struct MiniblockUpdates {
    pub executed_transactions: Vec<TransactionExecutionResult>,
    pub l1_gas_count: BlockGasCount,
    pub block_execution_metrics: ExecutionMetrics,
    pub txs_encoding_size: usize,
    pub timestamp: u64,
    pub number: MiniblockNumber,
    pub prev_block_hash: H256,
    pub virtual_blocks: u32,
    pub protocol_version: ProtocolVersionId,
}

pub struct MiniblockUpdatesView {
    pub executed_transactions: Seq<TransactionExecutionResultView>,
    pub l1_gas_count: BlockGasCount,
    pub block_execution_metrics: ExecutionMetrics,
    pub txs_encoding_size: usize,
    pub timestamp: u64,
    pub number: MiniblockNumber,
    pub prev_block_hash: H256,
    pub virtual_blocks: u32,
    pub protocol_version: ProtocolVersionId,
}

impl View for MiniblockUpdates {
    type V = MiniblockUpdatesView;

    open spec fn view(&self) -> MiniblockUpdatesView {
        MiniblockUpdatesView {
            executed_transactions: record_views(self.executed_transactions@),
            l1_gas_count: self.l1_gas_count,
            block_execution_metrics: self.block_execution_metrics,
            txs_encoding_size: self.txs_encoding_size,
            timestamp: self.timestamp,
            number: self.number,
            prev_block_hash: self.prev_block_hash,
            virtual_blocks: self.virtual_blocks,
            protocol_version: self.protocol_version,
        }
    }
}

/// The record of a transaction with a payload.
pub open spec fn executed_record(
    tx: Transaction,
    result: VmExecutionResultAndLogs,
    l1_gas: BlockGasCount,
    metrics: ExecutionMetrics,
    compressed_bytecodes: Vec<CompressedBytecodeInfo>,
    call_traces: Vec<Call>,
) -> TransactionExecutionResult {
    TransactionExecutionResult {
        transaction: Some(tx),
        hash: tx.hash,
        execution_info: metrics,
        l1_gas,
        result,
        compressed_bytecodes,
        call_traces,
    }
}

/// Whether `record` is the record of a fictive transaction with the given outcome:
/// no payload, a zero hash, no bytecodes and no call traces.
pub open spec fn is_fictive_record(
    record: TransactionExecutionResult,
    result: VmExecutionResultAndLogs,
    l1_gas: BlockGasCount,
    metrics: ExecutionMetrics,
) -> bool {
    &&& record.transaction is None
    &&& record.hash.bytes@ == crate::primitives::zero_bytes32()
    &&& record.execution_info == metrics
    &&& record.l1_gas == l1_gas
    &&& record.result == result
    &&& record.compressed_bytecodes@.len() == 0
    &&& record.call_traces@.len() == 0
}

impl MiniblockUpdates {
    /// The hash of this miniblock: a function of its number, its timestamp, the
    /// previous miniblock's hash and the hashes of its transactions in order.
    pub open spec fn hash_spec(&self) -> Seq<u8> {
        miniblock_hash(
            self.number.value,
            self.timestamp,
            self.prev_block_hash.bytes@,
            record_hashes(self.executed_transactions@),
        )
    }

    /// Whether a transaction with these amounts can be added without a total
    /// leaving its type.
    pub open spec fn has_room_for(
        &self,
        l1_gas: BlockGasCount,
        metrics: ExecutionMetrics,
        encoding_size: usize,
    ) -> bool {
        &&& self.l1_gas_count.fits_sum(l1_gas)
        &&& self.block_execution_metrics.fits_sum(metrics)
        &&& self.txs_encoding_size + encoding_size <= usize::MAX
    }

    /// An empty miniblock with the given header.
    pub fn new(
        timestamp: u64,
        number: MiniblockNumber,
        prev_block_hash: H256,
        virtual_blocks: u32,
        protocol_version: ProtocolVersionId,
    ) -> (m: MiniblockUpdates)
        ensures
            m.executed_transactions@.len() == 0,
            m.l1_gas_count.is_zero(),
            m.block_execution_metrics.is_zero(),
            m.txs_encoding_size == 0,
            m.timestamp == timestamp,
            m.number == number,
            m.prev_block_hash == prev_block_hash,
            m.virtual_blocks == virtual_blocks,
            m.protocol_version == protocol_version,
    {
        MiniblockUpdates {
            executed_transactions: Vec::new(),
            l1_gas_count: BlockGasCount::zero(),
            block_execution_metrics: ExecutionMetrics::zero(),
            txs_encoding_size: 0,
            timestamp,
            number,
            prev_block_hash,
            virtual_blocks,
            protocol_version,
        }
    }

    /// Appends the record of an executed transaction and adds its gas count, its
    /// metrics and the size of its encoding to the totals.
    pub fn extend_from_executed_transaction(
        &mut self,
        tx: Transaction,
        tx_execution_result: VmExecutionResultAndLogs,
        tx_l1_gas_this_tx: BlockGasCount,
        execution_metrics: ExecutionMetrics,
        compressed_bytecodes: Vec<CompressedBytecodeInfo>,
        call_traces: Vec<Call>,
    )
        requires
            old(self).has_room_for(tx_l1_gas_this_tx, execution_metrics, tx.encoding_size),
        ensures
            final(self).executed_transactions@ == old(self).executed_transactions@.push(
                executed_record(
                    tx,
                    tx_execution_result,
                    tx_l1_gas_this_tx,
                    execution_metrics,
                    compressed_bytecodes,
                    call_traces,
                ),
            ),
            final(self).l1_gas_count == old(self).l1_gas_count.plus(tx_l1_gas_this_tx),
            final(self).block_execution_metrics == old(self).block_execution_metrics.plus(
                execution_metrics,
            ),
            final(self).txs_encoding_size == old(self).txs_encoding_size + tx.encoding_size,
            final(self).timestamp == old(self).timestamp,
            final(self).number == old(self).number,
            final(self).prev_block_hash == old(self).prev_block_hash,
            final(self).virtual_blocks == old(self).virtual_blocks,
            final(self).protocol_version == old(self).protocol_version,
    {
        self.l1_gas_count = self.l1_gas_count.sum(&tx_l1_gas_this_tx);
        self.block_execution_metrics = self.block_execution_metrics.sum(&execution_metrics);
        self.txs_encoding_size = self.txs_encoding_size + tx.encoding_size;
        let hash = tx.hash;
        self.executed_transactions.push(
            TransactionExecutionResult {
                transaction: Some(tx),
                hash,
                execution_info: execution_metrics,
                l1_gas: tx_l1_gas_this_tx,
                result: tx_execution_result,
                compressed_bytecodes,
                call_traces,
            },
        );
    }

    /// Appends the record of a fictive transaction, which has no payload, and adds
    /// its gas count and its metrics to the totals. The encoded size stays.
    pub fn extend_from_fictive_transaction(
        &mut self,
        result: VmExecutionResultAndLogs,
        l1_gas_count: BlockGasCount,
        execution_metrics: ExecutionMetrics,
    )
        requires
            old(self).has_room_for(l1_gas_count, execution_metrics, 0),
        ensures
            final(self).executed_transactions@.len() == old(self).executed_transactions@.len() + 1,
            final(self).executed_transactions@.drop_last() == old(self).executed_transactions@,
            is_fictive_record(
                final(self).executed_transactions@.last(),
                result,
                l1_gas_count,
                execution_metrics,
            ),
            final(self).l1_gas_count == old(self).l1_gas_count.plus(l1_gas_count),
            final(self).block_execution_metrics == old(self).block_execution_metrics.plus(
                execution_metrics,
            ),
            final(self).txs_encoding_size == old(self).txs_encoding_size,
            final(self).timestamp == old(self).timestamp,
            final(self).number == old(self).number,
            final(self).prev_block_hash == old(self).prev_block_hash,
            final(self).virtual_blocks == old(self).virtual_blocks,
            final(self).protocol_version == old(self).protocol_version,
    {
        self.l1_gas_count = self.l1_gas_count.sum(&l1_gas_count);
        self.block_execution_metrics = self.block_execution_metrics.sum(&execution_metrics);
        self.executed_transactions.push(
            TransactionExecutionResult {
                transaction: None,
                hash: H256::zero(),
                execution_info: execution_metrics,
                l1_gas: l1_gas_count,
                result,
                compressed_bytecodes: Vec::new(),
                call_traces: Vec::new(),
            },
        );
    }

    /// Computes the hash of this miniblock. Nothing is changed, and the result is a
    /// function of the number, the timestamp, the previous hash and the
    /// transactions' hashes in order.
    pub fn get_miniblock_hash(&self) -> (h: H256)
        ensures
            h.bytes@ == self.hash_spec(),
    {
        let mut rolling = H256::zero();
        let mut i: usize = 0;
        while i < self.executed_transactions.len()
            invariant
                i <= self.executed_transactions.len(),
                rolling.bytes@ == rolling_hash(
                    record_hashes(self.executed_transactions@).subrange(0, i as int),
                ),
            decreases self.executed_transactions.len() - i,
        {
            let ghost hashes = record_hashes(self.executed_transactions@);
            rolling = concat_and_hash(&rolling, &self.executed_transactions[i].hash);
            proof {
                let next = hashes.subrange(0, i + 1);
                assert(next.drop_last() =~= hashes.subrange(0, i as int));
            }
            i += 1;
        }
        proof {
            let hashes = record_hashes(self.executed_transactions@);
            assert(hashes.subrange(0, hashes.len() as int) =~= hashes);
        }
        finalize_miniblock_hash(self.number.value, self.timestamp, &self.prev_block_hash, &rolling)
    }
}

impl Clone for MiniblockUpdates {
    /// A copy with the same content.
    fn clone(&self) -> (copy: MiniblockUpdates)
        ensures
            copy@ == self@,
    {
        MiniblockUpdates {
            executed_transactions: duplicate_records(&self.executed_transactions),
            l1_gas_count: self.l1_gas_count,
            block_execution_metrics: self.block_execution_metrics,
            txs_encoding_size: self.txs_encoding_size,
            timestamp: self.timestamp,
            number: self.number,
            prev_block_hash: self.prev_block_hash,
            virtual_blocks: self.virtual_blocks,
            protocol_version: self.protocol_version,
        }
    }
}

} // verus!
