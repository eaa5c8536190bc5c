use vstd::prelude::*;

use crate::l1_batch_updates::L1BatchUpdates;
use crate::miniblock_updates::{executed_record, is_fictive_record, MiniblockUpdates};
use crate::primitives::{
    Address, BaseSystemContractsHashes, BatchFeeInput, BlockGasCount, ExecutionMetrics,
    L1BatchNumber, MiniblockNumber, ProtocolVersionId, H256,
};
use crate::progress::{after_apply, after_push, Progress};
use crate::records::{
    Call, CompressedBytecodeInfo, StorageLog, Transaction, VmExecutionResultAndLogs,
};
use crate::storage_writes_deduplicator::StorageWritesDeduplicator;

verus! {

/// The header of the first miniblock of a batch.
#[derive(Clone, Copy, Debug, PartialEq, Eq)]
pub struct L2BlockEnv {
    pub number: u32,
    pub timestamp: u64,
    pub prev_block_hash: H256,
    pub max_virtual_blocks_to_create: u32,
}

/// The parameters that a batch is opened with.
#[derive(Clone, Copy, Debug, PartialEq, Eq)]
pub struct L1BatchEnv {
    pub number: L1BatchNumber,
    pub timestamp: u64,
    pub fee_account: Address,
    pub fee_input: BatchFeeInput,
    pub first_l2_block: L2BlockEnv,
}

/// The parameters of the system that a batch runs on.
#[derive(Clone, Copy, Debug, PartialEq, Eq)]
pub struct SystemEnv {
    pub version: ProtocolVersionId,
    pub base_system_contracts_hashes: BaseSystemContractsHashes,
}

/// The parameters that a new miniblock is opened with.
#[derive(Clone, Copy, Debug, PartialEq, Eq)]
pub struct MiniblockParams {
    pub timestamp: u64,
    pub virtual_blocks: u32,
}

/// Where the next miniblock starts.
#[derive(Clone, Copy, Debug, PartialEq, Eq)]
pub struct IoCursor {
    pub next_miniblock: MiniblockNumber,
    pub prev_miniblock_hash: H256,
    pub prev_miniblock_timestamp: u64,
    pub l1_batch: L1BatchNumber,
}

/// What is fixed when a manager is made and never changes afterwards.
#[derive(Clone, Copy, Debug, PartialEq, Eq)]
pub struct BatchParameters {
    pub batch_timestamp: u64,
    pub fee_account_address: Address,
    pub batch_fee_input: BatchFeeInput,
    pub base_fee_per_gas: u64,
    pub base_system_contract_hashes: BaseSystemContractsHashes,
    pub protocol_version: ProtocolVersionId,
}

/// Everything that is needed to persist a sealed miniblock, taken at the moment
/// of sealing.
#[derive(Debug)]
pub struct MiniblockSealCommand {
    pub l1_batch_number: L1BatchNumber,
    pub miniblock: MiniblockUpdates,
    pub first_tx_index: usize,
    pub fee_account_address: Address,
    pub fee_input: BatchFeeInput,
    pub base_fee_per_gas: u64,
    pub base_system_contracts_hashes: BaseSystemContractsHashes,
    pub protocol_version: Option<ProtocolVersionId>,
    pub l2_erc20_bridge_addr: Address,
    /// Whether the transactions have to be stored before the miniblock is.
    pub pre_insert_txs: bool,
}

/// Keeps the updates of the open miniblock and those of the miniblocks already
/// sealed into the open L1 batch, and answers for the two together.
#[derive(Debug, PartialEq)]
pub struct UpdatesManager {
    pub batch_timestamp: u64,
    pub fee_account_address: Address,
    pub batch_fee_input: BatchFeeInput,
    pub base_fee_per_gas: u64,
    pub base_system_contract_hashes: BaseSystemContractsHashes,
    pub protocol_version: ProtocolVersionId,
    pub l1_batch: L1BatchUpdates,
    pub miniblock: MiniblockUpdates,
    pub storage_writes_deduplicator: StorageWritesDeduplicator,
}

impl UpdatesManager {
    /// The parameters fixed at construction.
    pub open spec fn parameters(&self) -> BatchParameters {
        BatchParameters {
            batch_timestamp: self.batch_timestamp,
            fee_account_address: self.fee_account_address,
            batch_fee_input: self.batch_fee_input,
            base_fee_per_gas: self.base_fee_per_gas,
            base_system_contract_hashes: self.base_system_contract_hashes,
            protocol_version: self.protocol_version,
        }
    }

    /// The totals of the batch and of the open miniblock can be added, and the open
    /// miniblock runs under the manager's protocol version.
    pub open spec fn wf(&self) -> bool {
        &&& self.l1_batch.has_room_for(self.miniblock)
        &&& self.l1_batch.executed_transactions@.len() + self.miniblock.executed_transactions@.len()
            <= usize::MAX
        &&& self.miniblock.protocol_version == self.parameters().protocol_version
    }

    /// How far the batch has come.
    pub open spec fn progress(&self) -> Progress {
        Progress {
            batch: self.l1_batch.executed_transactions@,
            open: self.miniblock.executed_transactions@,
            number: self.miniblock.number.value as int,
        }
    }

    /// The number of transactions of the batch and of the open miniblock together.
    pub open spec fn pending_len_spec(&self) -> nat {
        self.l1_batch.executed_transactions@.len() + self.miniblock.executed_transactions@.len()
    }

    /// The gas count of the batch and of the open miniblock together.
    pub open spec fn pending_gas_spec(&self) -> BlockGasCount {
        self.l1_batch.l1_gas_count.plus(self.miniblock.l1_gas_count)
    }

    /// The metrics of the batch and of the open miniblock together.
    pub open spec fn pending_metrics_spec(&self) -> ExecutionMetrics {
        self.l1_batch.block_execution_metrics.plus(self.miniblock.block_execution_metrics)
    }

    /// The encoded size of the batch and of the open miniblock together.
    pub open spec fn pending_size_spec(&self) -> nat {
        (self.l1_batch.txs_encoding_size + self.miniblock.txs_encoding_size) as nat
    }

    /// Whether one more transaction with these amounts can be applied without a
    /// pending total, or the pending count, leaving its type.
    pub open spec fn has_room_for(
        &self,
        l1_gas: BlockGasCount,
        metrics: ExecutionMetrics,
        encoding_size: usize,
    ) -> bool {
        &&& self.pending_len_spec() < usize::MAX
        &&& self.pending_gas_spec().fits_sum(l1_gas)
        &&& self.pending_metrics_spec().fits_sum(metrics)
        &&& self.pending_size_spec() + encoding_size <= usize::MAX
    }

    /// Whether there is a number for the miniblock after the open one.
    pub open spec fn has_next_number(&self) -> bool {
        self.miniblock.number.value < u32::MAX
    }

    /// A manager for the batch that `l1_batch_env` describes, with an empty batch,
    /// an empty first miniblock and nothing applied. `base_fee_per_gas` is what
    /// the fee model gives for this batch and protocol version.
    pub fn new(l1_batch_env: &L1BatchEnv, system_env: &SystemEnv, base_fee_per_gas: u64) -> (m:
        UpdatesManager)
        ensures
            m.wf(),
            m.parameters() == (BatchParameters {
                batch_timestamp: l1_batch_env.timestamp,
                fee_account_address: l1_batch_env.fee_account,
                batch_fee_input: l1_batch_env.fee_input,
                base_fee_per_gas,
                base_system_contract_hashes: system_env.base_system_contracts_hashes,
                protocol_version: system_env.version,
            }),
            m.l1_batch.number == l1_batch_env.number,
            m.l1_batch.executed_transactions@.len() == 0,
            m.l1_batch.l1_gas_count.is_zero(),
            m.l1_batch.block_execution_metrics.is_zero(),
            m.l1_batch.txs_encoding_size == 0,
            m.miniblock.executed_transactions@.len() == 0,
            m.miniblock.l1_gas_count.is_zero(),
            m.miniblock.block_execution_metrics.is_zero(),
            m.miniblock.txs_encoding_size == 0,
            m.miniblock.timestamp == l1_batch_env.first_l2_block.timestamp,
            m.miniblock.number.value == l1_batch_env.first_l2_block.number,
            m.miniblock.prev_block_hash == l1_batch_env.first_l2_block.prev_block_hash,
            m.miniblock.virtual_blocks == l1_batch_env.first_l2_block.max_virtual_blocks_to_create,
            m.miniblock.protocol_version == system_env.version,
            m.storage_writes_deduplicator.applications() == Seq::<Seq<StorageLog>>::empty(),
    {
        let protocol_version = system_env.version;
        UpdatesManager {
            batch_timestamp: l1_batch_env.timestamp,
            fee_account_address: l1_batch_env.fee_account,
            batch_fee_input: l1_batch_env.fee_input,
            base_fee_per_gas,
            protocol_version,
            base_system_contract_hashes: system_env.base_system_contracts_hashes,
            l1_batch: L1BatchUpdates::new(l1_batch_env.number),
            miniblock: MiniblockUpdates::new(
                l1_batch_env.first_l2_block.timestamp,
                MiniblockNumber { value: l1_batch_env.first_l2_block.number },
                l1_batch_env.first_l2_block.prev_block_hash,
                l1_batch_env.first_l2_block.max_virtual_blocks_to_create,
                protocol_version,
            ),
            storage_writes_deduplicator: StorageWritesDeduplicator::new(),
        }
    }

    pub fn batch_timestamp(&self) -> (t: u64)
        ensures
            t == self.parameters().batch_timestamp,
    {
        self.batch_timestamp
    }

    pub fn base_system_contract_hashes(&self) -> (h: BaseSystemContractsHashes)
        ensures
            h == self.parameters().base_system_contract_hashes,
    {
        self.base_system_contract_hashes
    }

    pub fn protocol_version(&self) -> (v: ProtocolVersionId)
        ensures
            v == self.parameters().protocol_version,
    {
        self.protocol_version
    }

    /// Where the miniblock after the open one starts: its number, the hash and the
    /// timestamp of the open one, and the batch's number.
    pub fn io_cursor(&self) -> (cursor: IoCursor)
        requires
            self.has_next_number(),
        ensures
            cursor.next_miniblock.value == self.miniblock.number.value + 1,
            cursor.prev_miniblock_hash.bytes@ == self.miniblock.hash_spec(),
            cursor.prev_miniblock_timestamp == self.miniblock.timestamp,
            cursor.l1_batch == self.l1_batch.number,
    {
        IoCursor {
            next_miniblock: MiniblockNumber { value: self.miniblock.number.value + 1 },
            prev_miniblock_hash: self.miniblock.get_miniblock_hash(),
            prev_miniblock_timestamp: self.miniblock.timestamp,
            l1_batch: self.l1_batch.number,
        }
    }

    /// A snapshot of the open miniblock with all that is needed to persist it. The
    /// manager is left as it is: only `push_miniblock` folds the miniblock in.
    pub fn seal_miniblock_command(&self, l2_erc20_bridge_addr: Address, pre_insert_txs: bool) -> (cmd:
        MiniblockSealCommand)
        ensures
            cmd.l1_batch_number == self.l1_batch.number,
            cmd.miniblock@ == self.miniblock@,
            cmd.first_tx_index == self.l1_batch.executed_transactions@.len(),
            cmd.fee_account_address == self.parameters().fee_account_address,
            cmd.fee_input == self.parameters().batch_fee_input,
            cmd.base_fee_per_gas == self.parameters().base_fee_per_gas,
            cmd.base_system_contracts_hashes == self.parameters().base_system_contract_hashes,
            cmd.protocol_version == Some(self.parameters().protocol_version),
            cmd.l2_erc20_bridge_addr == l2_erc20_bridge_addr,
            cmd.pre_insert_txs == pre_insert_txs,
    {
        MiniblockSealCommand {
            l1_batch_number: self.l1_batch.number,
            miniblock: self.miniblock.clone(),
            first_tx_index: self.l1_batch.executed_transactions.len(),
            fee_account_address: self.fee_account_address,
            fee_input: self.batch_fee_input,
            base_fee_per_gas: self.base_fee_per_gas,
            base_system_contracts_hashes: self.base_system_contract_hashes,
            protocol_version: Some(self.protocol_version),
            l2_erc20_bridge_addr,
            pre_insert_txs,
        }
    }

    /// Tells whether the manager is well formed. It is after `new` and after each
    /// call of a method of the manager; a change made through a field can break it.
    pub fn is_well_formed(&self) -> (ok: bool)
        ensures
            ok == self.wf(),
    {
        self.l1_batch.l1_gas_count.can_sum(&self.miniblock.l1_gas_count)
            && self.l1_batch.block_execution_metrics.can_sum(
            &self.miniblock.block_execution_metrics,
        ) && self.l1_batch.txs_encoding_size <= usize::MAX - self.miniblock.txs_encoding_size
            && self.l1_batch.executed_transactions.len() <= usize::MAX
            - self.miniblock.executed_transactions.len()
            && self.miniblock.protocol_version.value == self.protocol_version.value
    }

    /// Tells whether one more transaction with these amounts may be applied.
    pub fn can_extend(
        &self,
        l1_gas: &BlockGasCount,
        metrics: &ExecutionMetrics,
        encoding_size: usize,
    ) -> (ok: bool)
        requires
            self.wf(),
        ensures
            ok == self.has_room_for(*l1_gas, *metrics, encoding_size),
    {
        self.pending_executed_transactions_len() < usize::MAX && self.pending_l1_gas_count().can_sum(
            l1_gas,
        ) && self.pending_execution_metrics().can_sum(metrics) && self.pending_txs_encoding_size()
            <= usize::MAX - encoding_size
    }

    /// Tells whether there is a number for the miniblock after the open one, which
    /// `push_miniblock` and `io_cursor` need.
    pub fn can_push(&self) -> (ok: bool)
        ensures
            ok == self.has_next_number(),
    {
        self.miniblock.number.value < u32::MAX
    }

    /// Hands the storage accesses of the transaction to the deduplicator, then
    /// appends the transaction's record to the open miniblock and adds its amounts
    /// to the miniblock's totals. The batch is not touched.
    pub fn extend_from_executed_transaction(
        &mut self,
        tx: Transaction,
        tx_execution_result: VmExecutionResultAndLogs,
        compressed_bytecodes: Vec<CompressedBytecodeInfo>,
        tx_l1_gas_this_tx: BlockGasCount,
        execution_metrics: ExecutionMetrics,
        call_traces: Vec<Call>,
    )
        requires
            old(self).wf(),
            old(self).has_room_for(tx_l1_gas_this_tx, execution_metrics, tx.encoding_size),
        ensures
            final(self).wf(),
            final(self).parameters() == old(self).parameters(),
            final(self).l1_batch == old(self).l1_batch,
            final(self).storage_writes_deduplicator.applications() == old(
                self,
            ).storage_writes_deduplicator.applications().push(tx_execution_result.storage_logs@),
            final(self).miniblock.executed_transactions@ == old(
                self,
            ).miniblock.executed_transactions@.push(
                executed_record(
                    tx,
                    tx_execution_result,
                    tx_l1_gas_this_tx,
                    execution_metrics,
                    compressed_bytecodes,
                    call_traces,
                ),
            ),
            final(self).miniblock.l1_gas_count == old(self).miniblock.l1_gas_count.plus(
                tx_l1_gas_this_tx,
            ),
            final(self).miniblock.block_execution_metrics == old(
                self,
            ).miniblock.block_execution_metrics.plus(execution_metrics),
            final(self).miniblock.txs_encoding_size == old(self).miniblock.txs_encoding_size
                + tx.encoding_size,
            final(self).miniblock.timestamp == old(self).miniblock.timestamp,
            final(self).miniblock.number == old(self).miniblock.number,
            final(self).miniblock.prev_block_hash == old(self).miniblock.prev_block_hash,
            final(self).miniblock.virtual_blocks == old(self).miniblock.virtual_blocks,
            final(self).progress() == after_apply(
                old(self).progress(),
                final(self).miniblock.executed_transactions@.last(),
            ),
            final(self).pending_len_spec() == old(self).pending_len_spec() + 1,
            final(self).pending_gas_spec() == old(self).pending_gas_spec().plus(tx_l1_gas_this_tx),
            final(self).pending_metrics_spec() == old(self).pending_metrics_spec().plus(
                execution_metrics,
            ),
            final(self).pending_size_spec() == old(self).pending_size_spec() + tx.encoding_size,
    {
        self.storage_writes_deduplicator.apply(&tx_execution_result.storage_logs);
        self.miniblock.extend_from_executed_transaction(
            tx,
            tx_execution_result,
            tx_l1_gas_this_tx,
            execution_metrics,
            compressed_bytecodes,
            call_traces,
        );
    }

    /// As `extend_from_executed_transaction`, for a transaction without a payload.
    pub fn extend_from_fictive_transaction(
        &mut self,
        result: VmExecutionResultAndLogs,
        l1_gas_count: BlockGasCount,
        execution_metrics: ExecutionMetrics,
    )
        requires
            old(self).wf(),
            old(self).has_room_for(l1_gas_count, execution_metrics, 0),
        ensures
            final(self).wf(),
            final(self).parameters() == old(self).parameters(),
            final(self).l1_batch == old(self).l1_batch,
            final(self).storage_writes_deduplicator.applications() == old(
                self,
            ).storage_writes_deduplicator.applications().push(result.storage_logs@),
            final(self).miniblock.executed_transactions@.len() == old(
                self,
            ).miniblock.executed_transactions@.len() + 1,
            final(self).miniblock.executed_transactions@.drop_last() == old(
                self,
            ).miniblock.executed_transactions@,
            is_fictive_record(
                final(self).miniblock.executed_transactions@.last(),
                result,
                l1_gas_count,
                execution_metrics,
            ),
            final(self).miniblock.l1_gas_count == old(self).miniblock.l1_gas_count.plus(l1_gas_count),
            final(self).miniblock.block_execution_metrics == old(
                self,
            ).miniblock.block_execution_metrics.plus(execution_metrics),
            final(self).miniblock.txs_encoding_size == old(self).miniblock.txs_encoding_size,
            final(self).miniblock.timestamp == old(self).miniblock.timestamp,
            final(self).miniblock.number == old(self).miniblock.number,
            final(self).miniblock.prev_block_hash == old(self).miniblock.prev_block_hash,
            final(self).miniblock.virtual_blocks == old(self).miniblock.virtual_blocks,
            final(self).progress() == after_apply(
                old(self).progress(),
                final(self).miniblock.executed_transactions@.last(),
            ),
            final(self).pending_len_spec() == old(self).pending_len_spec() + 1,
            final(self).pending_gas_spec() == old(self).pending_gas_spec().plus(l1_gas_count),
            final(self).pending_metrics_spec() == old(self).pending_metrics_spec().plus(
                execution_metrics,
            ),
            final(self).pending_size_spec() == old(self).pending_size_spec(),
    {
        self.storage_writes_deduplicator.apply(&result.storage_logs);
        self.miniblock.extend_from_fictive_transaction(result, l1_gas_count, execution_metrics);
        assert(self.miniblock.executed_transactions@ =~= old(
            self,
        ).miniblock.executed_transactions@.push(self.miniblock.executed_transactions@.last()));
    }

    /// Opens a new miniblock with the given timestamp and virtual blocks, whose
    /// number follows the open one's and whose previous hash is the open one's
    /// hash. The miniblock that was open is sealed and folded into the batch.
    pub fn push_miniblock(&mut self, miniblock_params: MiniblockParams)
        requires
            old(self).wf(),
            old(self).has_next_number(),
        ensures
            final(self).wf(),
            final(self).parameters() == old(self).parameters(),
            final(self).storage_writes_deduplicator == old(self).storage_writes_deduplicator,
            final(self).miniblock.executed_transactions@.len() == 0,
            final(self).miniblock.l1_gas_count.is_zero(),
            final(self).miniblock.block_execution_metrics.is_zero(),
            final(self).miniblock.txs_encoding_size == 0,
            final(self).miniblock.timestamp == miniblock_params.timestamp,
            final(self).miniblock.virtual_blocks == miniblock_params.virtual_blocks,
            final(self).miniblock.number.value == old(self).miniblock.number.value + 1,
            final(self).miniblock.prev_block_hash.bytes@ == old(self).miniblock.hash_spec(),
            final(self).miniblock.protocol_version == old(self).miniblock.protocol_version,
            final(self).l1_batch.number == old(self).l1_batch.number,
            final(self).l1_batch.executed_transactions@ == old(self).l1_batch.executed_transactions@
                + old(self).miniblock.executed_transactions@,
            final(self).l1_batch.l1_gas_count == old(self).pending_gas_spec(),
            final(self).l1_batch.block_execution_metrics == old(self).pending_metrics_spec(),
            final(self).l1_batch.txs_encoding_size == old(self).pending_size_spec(),
            final(self).progress() == after_push(old(self).progress()),
            final(self).pending_len_spec() == old(self).pending_len_spec(),
            final(self).pending_gas_spec() == old(self).pending_gas_spec(),
            final(self).pending_metrics_spec() == old(self).pending_metrics_spec(),
            final(self).pending_size_spec() == old(self).pending_size_spec(),
    {
        let mut closed = MiniblockUpdates::new(
            miniblock_params.timestamp,
            MiniblockNumber { value: self.miniblock.number.value + 1 },
            self.miniblock.get_miniblock_hash(),
            miniblock_params.virtual_blocks,
            self.protocol_version,
        );
        core::mem::swap(&mut self.miniblock, &mut closed);
        self.l1_batch.extend_from_sealed_miniblock(closed);
        assert(self.miniblock.executed_transactions@ =~= Seq::empty());
    }

    /// The number of transactions of the batch and of the open miniblock together.
    pub fn pending_executed_transactions_len(&self) -> (n: usize)
        requires
            self.wf(),
        ensures
            n == self.l1_batch.executed_transactions@.len()
                + self.miniblock.executed_transactions@.len(),
    {
        self.l1_batch.executed_transactions.len() + self.miniblock.executed_transactions.len()
    }

    /// The gas count of the batch and of the open miniblock together.
    pub fn pending_l1_gas_count(&self) -> (g: BlockGasCount)
        requires
            self.wf(),
        ensures
            g == self.l1_batch.l1_gas_count.plus(self.miniblock.l1_gas_count),
    {
        self.l1_batch.l1_gas_count.sum(&self.miniblock.l1_gas_count)
    }

    /// The metrics of the batch and of the open miniblock together.
    pub fn pending_execution_metrics(&self) -> (m: ExecutionMetrics)
        requires
            self.wf(),
        ensures
            m == self.l1_batch.block_execution_metrics.plus(self.miniblock.block_execution_metrics),
    {
        self.l1_batch.block_execution_metrics.sum(&self.miniblock.block_execution_metrics)
    }

    /// The encoded size of the batch and of the open miniblock together.
    pub fn pending_txs_encoding_size(&self) -> (s: usize)
        requires
            self.wf(),
        ensures
            s == self.l1_batch.txs_encoding_size + self.miniblock.txs_encoding_size,
    {
        self.l1_batch.txs_encoding_size + self.miniblock.txs_encoding_size
    }
}

} // verus!
