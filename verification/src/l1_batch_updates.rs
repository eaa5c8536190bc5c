use vstd::prelude::*;

use crate::miniblock_updates::MiniblockUpdates;
use crate::primitives::{BlockGasCount, ExecutionMetrics, L1BatchNumber};
use crate::records::TransactionExecutionResult;

verus! {

/// What the miniblocks that were sealed into the open L1 batch have brought: the
/// records of their transactions, one miniblock after the other, and the totals.
#[derive(Debug, PartialEq, Eq)]
pub struct L1BatchUpdates {
    pub number: L1BatchNumber,
    pub executed_transactions: Vec<TransactionExecutionResult>,
    pub l1_gas_count: BlockGasCount,
    pub block_execution_metrics: ExecutionMetrics,
    pub txs_encoding_size: usize,
}

impl L1BatchUpdates {
    /// Whether the miniblock can be folded in without a total leaving its type.
    pub open spec fn has_room_for(&self, miniblock: MiniblockUpdates) -> bool {
        &&& self.l1_gas_count.fits_sum(miniblock.l1_gas_count)
        &&& self.block_execution_metrics.fits_sum(miniblock.block_execution_metrics)
        &&& self.txs_encoding_size + miniblock.txs_encoding_size <= usize::MAX
    }

    /// An empty batch with the given number.
    pub fn new(number: L1BatchNumber) -> (b: L1BatchUpdates)
        ensures
            b.number == number,
            b.executed_transactions@.len() == 0,
            b.l1_gas_count.is_zero(),
            b.block_execution_metrics.is_zero(),
            b.txs_encoding_size == 0,
    {
        L1BatchUpdates {
            number,
            executed_transactions: Vec::new(),
            l1_gas_count: BlockGasCount::zero(),
            block_execution_metrics: ExecutionMetrics::zero(),
            txs_encoding_size: 0,
        }
    }

    /// Folds a sealed miniblock in: its records are appended in their order, and
    /// its three totals are added.
    pub fn extend_from_sealed_miniblock(&mut self, miniblock_updates: MiniblockUpdates)
        requires
            old(self).has_room_for(miniblock_updates),
        ensures
            final(self).number == old(self).number,
            final(self).executed_transactions@ == old(self).executed_transactions@
                + miniblock_updates.executed_transactions@,
            final(self).l1_gas_count == old(self).l1_gas_count.plus(miniblock_updates.l1_gas_count),
            final(self).block_execution_metrics == old(self).block_execution_metrics.plus(
                miniblock_updates.block_execution_metrics,
            ),
            final(self).txs_encoding_size == old(self).txs_encoding_size
                + miniblock_updates.txs_encoding_size,
    {
        self.l1_gas_count = self.l1_gas_count.sum(&miniblock_updates.l1_gas_count);
        self.block_execution_metrics = self.block_execution_metrics.sum(
            &miniblock_updates.block_execution_metrics,
        );
        self.txs_encoding_size = self.txs_encoding_size + miniblock_updates.txs_encoding_size;
        let mut records = miniblock_updates.executed_transactions;
        self.executed_transactions.append(&mut records);
    }
}

} // verus!
