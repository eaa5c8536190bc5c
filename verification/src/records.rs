use vstd::prelude::*;

use crate::primitives::{Address, BlockGasCount, ExecutionMetrics, H256};

verus! {

/// One storage access that a transaction made.
#[derive(Clone, Copy, Debug, PartialEq, Eq)]
pub struct StorageLog {
    pub address: Address,
    pub key: H256,
    pub value: H256,
    pub is_write: bool,
}

/// One call made while a transaction ran.
#[derive(Clone, Copy, Debug, PartialEq, Eq)]
pub struct Call {
    pub caller: Address,
    pub callee: Address,
    pub gas_used: u64,
    pub reverted: bool,
}

/// A transaction as the accumulators see it: its hash, the size of its encoding
/// for the bootloader, and its raw bytes.
#[derive(Debug, PartialEq, Eq)]
pub struct Transaction {
    pub hash: H256,
    pub encoding_size: usize,
    pub raw: Vec<u8>,
}

pub struct TransactionView {
    pub hash: H256,
    pub encoding_size: usize,
    pub raw: Seq<u8>,
}

impl View for Transaction {
    type V = TransactionView;

    open spec fn view(&self) -> TransactionView {
        TransactionView { hash: self.hash, encoding_size: self.encoding_size, raw: self.raw@ }
    }
}

impl Clone for Transaction {
    /// A copy with the same content.
    fn clone(&self) -> (copy: Transaction)
        ensures
            copy@ == self@,
    {
        Transaction { hash: self.hash, encoding_size: self.encoding_size, raw: self.raw.clone() }
    }
}

/// A bytecode together with its compressed form.
#[derive(Debug, PartialEq, Eq)]
pub struct CompressedBytecodeInfo {
    pub original: Vec<u8>,
    pub compressed: Vec<u8>,
}

pub struct CompressedBytecodeView {
    pub original: Seq<u8>,
    pub compressed: Seq<u8>,
}

impl View for CompressedBytecodeInfo {
    type V = CompressedBytecodeView;

    open spec fn view(&self) -> CompressedBytecodeView {
        CompressedBytecodeView { original: self.original@, compressed: self.compressed@ }
    }
}

impl Clone for CompressedBytecodeInfo {
    /// A copy with the same content.
    fn clone(&self) -> (copy: CompressedBytecodeInfo)
        ensures
            copy@ == self@,
    {
        CompressedBytecodeInfo {
            original: self.original.clone(),
            compressed: self.compressed.clone(),
        }
    }
}

/// The views of a list of compressed bytecodes, in order.
pub open spec fn bytecode_views(list: Seq<CompressedBytecodeInfo>) -> Seq<CompressedBytecodeView> {
    list.map_values(|b: CompressedBytecodeInfo| b@)
}

/// A copy of a list of compressed bytecodes, with the same content in the same order.
pub fn duplicate_bytecodes(list: &Vec<CompressedBytecodeInfo>) -> (copy: Vec<
    CompressedBytecodeInfo,
>)
    ensures
        bytecode_views(copy@) == bytecode_views(list@),
{
    let mut copy: Vec<CompressedBytecodeInfo> = Vec::new();
    let mut i: usize = 0;
    while i < list.len()
        invariant
            i <= list.len(),
            copy@.len() == i,
            forall|j: int| 0 <= j < i ==> copy@[j]@ == list@[j]@,
        decreases list.len() - i,
    {
        copy.push(list[i].clone());
        i += 1;
    }
    assert(bytecode_views(copy@) =~= bytecode_views(list@));
    copy
}

/// What executing one transaction produced: whether it failed, the gas it used and
/// its storage accesses in execution order.
#[derive(Debug, PartialEq, Eq)]
pub struct VmExecutionResultAndLogs {
    pub failed: bool,
    pub gas_used: u64,
    pub storage_logs: Vec<StorageLog>,
}

pub struct VmExecutionResultView {
    pub failed: bool,
    pub gas_used: u64,
    pub storage_logs: Seq<StorageLog>,
}

impl View for VmExecutionResultAndLogs {
    type V = VmExecutionResultView;

    open spec fn view(&self) -> VmExecutionResultView {
        VmExecutionResultView {
            failed: self.failed,
            gas_used: self.gas_used,
            storage_logs: self.storage_logs@,
        }
    }
}

impl Clone for VmExecutionResultAndLogs {
    /// A copy with the same content.
    fn clone(&self) -> (copy: VmExecutionResultAndLogs)
        ensures
            copy@ == self@,
    {
        VmExecutionResultAndLogs {
            failed: self.failed,
            gas_used: self.gas_used,
            storage_logs: self.storage_logs.clone(),
        }
    }
}

/// The record that an accumulator keeps of one applied transaction. A fictive
/// transaction has no payload: its `transaction` is `None` and its `hash` is zero.
#[derive(Debug, PartialEq, Eq)]
pub struct TransactionExecutionResult {
    pub transaction: Option<Transaction>,
    pub hash: H256,
    pub execution_info: ExecutionMetrics,
    pub l1_gas: BlockGasCount,
    pub result: VmExecutionResultAndLogs,
    pub compressed_bytecodes: Vec<CompressedBytecodeInfo>,
    pub call_traces: Vec<Call>,
}

pub struct TransactionExecutionResultView {
    pub transaction: Option<TransactionView>,
    pub hash: H256,
    pub execution_info: ExecutionMetrics,
    pub l1_gas: BlockGasCount,
    pub result: VmExecutionResultView,
    pub compressed_bytecodes: Seq<CompressedBytecodeView>,
    pub call_traces: Seq<Call>,
}

impl View for TransactionExecutionResult {
    type V = TransactionExecutionResultView;

    open spec fn view(&self) -> TransactionExecutionResultView {
        TransactionExecutionResultView {
            transaction: match self.transaction {
                Some(tx) => Some(tx@),
                None => None,
            },
            hash: self.hash,
            execution_info: self.execution_info,
            l1_gas: self.l1_gas,
            result: self.result@,
            compressed_bytecodes: bytecode_views(self.compressed_bytecodes@),
            call_traces: self.call_traces@,
        }
    }
}

impl Clone for TransactionExecutionResult {
    /// A copy with the same content.
    fn clone(&self) -> (copy: TransactionExecutionResult)
        ensures
            copy@ == self@,
    {
        let transaction = match &self.transaction {
            Some(tx) => Some(tx.clone()),
            None => None,
        };
        TransactionExecutionResult {
            transaction,
            hash: self.hash,
            execution_info: self.execution_info,
            l1_gas: self.l1_gas,
            result: self.result.clone(),
            compressed_bytecodes: duplicate_bytecodes(&self.compressed_bytecodes),
            call_traces: self.call_traces.clone(),
        }
    }
}

/// The views of a list of records, in order.
pub open spec fn record_views(list: Seq<TransactionExecutionResult>) -> Seq<
    TransactionExecutionResultView,
> {
    list.map_values(|r: TransactionExecutionResult| r@)
}

/// The transaction hashes of a list of records, in order, each as its 32 bytes.
pub open spec fn record_hashes(list: Seq<TransactionExecutionResult>) -> Seq<Seq<u8>> {
    list.map_values(|r: TransactionExecutionResult| r.hash.bytes@)
}

/// A copy of a list of records, with the same content in the same order.
pub fn duplicate_records(list: &Vec<TransactionExecutionResult>) -> (copy: Vec<
    TransactionExecutionResult,
>)
    ensures
        record_views(copy@) == record_views(list@),
{
    let mut copy: Vec<TransactionExecutionResult> = Vec::new();
    let mut i: usize = 0;
    while i < list.len()
        invariant
            i <= list.len(),
            copy@.len() == i,
            forall|j: int| 0 <= j < i ==> copy@[j]@ == list@[j]@,
        decreases list.len() - i,
    {
        copy.push(list[i].clone());
        i += 1;
    }
    assert(record_views(copy@) =~= record_views(list@));
    copy
}

} // verus!
