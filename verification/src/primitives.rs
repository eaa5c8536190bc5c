use vstd::prelude::*;

verus! {

/// A 32-byte hash value.
#[derive(Clone, Copy, Debug, PartialEq, Eq)]
pub struct H256 {
    pub bytes: [u8; 32],
}

/// A 20-byte account address.
#[derive(Clone, Copy, Debug, PartialEq, Eq)]
pub struct Address {
    pub bytes: [u8; 20],
}

/// Number of an L1 batch.
#[derive(Clone, Copy, Debug, PartialEq, Eq)]
pub struct L1BatchNumber {
    pub value: u32,
}

/// Number of a miniblock.
#[derive(Clone, Copy, Debug, PartialEq, Eq)]
pub struct MiniblockNumber {
    pub value: u32,
}

/// Identifier of the protocol version a batch is executed under.
#[derive(Clone, Copy, Debug, PartialEq, Eq)]
pub struct ProtocolVersionId {
    pub value: u16,
}

/// Hashes of the base system contracts a batch runs with.
#[derive(Clone, Copy, Debug, PartialEq, Eq)]
pub struct BaseSystemContractsHashes {
    pub bootloader: H256,
    pub default_aa: H256,
}

/// Fee parameters of a batch.
#[derive(Clone, Copy, Debug, PartialEq, Eq)]
pub enum BatchFeeInput {
    L1Pegged { fair_l2_gas_price: u64, l1_gas_price: u64 },
    PubdataIndependent { fair_l2_gas_price: u64, fair_pubdata_price: u64, l1_gas_price: u64 },
}

/// The 32 zero bytes.
pub open spec fn zero_bytes32() -> Seq<u8> {
    Seq::new(32, |i: int| 0u8)
}

impl H256 {
    /// The hash whose bytes are all zero.
    pub fn zero() -> (h: H256)
        ensures
            h.bytes@ == zero_bytes32(),
    {
        H256 { bytes: [0u8; 32] }
    }
}

/// L1 gas needed for the three stages of submitting a block.
#[derive(Clone, Copy, Debug, PartialEq, Eq)]
pub struct BlockGasCount {
    pub commit: u32,
    pub prove: u32,
    pub execute: u32,
}

impl BlockGasCount {
    /// Whether the field-wise sum of the two counts fits the fields' type.
    pub open spec fn fits_sum(self, other: BlockGasCount) -> bool {
        &&& self.commit + other.commit <= u32::MAX
        &&& self.prove + other.prove <= u32::MAX
        &&& self.execute + other.execute <= u32::MAX
    }

    /// The field-wise sum, meaningful where `fits_sum` holds.
    pub open spec fn plus(self, other: BlockGasCount) -> BlockGasCount {
        BlockGasCount {
            commit: (self.commit + other.commit) as u32,
            prove: (self.prove + other.prove) as u32,
            execute: (self.execute + other.execute) as u32,
        }
    }

    pub open spec fn is_zero(self) -> bool {
        self.commit == 0 && self.prove == 0 && self.execute == 0
    }

    pub fn zero() -> (z: BlockGasCount)
        ensures
            z.is_zero(),
    {
        BlockGasCount { commit: 0, prove: 0, execute: 0 }
    }

    /// Tells whether `sum` may be called on the two counts.
    pub fn can_sum(&self, other: &BlockGasCount) -> (ok: bool)
        ensures
            ok == self.fits_sum(*other),
    {
        self.commit <= u32::MAX - other.commit && self.prove <= u32::MAX - other.prove
            && self.execute <= u32::MAX - other.execute
    }

    /// Field-wise sum of two counts.
    pub fn sum(&self, other: &BlockGasCount) -> (total: BlockGasCount)
        requires
            self.fits_sum(*other),
        ensures
            total == self.plus(*other),
    {
        BlockGasCount {
            commit: self.commit + other.commit,
            prove: self.prove + other.prove,
            execute: self.execute + other.execute,
        }
    }
}

/// Counters that describe what executing transactions cost.
#[derive(Clone, Copy, Debug, PartialEq, Eq)]
pub struct ExecutionMetrics {
    pub gas_used: usize,
    pub published_bytes: usize,
    pub l2_l1_logs: usize,
    pub contracts_used: usize,
    pub vm_events: usize,
    pub storage_logs: usize,
    pub cycles_used: u32,
    pub computational_gas_used: u32,
}

impl ExecutionMetrics {
    /// Whether the field-wise sum of the two values fits the fields' types.
    pub open spec fn fits_sum(self, other: ExecutionMetrics) -> bool {
        &&& self.gas_used + other.gas_used <= usize::MAX
        &&& self.published_bytes + other.published_bytes <= usize::MAX
        &&& self.l2_l1_logs + other.l2_l1_logs <= usize::MAX
        &&& self.contracts_used + other.contracts_used <= usize::MAX
        &&& self.vm_events + other.vm_events <= usize::MAX
        &&& self.storage_logs + other.storage_logs <= usize::MAX
        &&& self.cycles_used + other.cycles_used <= u32::MAX
        &&& self.computational_gas_used + other.computational_gas_used <= u32::MAX
    }

    /// The field-wise sum, meaningful where `fits_sum` holds.
    pub open spec fn plus(self, other: ExecutionMetrics) -> ExecutionMetrics {
        ExecutionMetrics {
            gas_used: (self.gas_used + other.gas_used) as usize,
            published_bytes: (self.published_bytes + other.published_bytes) as usize,
            l2_l1_logs: (self.l2_l1_logs + other.l2_l1_logs) as usize,
            contracts_used: (self.contracts_used + other.contracts_used) as usize,
            vm_events: (self.vm_events + other.vm_events) as usize,
            storage_logs: (self.storage_logs + other.storage_logs) as usize,
            cycles_used: (self.cycles_used + other.cycles_used) as u32,
            computational_gas_used: (self.computational_gas_used
                + other.computational_gas_used) as u32,
        }
    }

    pub open spec fn is_zero(self) -> bool {
        &&& self.gas_used == 0
        &&& self.published_bytes == 0
        &&& self.l2_l1_logs == 0
        &&& self.contracts_used == 0
        &&& self.vm_events == 0
        &&& self.storage_logs == 0
        &&& self.cycles_used == 0
        &&& self.computational_gas_used == 0
    }

    pub fn zero() -> (z: ExecutionMetrics)
        ensures
            z.is_zero(),
    {
        ExecutionMetrics {
            gas_used: 0,
            published_bytes: 0,
            l2_l1_logs: 0,
            contracts_used: 0,
            vm_events: 0,
            storage_logs: 0,
            cycles_used: 0,
            computational_gas_used: 0,
        }
    }

    /// Tells whether `sum` may be called on the two values.
    pub fn can_sum(&self, other: &ExecutionMetrics) -> (ok: bool)
        ensures
            ok == self.fits_sum(*other),
    {
        self.gas_used <= usize::MAX - other.gas_used && self.published_bytes <= usize::MAX
            - other.published_bytes && self.l2_l1_logs <= usize::MAX - other.l2_l1_logs
            && self.contracts_used <= usize::MAX - other.contracts_used && self.vm_events
            <= usize::MAX - other.vm_events && self.storage_logs <= usize::MAX
            - other.storage_logs && self.cycles_used <= u32::MAX - other.cycles_used
            && self.computational_gas_used <= u32::MAX - other.computational_gas_used
    }

    /// Field-wise sum of two values.
    pub fn sum(&self, other: &ExecutionMetrics) -> (total: ExecutionMetrics)
        requires
            self.fits_sum(*other),
        ensures
            total == self.plus(*other),
    {
        ExecutionMetrics {
            gas_used: self.gas_used + other.gas_used,
            published_bytes: self.published_bytes + other.published_bytes,
            l2_l1_logs: self.l2_l1_logs + other.l2_l1_logs,
            contracts_used: self.contracts_used + other.contracts_used,
            vm_events: self.vm_events + other.vm_events,
            storage_logs: self.storage_logs + other.storage_logs,
            cycles_used: self.cycles_used + other.cycles_used,
            computational_gas_used: self.computational_gas_used + other.computational_gas_used,
        }
    }
}

} // verus!
