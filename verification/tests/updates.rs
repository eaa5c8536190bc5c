use sha3::Digest;
use state_keeper_updates::hashing::{concat_and_hash, finalize_miniblock_hash, push_be_bytes};
use state_keeper_updates::primitives::{
    Address, BaseSystemContractsHashes, BatchFeeInput, BlockGasCount, ExecutionMetrics,
    L1BatchNumber, ProtocolVersionId, H256,
};
use state_keeper_updates::records::{
    Call, CompressedBytecodeInfo, StorageLog, Transaction, VmExecutionResultAndLogs,
};
use state_keeper_updates::updates::{
    L1BatchEnv, L2BlockEnv, MiniblockParams, SystemEnv, UpdatesManager,
};

fn hash_of(byte: u8) -> H256 {
    H256 { bytes: [byte; 32] }
}

fn create_updates_manager() -> UpdatesManager {
    let l1_batch_env = L1BatchEnv {
        number: L1BatchNumber { value: 1 },
        timestamp: 1,
        fee_account: Address { bytes: [7; 20] },
        fee_input: BatchFeeInput::L1Pegged { fair_l2_gas_price: 1, l1_gas_price: 1 },
        first_l2_block: L2BlockEnv {
            number: 1,
            timestamp: 1,
            prev_block_hash: hash_of(0),
            max_virtual_blocks_to_create: 1,
        },
    };
    let system_env = SystemEnv {
        version: ProtocolVersionId { value: 20 },
        base_system_contracts_hashes: BaseSystemContractsHashes {
            bootloader: hash_of(1),
            default_aa: hash_of(2),
        },
    };
    UpdatesManager::new(&l1_batch_env, &system_env, 250)
}

fn create_transaction(fee_per_gas: u64, gas_per_pubdata: u32) -> Transaction {
    let mut raw = fee_per_gas.to_be_bytes().to_vec();
    raw.extend_from_slice(&gas_per_pubdata.to_be_bytes());
    let hash = H256 { bytes: sha3::Keccak256::digest(&raw).into() };
    Transaction { hash, encoding_size: raw.len(), raw }
}

fn storage_log(key: u8, value: u8) -> StorageLog {
    StorageLog {
        address: Address { bytes: [9; 20] },
        key: hash_of(key),
        value: hash_of(value),
        is_write: true,
    }
}

fn create_execution_result(gas_used: u64, storage_logs: Vec<StorageLog>) -> VmExecutionResultAndLogs {
    VmExecutionResultAndLogs { failed: false, gas_used, storage_logs }
}

fn new_block_gas_count() -> BlockGasCount {
    BlockGasCount { commit: 0, prove: 0, execute: 0 }
}

fn gas(commit: u32, prove: u32, execute: u32) -> BlockGasCount {
    BlockGasCount { commit, prove, execute }
}

fn metrics(n: usize) -> ExecutionMetrics {
    ExecutionMetrics {
        gas_used: n,
        published_bytes: 2 * n,
        l2_l1_logs: 3 * n,
        contracts_used: 4 * n,
        vm_events: 5 * n,
        storage_logs: 6 * n,
        cycles_used: 7 * n as u32,
        computational_gas_used: 8 * n as u32,
    }
}

fn apply(manager: &mut UpdatesManager, tx: Transaction, l1_gas: BlockGasCount, m: ExecutionMetrics) {
    assert!(manager.can_extend(&l1_gas, &m, tx.encoding_size));
    manager.extend_from_executed_transaction(
        tx,
        create_execution_result(0, vec![]),
        vec![],
        l1_gas,
        m,
        vec![],
    );
}

fn keccak(data: &[u8]) -> [u8; 32] {
    sha3::Keccak256::digest(data).into()
}

fn expected_miniblock_hash(number: u32, timestamp: u64, prev: &H256, tx_hashes: &[H256]) -> [u8; 32] {
    let mut rolling = [0u8; 32];
    for h in tx_hashes {
        let mut buf = rolling.to_vec();
        buf.extend_from_slice(&h.bytes);
        rolling = keccak(&buf);
    }
    let mut buf = vec![0u8; 28];
    buf.extend_from_slice(&number.to_be_bytes());
    buf.extend_from_slice(&[0u8; 24]);
    buf.extend_from_slice(&timestamp.to_be_bytes());
    buf.extend_from_slice(&prev.bytes);
    buf.extend_from_slice(&rolling);
    keccak(&buf)
}

#[test]
fn apply_miniblock() {
    // Init accumulators.
    let mut updates_manager = create_updates_manager();
    assert_eq!(updates_manager.pending_executed_transactions_len(), 0);

    // Apply tx.
    let tx = create_transaction(10, 100);
    updates_manager.extend_from_executed_transaction(
        tx,
        create_execution_result(0, vec![]),
        vec![],
        new_block_gas_count(),
        ExecutionMetrics::zero(),
        vec![],
    );

    // Check that only pending state is updated.
    assert_eq!(updates_manager.pending_executed_transactions_len(), 1);
    assert_eq!(updates_manager.miniblock.executed_transactions.len(), 1);
    assert_eq!(updates_manager.l1_batch.executed_transactions.len(), 0);

    // Seal miniblock.
    updates_manager.push_miniblock(MiniblockParams { timestamp: 2, virtual_blocks: 1 });

    // Check that L1 batch updates are the same with the pending state
    // and miniblock updates are empty.
    assert_eq!(updates_manager.pending_executed_transactions_len(), 1);
    assert_eq!(updates_manager.miniblock.executed_transactions.len(), 0);
    assert_eq!(updates_manager.l1_batch.executed_transactions.len(), 1);
}

#[test]
fn new_manager_takes_over_the_environment() {
    let manager = create_updates_manager();
    assert_eq!(manager.batch_timestamp(), 1);
    assert_eq!(manager.protocol_version(), ProtocolVersionId { value: 20 });
    assert_eq!(
        manager.base_system_contract_hashes(),
        BaseSystemContractsHashes { bootloader: hash_of(1), default_aa: hash_of(2) }
    );
    assert_eq!(manager.base_fee_per_gas, 250);
    assert_eq!(manager.fee_account_address, Address { bytes: [7; 20] });
    assert_eq!(manager.l1_batch.number, L1BatchNumber { value: 1 });
    assert_eq!(manager.miniblock.number.value, 1);
    assert_eq!(manager.miniblock.timestamp, 1);
    assert_eq!(manager.miniblock.virtual_blocks, 1);
    assert_eq!(manager.miniblock.prev_block_hash, hash_of(0));
    assert_eq!(manager.miniblock.protocol_version, ProtocolVersionId { value: 20 });
    assert_eq!(manager.pending_l1_gas_count(), new_block_gas_count());
    assert_eq!(manager.pending_execution_metrics(), ExecutionMetrics::zero());
    assert_eq!(manager.pending_txs_encoding_size(), 0);
    assert!(manager.storage_writes_deduplicator.applied.is_empty());
}

#[test]
fn fictive_transaction_then_seal_command() {
    let mut manager = create_updates_manager();
    let bridge = Address { bytes: [3; 20] };
    manager.extend_from_fictive_transaction(
        create_execution_result(0, vec![storage_log(1, 2)]),
        gas(1, 2, 3),
        metrics(1),
    );
    let command = manager.seal_miniblock_command(bridge, false);
    assert_eq!(command.first_tx_index, 0);
    assert_eq!(command.miniblock.executed_transactions.len(), 1);
    assert_eq!(command.miniblock, manager.miniblock);
    assert!(command.miniblock.executed_transactions[0].transaction.is_none());
    assert_eq!(command.l1_batch_number, L1BatchNumber { value: 1 });
    assert_eq!(command.fee_account_address, Address { bytes: [7; 20] });
    assert_eq!(
        command.fee_input,
        BatchFeeInput::L1Pegged { fair_l2_gas_price: 1, l1_gas_price: 1 }
    );
    assert_eq!(command.base_fee_per_gas, 250);
    assert_eq!(command.protocol_version, Some(ProtocolVersionId { value: 20 }));
    assert_eq!(command.l2_erc20_bridge_addr, bridge);
    assert!(!command.pre_insert_txs);
    // Building the command folds nothing in.
    assert_eq!(manager.l1_batch.executed_transactions.len(), 0);
    assert_eq!(manager.miniblock.executed_transactions.len(), 1);

    manager.push_miniblock(MiniblockParams { timestamp: 2, virtual_blocks: 1 });
    assert_eq!(manager.l1_batch.executed_transactions.len(), 1);
    assert_eq!(manager.l1_batch.l1_gas_count, gas(1, 2, 3));
    assert_eq!(manager.l1_batch.block_execution_metrics, metrics(1));
    assert_eq!(manager.l1_batch.txs_encoding_size, 0);
    // The command is a copy of its own.
    assert_eq!(command.miniblock.executed_transactions.len(), 1);
}

#[test]
fn seal_command_index_counts_the_batch() {
    let mut manager = create_updates_manager();
    apply(&mut manager, create_transaction(1, 1), gas(1, 1, 1), metrics(1));
    apply(&mut manager, create_transaction(2, 2), gas(1, 1, 1), metrics(1));
    manager.push_miniblock(MiniblockParams { timestamp: 2, virtual_blocks: 1 });
    apply(&mut manager, create_transaction(3, 3), gas(1, 1, 1), metrics(1));
    let command = manager.seal_miniblock_command(Address { bytes: [0; 20] }, true);
    assert_eq!(command.first_tx_index, 2);
    assert_eq!(command.miniblock.executed_transactions.len(), 1);
    assert_eq!(command.miniblock.number.value, 2);
    assert!(command.pre_insert_txs);
}

#[test]
fn totals_are_added_exactly() {
    let mut manager = create_updates_manager();
    let first = create_transaction(10, 100);
    let second = create_transaction(11, 100);
    assert_eq!(first.encoding_size, 12);
    apply(&mut manager, first, gas(1, 2, 3), metrics(1));
    apply(&mut manager, second, gas(10, 20, 30), metrics(10));
    assert_eq!(manager.miniblock.l1_gas_count, gas(11, 22, 33));
    assert_eq!(manager.miniblock.block_execution_metrics, metrics(11));
    assert_eq!(manager.miniblock.txs_encoding_size, 24);
    assert_eq!(manager.l1_batch.l1_gas_count, gas(0, 0, 0));
    assert_eq!(manager.pending_l1_gas_count(), gas(11, 22, 33));
    assert_eq!(manager.pending_execution_metrics(), metrics(11));
    assert_eq!(manager.pending_txs_encoding_size(), 24);

    manager.push_miniblock(MiniblockParams { timestamp: 5, virtual_blocks: 2 });
    assert_eq!(manager.miniblock.l1_gas_count, gas(0, 0, 0));
    assert_eq!(manager.miniblock.block_execution_metrics, ExecutionMetrics::zero());
    assert_eq!(manager.miniblock.txs_encoding_size, 0);
    assert_eq!(manager.miniblock.timestamp, 5);
    assert_eq!(manager.miniblock.virtual_blocks, 2);
    assert_eq!(manager.l1_batch.l1_gas_count, gas(11, 22, 33));
    assert_eq!(manager.l1_batch.block_execution_metrics, metrics(11));
    assert_eq!(manager.l1_batch.txs_encoding_size, 24);

    apply(&mut manager, create_transaction(12, 100), gas(100, 200, 300), metrics(100));
    assert_eq!(manager.pending_executed_transactions_len(), 3);
    assert_eq!(manager.pending_l1_gas_count(), gas(111, 222, 333));
    assert_eq!(manager.pending_execution_metrics(), metrics(111));
    assert_eq!(manager.pending_txs_encoding_size(), 36);
}

#[test]
fn record_keeps_what_was_applied() {
    let mut manager = create_updates_manager();
    let tx = create_transaction(10, 100);
    let hash = tx.hash;
    let bytecodes = vec![CompressedBytecodeInfo { original: vec![1, 2, 3, 4], compressed: vec![9] }];
    let traces = vec![Call {
        caller: Address { bytes: [1; 20] },
        callee: Address { bytes: [2; 20] },
        gas_used: 5,
        reverted: false,
    }];
    manager.extend_from_executed_transaction(
        tx,
        create_execution_result(77, vec![storage_log(1, 2)]),
        bytecodes,
        gas(1, 2, 3),
        metrics(4),
        traces,
    );
    let record = &manager.miniblock.executed_transactions[0];
    assert_eq!(record.hash, hash);
    assert_eq!(record.transaction.as_ref().unwrap().raw.len(), 12);
    assert_eq!(record.l1_gas, gas(1, 2, 3));
    assert_eq!(record.execution_info, metrics(4));
    assert_eq!(record.result.gas_used, 77);
    assert_eq!(record.result.storage_logs, vec![storage_log(1, 2)]);
    assert_eq!(record.compressed_bytecodes[0].original, vec![1, 2, 3, 4]);
    assert_eq!(record.compressed_bytecodes[0].compressed, vec![9]);
    assert_eq!(record.call_traces[0].gas_used, 5);
    let command = manager.seal_miniblock_command(Address { bytes: [0; 20] }, false);
    assert_eq!(command.miniblock.executed_transactions[0], *record);
    assert_eq!(record.clone(), *record);
    assert_eq!(manager.miniblock.clone(), manager.miniblock);
}

#[test]
fn deduplicator_gets_every_result_in_order() {
    let mut manager = create_updates_manager();
    manager.extend_from_executed_transaction(
        create_transaction(1, 1),
        create_execution_result(0, vec![storage_log(1, 1), storage_log(1, 2)]),
        vec![],
        new_block_gas_count(),
        ExecutionMetrics::zero(),
        vec![],
    );
    manager.push_miniblock(MiniblockParams { timestamp: 2, virtual_blocks: 1 });
    manager.extend_from_fictive_transaction(
        create_execution_result(0, vec![storage_log(3, 3)]),
        new_block_gas_count(),
        ExecutionMetrics::zero(),
    );
    manager.extend_from_executed_transaction(
        create_transaction(2, 2),
        create_execution_result(0, vec![]),
        vec![],
        new_block_gas_count(),
        ExecutionMetrics::zero(),
        vec![],
    );
    assert_eq!(
        manager.storage_writes_deduplicator.applied,
        vec![vec![storage_log(1, 1), storage_log(1, 2)], vec![storage_log(3, 3)], vec![]]
    );
}

#[test]
fn io_cursor_points_behind_the_open_miniblock() {
    let mut manager = create_updates_manager();
    let cursor = manager.io_cursor();
    assert_eq!(cursor.next_miniblock.value, 2);
    assert_eq!(cursor.prev_miniblock_timestamp, 1);
    assert_eq!(cursor.l1_batch, L1BatchNumber { value: 1 });
    assert_eq!(cursor.prev_miniblock_hash, manager.miniblock.get_miniblock_hash());

    let hash_before = manager.miniblock.get_miniblock_hash();
    manager.push_miniblock(MiniblockParams { timestamp: 9, virtual_blocks: 1 });
    assert_eq!(manager.miniblock.prev_block_hash, hash_before);
    let cursor = manager.io_cursor();
    assert_eq!(cursor.next_miniblock.value, 3);
    assert_eq!(cursor.prev_miniblock_timestamp, 9);
    assert_eq!(cursor.next_miniblock.value, manager.miniblock.number.value + 1);
}

#[test]
fn concat_and_hash_of_zero_hashes() {
    let h = concat_and_hash(&H256::zero(), &H256::zero());
    let expected: [u8; 32] = [
        0xad, 0x32, 0x28, 0xb6, 0x76, 0xf7, 0xd3, 0xcd, 0x42, 0x84, 0xa5, 0x44, 0x3f, 0x17, 0xf1,
        0x96, 0x2b, 0x36, 0xe4, 0x91, 0xb3, 0x0a, 0x40, 0xb2, 0x40, 0x58, 0x49, 0xe5, 0x97, 0xba,
        0x5f, 0xb5,
    ];
    assert_eq!(h.bytes, expected);
    assert_ne!(h.bytes, [0u8; 32]);
}

#[test]
fn be_bytes_are_big_endian() {
    let mut out = vec![0xff];
    push_be_bytes(&mut out, 0x0102_0304, 6);
    assert_eq!(out, vec![0xff, 0, 0, 1, 2, 3, 4]);
    let mut short = Vec::new();
    push_be_bytes(&mut short, 0x0102_0304, 2);
    assert_eq!(short, vec![3, 4]);
    let mut none = vec![5];
    push_be_bytes(&mut none, 77, 0);
    assert_eq!(none, vec![5]);
}

#[test]
fn miniblock_hash_has_the_stated_layout() {
    let mut manager = create_updates_manager();
    assert_eq!(
        manager.miniblock.get_miniblock_hash().bytes,
        expected_miniblock_hash(1, 1, &hash_of(0), &[])
    );
    let first = create_transaction(1, 1);
    let second = create_transaction(2, 2);
    let hashes = [first.hash, second.hash];
    apply(&mut manager, first, new_block_gas_count(), ExecutionMetrics::zero());
    apply(&mut manager, second, new_block_gas_count(), ExecutionMetrics::zero());
    assert_eq!(
        manager.miniblock.get_miniblock_hash().bytes,
        expected_miniblock_hash(1, 1, &hash_of(0), &hashes)
    );
    assert_eq!(
        finalize_miniblock_hash(1, 1, &hash_of(0), &H256::zero()).bytes,
        expected_miniblock_hash(1, 1, &hash_of(0), &[])
    );
}

#[test]
fn miniblock_hash_is_repeatable() {
    let mut manager = create_updates_manager();
    apply(&mut manager, create_transaction(1, 1), gas(1, 1, 1), metrics(1));
    let first = manager.miniblock.get_miniblock_hash();
    let second = manager.miniblock.get_miniblock_hash();
    assert_eq!(first, second);
    assert_eq!(manager.miniblock.executed_transactions.len(), 1);
    assert_eq!(manager.io_cursor().prev_miniblock_hash, first);
}

#[test]
fn miniblock_hash_depends_on_order_and_header() {
    let mut one = create_updates_manager();
    let mut other = create_updates_manager();
    apply(&mut one, create_transaction(1, 1), new_block_gas_count(), ExecutionMetrics::zero());
    apply(&mut one, create_transaction(2, 2), new_block_gas_count(), ExecutionMetrics::zero());
    apply(&mut other, create_transaction(2, 2), new_block_gas_count(), ExecutionMetrics::zero());
    apply(&mut other, create_transaction(1, 1), new_block_gas_count(), ExecutionMetrics::zero());
    assert_ne!(one.miniblock.get_miniblock_hash(), other.miniblock.get_miniblock_hash());

    let empty = create_updates_manager();
    let mut later = create_updates_manager();
    later.miniblock.timestamp = 2;
    assert_ne!(empty.miniblock.get_miniblock_hash(), later.miniblock.get_miniblock_hash());
    let mut next = create_updates_manager();
    next.miniblock.number.value = 2;
    assert_ne!(empty.miniblock.get_miniblock_hash(), next.miniblock.get_miniblock_hash());
    let mut linked = create_updates_manager();
    linked.miniblock.prev_block_hash = hash_of(1);
    assert_ne!(empty.miniblock.get_miniblock_hash(), linked.miniblock.get_miniblock_hash());
}

#[test]
fn empty_miniblock_is_sealed_and_chained() {
    let mut manager = create_updates_manager();
    let first_hash = manager.miniblock.get_miniblock_hash();
    manager.push_miniblock(MiniblockParams { timestamp: 2, virtual_blocks: 1 });
    assert_eq!(manager.miniblock.number.value, 2);
    assert_eq!(manager.miniblock.prev_block_hash, first_hash);
    assert_eq!(manager.l1_batch.executed_transactions.len(), 0);
    assert_eq!(manager.pending_executed_transactions_len(), 0);
    let second_hash = manager.miniblock.get_miniblock_hash();
    manager.push_miniblock(MiniblockParams { timestamp: 3, virtual_blocks: 1 });
    assert_eq!(manager.miniblock.number.value, 3);
    assert_eq!(manager.miniblock.prev_block_hash, second_hash);
    assert_eq!(manager.miniblock.protocol_version, ProtocolVersionId { value: 20 });
}

#[test]
fn batch_is_the_concatenation_of_sealed_miniblocks() {
    let mut manager = create_updates_manager();
    let mut expected: Vec<H256> = Vec::new();
    let sizes = [2usize, 0, 3, 1];
    let mut seed: u64 = 0;
    for size in sizes {
        for _ in 0..size {
            seed += 1;
            let tx = create_transaction(seed, 7);
            expected.push(tx.hash);
            apply(&mut manager, tx, gas(1, 1, 1), metrics(1));
        }
        manager.push_miniblock(MiniblockParams { timestamp: 10 + seed, virtual_blocks: 1 });
    }
    let got: Vec<H256> = manager.l1_batch.executed_transactions.iter().map(|r| r.hash).collect();
    assert_eq!(got, expected);
    assert_eq!(got.len(), 6);
    assert_eq!(manager.miniblock.executed_transactions.len(), 0);
}

#[test]
fn interleaved_applies_and_pushes_lose_nothing() {
    let mut manager = create_updates_manager();
    let mut state: u64 = 0x2545_f491_4f6c_dd1d;
    let mut applied: usize = 0;
    let mut pushed: u32 = 0;
    let mut last_number = manager.miniblock.number.value;
    assert_eq!(last_number, 1);
    for round in 0..200u64 {
        state = state.wrapping_mul(6364136223846793005).wrapping_add(1442695040888963407);
        match (state >> 33) % 3 {
            0 => {
                assert!(manager.can_push());
                manager.push_miniblock(MiniblockParams { timestamp: round + 2, virtual_blocks: 1 });
                pushed += 1;
                assert!(manager.miniblock.number.value > last_number);
                last_number = manager.miniblock.number.value;
            }
            1 => {
                apply(&mut manager, create_transaction(round, 1), gas(1, 2, 3), metrics(1));
                applied += 1;
            }
            _ => {
                manager.extend_from_fictive_transaction(
                    create_execution_result(0, vec![]),
                    gas(1, 2, 3),
                    metrics(1),
                );
                applied += 1;
            }
        }
        assert_eq!(
            manager.pending_executed_transactions_len(),
            manager.l1_batch.executed_transactions.len()
                + manager.miniblock.executed_transactions.len()
        );
        assert_eq!(manager.pending_executed_transactions_len(), applied);
        assert_eq!(manager.miniblock.number.value, 1 + pushed);
        assert_eq!(manager.io_cursor().next_miniblock.value, manager.miniblock.number.value + 1);
    }
    assert!(applied > 0 && pushed > 0);
    assert_eq!(manager.pending_l1_gas_count(), gas(applied as u32, 2 * applied as u32, 3 * applied as u32));
    assert_eq!(manager.pending_execution_metrics(), metrics(applied));
    assert_eq!(manager.storage_writes_deduplicator.applied.len(), applied);
}

#[test]
fn can_extend_refuses_what_would_overflow() {
    let mut manager = create_updates_manager();
    apply(&mut manager, create_transaction(1, 1), gas(u32::MAX - 1, 0, 0), metrics(0));
    manager.push_miniblock(MiniblockParams { timestamp: 2, virtual_blocks: 1 });
    assert!(manager.can_extend(&gas(1, 5, 5), &metrics(1), 10));
    assert!(!manager.can_extend(&gas(2, 0, 0), &metrics(0), 0));
    assert!(!manager.can_extend(&gas(0, 0, 0), &metrics(0), usize::MAX));
    let mut big = metrics(0);
    big.cycles_used = u32::MAX;
    assert!(manager.can_extend(&gas(0, 0, 0), &big, 0));
    apply(&mut manager, create_transaction(2, 1), gas(0, 0, 0), metrics(1));
    assert!(!manager.can_extend(&gas(0, 0, 0), &big, 0));
    assert!(manager.is_well_formed());
    manager.miniblock.l1_gas_count = gas(2, 0, 0);
    assert!(!manager.is_well_formed());
    manager.miniblock.l1_gas_count = gas(1, 0, 0);
    assert!(manager.is_well_formed());
    manager.miniblock.protocol_version = ProtocolVersionId { value: 21 };
    assert!(!manager.is_well_formed());
}

#[test]
fn can_push_stops_before_the_last_number() {
    let mut manager = create_updates_manager();
    assert!(manager.can_push());
    manager.miniblock.number.value = u32::MAX - 2;
    assert!(manager.can_push());
    manager.push_miniblock(MiniblockParams { timestamp: 2, virtual_blocks: 1 });
    assert_eq!(manager.miniblock.number.value, u32::MAX - 1);
    assert!(manager.can_push());
    assert_eq!(manager.io_cursor().next_miniblock.value, u32::MAX);
    manager.push_miniblock(MiniblockParams { timestamp: 3, virtual_blocks: 1 });
    assert_eq!(manager.miniblock.number.value, u32::MAX);
    assert!(!manager.can_push());
    assert!(manager.is_well_formed());
}

#[test]
fn gas_counts_and_metrics_sum_field_by_field() {
    assert_eq!(gas(1, 2, 3).sum(&gas(10, 20, 30)), gas(11, 22, 33));
    assert!(gas(u32::MAX, 0, 0).can_sum(&gas(0, 1, 1)));
    assert!(!gas(u32::MAX, 0, 0).can_sum(&gas(1, 0, 0)));
    assert!(!gas(0, u32::MAX, 0).can_sum(&gas(0, 1, 0)));
    assert!(!gas(0, 0, u32::MAX).can_sum(&gas(0, 0, 1)));
    assert_eq!(metrics(2).sum(&metrics(3)), metrics(5));
    let mut full = metrics(0);
    full.gas_used = usize::MAX;
    assert!(full.can_sum(&metrics(0)));
    assert!(!full.can_sum(&metrics(1)));
    assert_eq!(BlockGasCount::zero(), gas(0, 0, 0));
    assert_eq!(ExecutionMetrics::zero(), metrics(0));
}
