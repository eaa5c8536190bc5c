use state_keeper_updates::healthcheck::{
    HealthStatus, MainConnectionPool, MainConnectionPoolHealthCheck, MainConnectionPoolHealthDetails,
};
use state_keeper_updates::protocol_versions::{
    h256_from_slice, is_verifier_config_row, l1_verifier_config_from_row,
};

#[test]
fn health_check_reports_the_pool_size() {
    let check = MainConnectionPoolHealthCheck::new(MainConnectionPool { size: 5 });
    assert_eq!(check.connection_pool, MainConnectionPool { size: 5 });
    assert_eq!(check.name(), "main_connection_pool");
    let health = check.check_health();
    assert_eq!(health.status, HealthStatus::Ready);
    assert_eq!(health.details, MainConnectionPoolHealthDetails { pool_size: 5 });
    assert_eq!(MainConnectionPoolHealthDetails::new(&MainConnectionPool { size: 0 }).pool_size, 0);
}

#[test]
fn verifier_config_is_read_from_its_columns() {
    let scheduler: Vec<u8> = (0u8..32).collect();
    let node = vec![1u8; 32];
    let leaf = vec![2u8; 32];
    let circuits = vec![3u8; 32];
    assert!(is_verifier_config_row(&scheduler, &node, &leaf, &circuits));
    let config = l1_verifier_config_from_row(&scheduler, &node, &leaf, &circuits);
    assert_eq!(config.recursion_scheduler_level_vk_hash.bytes.to_vec(), scheduler);
    assert_eq!(config.params.recursion_node_level_vk_hash.bytes, [1u8; 32]);
    assert_eq!(config.params.recursion_leaf_level_vk_hash.bytes, [2u8; 32]);
    assert_eq!(config.params.recursion_circuits_set_vks_hash.bytes, [3u8; 32]);
    assert_eq!(h256_from_slice(&scheduler).bytes[31], 31);
}

#[test]
fn short_column_is_no_verifier_config() {
    let good = vec![0u8; 32];
    assert!(!is_verifier_config_row(&vec![0u8; 31], &good, &good, &good));
    assert!(!is_verifier_config_row(&good, &vec![], &good, &good));
    assert!(!is_verifier_config_row(&good, &good, &vec![0u8; 33], &good));
    assert!(!is_verifier_config_row(&good, &good, &good, &vec![0u8; 1]));
}
