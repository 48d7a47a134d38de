use alice_cloud_gateway::decimal::decimal_string;

#[test]
fn decimal_matches_display() {
    for n in [0u64, 7, 9, 10, 42, 100, 999, 1000, 65535, 1234567890, u64::MAX] {
        assert_eq!(decimal_string(n), n.to_string());
    }
}
