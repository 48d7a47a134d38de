use alice_cloud_gateway::device_keys::DeviceKeyStore;

#[test]
fn test_key_derivation_deterministic() {
    let mut store = DeviceKeyStore::new([1u8; 32]);
    let key1 = store.derive_device_key(42);
    let key2 = store.derive_device_key(42);
    assert_eq!(key1.as_bytes(), key2.as_bytes());
}

#[test]
fn test_different_devices_different_keys() {
    let mut store = DeviceKeyStore::new([1u8; 32]);
    let key_a = store.derive_device_key(1);
    let key_b = store.derive_device_key(2);
    assert_ne!(key_a.as_bytes(), key_b.as_bytes());
}

#[test]
fn test_different_masters_different_keys() {
    let mut store_a = DeviceKeyStore::new([1u8; 32]);
    let mut store_b = DeviceKeyStore::new([2u8; 32]);
    let key_a = store_a.derive_device_key(1);
    let key_b = store_b.derive_device_key(1);
    assert_ne!(key_a.as_bytes(), key_b.as_bytes());
}

#[test]
fn test_key_caching() {
    let mut store = DeviceKeyStore::new([1u8; 32]);
    assert_eq!(store.cached_key_count(), 0);
    store.derive_device_key(1);
    assert_eq!(store.cached_key_count(), 1);
    store.derive_device_key(2);
    assert_eq!(store.cached_key_count(), 2);
    store.derive_device_key(1);
    assert_eq!(store.cached_key_count(), 2);
}

#[test]
fn test_revoke_device() {
    let mut store = DeviceKeyStore::new([1u8; 32]);
    store.derive_device_key(1);
    store.derive_device_key(2);
    assert_eq!(store.cached_key_count(), 2);
    store.revoke_device(1);
    assert_eq!(store.cached_key_count(), 1);
    let _key = store.derive_device_key(1);
    assert_eq!(store.cached_key_count(), 2);
}

#[test]
fn test_clear_cache() {
    let mut store = DeviceKeyStore::new([1u8; 32]);
    for i in 0..10 {
        store.derive_device_key(i);
    }
    assert_eq!(store.cached_key_count(), 10);
    store.clear_cache();
    assert_eq!(store.cached_key_count(), 0);
}

#[test]
fn test_revoke_nonexistent_device() {
    let mut store = DeviceKeyStore::new([1u8; 32]);
    store.revoke_device(999);
    assert_eq!(store.cached_key_count(), 0);
}

#[test]
fn test_key_stability_after_revoke_and_rederive() {
    let mut store = DeviceKeyStore::new([1u8; 32]);
    let key_before = store.derive_device_key(42);
    store.revoke_device(42);
    let key_after = store.derive_device_key(42);
    assert_eq!(key_before.as_bytes(), key_after.as_bytes());
}

#[test]
fn test_many_devices_unique_keys() {
    let mut store = DeviceKeyStore::new([0xAB; 32]);
    let keys: Vec<_> = (0..100).map(|i| store.derive_device_key(i)).collect();
    for i in 0..keys.len() {
        for j in (i + 1)..keys.len() {
            assert_ne!(
                keys[i].as_bytes(),
                keys[j].as_bytes(),
                "Device {} and {} produced same key",
                i,
                j
            );
        }
    }
    assert_eq!(store.cached_key_count(), 100);
}

#[test]
fn test_zero_device_id_key_derivation() {
    let mut store = DeviceKeyStore::new([1u8; 32]);
    let key = store.derive_device_key(0);
    assert!(!key.as_bytes().iter().all(|&b| b == 0));
}

#[test]
fn test_max_device_id_key_derivation() {
    let mut store = DeviceKeyStore::new([1u8; 32]);
    let key = store.derive_device_key(u64::MAX);
    assert!(!key.as_bytes().iter().all(|&b| b == 0));
    assert_eq!(store.cached_key_count(), 1);
}

#[test]
fn test_clear_then_rederive() {
    let mut store = DeviceKeyStore::new([0x55; 32]);
    let key1 = store.derive_device_key(7);
    store.clear_cache();
    assert_eq!(store.cached_key_count(), 0);
    let key2 = store.derive_device_key(7);
    assert_eq!(key1.as_bytes(), key2.as_bytes());
    assert_eq!(store.cached_key_count(), 1);
}

// The key is BLAKE3 derive_key under the context "alice-gw:device:{id}".
#[test]
fn key_is_blake3_derivation_under_device_context() {
    let master = [9u8; 32];
    let mut store = DeviceKeyStore::new(master);
    let key = store.derive_device_key(1234567890);
    let expected = alice_crypto::derive_key("alice-gw:device:1234567890", &master);
    assert_eq!(key.as_bytes(), &expected);
    let key0 = store.derive_device_key(0);
    assert_eq!(key0.as_bytes(), &alice_crypto::derive_key("alice-gw:device:0", &master));
}
