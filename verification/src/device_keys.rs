//! Per-device key management.
//!
//! Each device's stream key is derived from the gateway's master secret with
//! the BLAKE3 key derivation function under the context string
//! `alice-gw:device:{id}`. Derived keys are cached; the cache only ever holds
//! the key that derivation gives, so a cached key and a freshly derived one
//! are the same.
use crate::decimal::{decimal, decimal_string, lemma_decimal_injective};
use vstd::prelude::*;
use std::collections::HashMap;

verus! {

broadcast use vstd::std_specs::hash::group_hash_axioms;

/// What BLAKE3's `derive_key` returns for a context string and key material.
pub uninterp spec fn blake3_derive_key(context: Seq<char>, key_material: Seq<u8>) -> Seq<u8>;

/// `alice_crypto::derive_key` (BLAKE3 `derive_key`): the 32-byte key derived
/// from `context` and `key_material`. Claimed: the result is the value of
/// `blake3_derive_key` on the context's characters and the material's bytes,
/// so the same inputs give the same key.
#[verifier::external_body]
fn derive_key_bytes(context: &str, key_material: &[u8; 32]) -> (out: [u8; 32])
    ensures
        out@ == blake3_derive_key(context@, key_material@),
{
    alice_crypto::derive_key(context, key_material)
}

/// The derivation context of a device.
pub open spec fn device_context(device_id: u64) -> Seq<char> {
    "alice-gw:device:"@ + decimal(device_id as nat)
}

/// The key of a device under a master secret.
pub open spec fn device_key(master_secret: Seq<u8>, device_id: u64) -> Seq<u8> {
    blake3_derive_key(device_context(device_id), master_secret)
}

/// Distinct devices derive their keys under distinct contexts.
pub proof fn lemma_device_context_injective(a: u64, b: u64)
    requires
        a != b,
    ensures
        device_context(a) != device_context(b),
{
    let p = "alice-gw:device:"@;
    if device_context(a) == device_context(b) {
        assert(device_context(a).subrange(p.len() as int, device_context(a).len() as int)
            =~= decimal(a as nat));
        assert(device_context(b).subrange(p.len() as int, device_context(b).len() as int)
            =~= decimal(b as nat));
        lemma_decimal_injective(a as nat, b as nat);
    }
}

fn device_context_string(device_id: u64) -> (s: String)
    ensures
        s@ == device_context(device_id),
{
    let mut context = String::from_str("alice-gw:device:");
    let digits = decimal_string(device_id);
    context.append(digits.as_str());
    context
}

/// A device's 32-byte stream key.
#[derive(Debug, Clone)]
pub struct DeviceKey {
    bytes: [u8; 32],
}

impl DeviceKey {
    /// The key's bytes.
    pub closed spec fn spec_bytes(&self) -> Seq<u8> {
        self.bytes@
    }

    /// The key's bytes.
    pub fn as_bytes(&self) -> (b: &[u8; 32])
        ensures
            b@ == self.spec_bytes(),
    {
        &self.bytes
    }
}

/// Observable state of a key store.
pub struct DeviceKeyStoreView {
    pub master_secret: Seq<u8>,
    /// Devices whose keys are cached.
    pub cached_devices: Set<u64>,
}

/// Device key store.
pub struct DeviceKeyStore {
    master_secret: [u8; 32],
    key_cache: HashMap<u64, [u8; 32]>,
}

impl View for DeviceKeyStore {
    type V = DeviceKeyStoreView;

    closed spec fn view(&self) -> DeviceKeyStoreView {
        DeviceKeyStoreView {
            master_secret: self.master_secret@,
            cached_devices: self.key_cache@.dom(),
        }
    }
}

impl DeviceKeyStore {
    /// Every cached key is the key that derivation gives for its device.
    pub closed spec fn wf(&self) -> bool {
        forall|id: u64| #[trigger]
            self.key_cache@.contains_key(id) ==> self.key_cache@[id]@ == device_key(
                self.master_secret@,
                id,
            )
    }

    /// A store for `master_secret` with an empty cache.
    pub fn new(master_secret: [u8; 32]) -> (s: Self)
        ensures
            s.wf(),
            s@.master_secret == master_secret@,
            s@.cached_devices == Set::<u64>::empty(),
            s@.cached_devices.finite(),
    {
        DeviceKeyStore { master_secret, key_cache: HashMap::new() }
    }

    /// The key of `device_id`: from the cache when present, otherwise derived
    /// and cached.
    pub fn derive_device_key(&mut self, device_id: u64) -> (k: DeviceKey)
        requires
            old(self).wf(),
        ensures
            final(self).wf(),
            k.spec_bytes() == device_key(old(self)@.master_secret, device_id),
            final(self)@.master_secret == old(self)@.master_secret,
            final(self)@.cached_devices == old(self)@.cached_devices.insert(device_id),
            final(self)@.cached_devices.finite(),
    {
        match self.key_cache.get(&device_id) {
            Some(cached) => {
                let bytes = *cached;
                assert(self.key_cache@.dom().insert(device_id) =~= self.key_cache@.dom());
                return DeviceKey { bytes };
            },
            None => {},
        }
        let context = device_context_string(device_id);
        let derived = derive_key_bytes(context.as_str(), &self.master_secret);
        self.key_cache.insert(device_id, derived);
        DeviceKey { bytes: derived }
    }

    /// Drop a device's cached key; the next request derives it again.
    pub fn revoke_device(&mut self, device_id: u64)
        requires
            old(self).wf(),
        ensures
            final(self).wf(),
            final(self)@.master_secret == old(self)@.master_secret,
            final(self)@.cached_devices == old(self)@.cached_devices.remove(device_id),
            final(self)@.cached_devices.finite(),
    {
        self.key_cache.remove(&device_id);
    }

    /// Number of cached keys.
    pub fn cached_key_count(&self) -> (n: usize)
        ensures
            self@.cached_devices.finite(),
            n == self@.cached_devices.len(),
    {
        self.key_cache.len()
    }

    /// Drop every cached key.
    pub fn clear_cache(&mut self)
        requires
            old(self).wf(),
        ensures
            final(self).wf(),
            final(self)@.master_secret == old(self)@.master_secret,
            final(self)@.cached_devices == Set::<u64>::empty(),
            final(self)@.cached_devices.finite(),
    {
        self.key_cache.clear();
    }
}

} // verus!
