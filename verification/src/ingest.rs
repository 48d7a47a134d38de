//! Decisions of the ASP packet ingest pipeline.
//!
//! A packet is `device_id` (8 bytes, little endian), `scene_version`
//! (4 bytes, little endian) and a sealed payload (nonce, ciphertext, tag).
//! The pipeline opens the payload with the device's key, classifies it
//! (a first byte of `0x01` marks a keyframe), caches the opened frame under
//! `(device_id << 32) | scene_version`, routes a message for it to a
//! processing queue and keeps routing statistics. Spatial storage, multi-device
//! sync and latency telemetry are done by the program around this pipeline,
//! between `decode_packet` and `commit_packet`.
use crate::decimal::{decimal, decimal_string};
use crate::device_keys::{device_key, DeviceKeyStore};
use crate::queue_bridge::{GatewayMessage, GatewayRouter, MessagePriority};
use alice_cache::AliceCache;
use vstd::bytes::*;
use vstd::prelude::*;
use vstd::slice::slice_subrange;

verus! {

/// Ingest pipeline error.
#[derive(Debug)]
pub enum IngestError {
    /// Unknown device (not registered).
    UnknownDevice(u64),
    /// Decryption failed.
    DecryptionFailed(String),
    /// Malformed packet.
    MalformedPacket(String),
    /// Storage error.
    StorageError(String),
}

impl IngestError {
    /// Human-readable description, as the gateway logs it.
    pub fn message(&self) -> (s: String)
        ensures
            s@ == match self {
                IngestError::UnknownDevice(id) => "Unknown device: "@ + decimal(*id as nat),
                IngestError::DecryptionFailed(m) => "Decryption failed: "@ + m@,
                IngestError::MalformedPacket(m) => "Malformed packet: "@ + m@,
                IngestError::StorageError(m) => "Storage error: "@ + m@,
            },
    {
        match self {
            IngestError::UnknownDevice(id) => {
                let mut s = String::from_str("Unknown device: ");
                let digits = decimal_string(*id);
                s.append(digits.as_str());
                s
            },
            IngestError::DecryptionFailed(m) => {
                let mut s = String::from_str("Decryption failed: ");
                s.append(m.as_str());
                s
            },
            IngestError::MalformedPacket(m) => {
                let mut s = String::from_str("Malformed packet: ");
                s.append(m.as_str());
                s
            },
            IngestError::StorageError(m) => {
                let mut s = String::from_str("Storage error: ");
                s.append(m.as_str());
                s
            },
        }
    }
}

// ---------------------------------------------------------------------------
// Sealed payloads (alice_crypto)
// ---------------------------------------------------------------------------

/// Why opening a sealed payload failed.
#[derive(Debug, Clone, Copy, PartialEq, Eq, Structural)]
pub enum CipherFailure {
    EncryptionFailed,
    DecryptionFailed,
    RandomFailed,
    BufferTooSmall,
}

/// The plaintext that XChaCha20-Poly1305 recovers from a sealed payload
/// (`[nonce 24B][ciphertext][tag 16B]`) under a key, or `None` when the tag
/// does not authenticate.
pub uninterp spec fn aead_open(key: Seq<u8>, sealed: Seq<u8>) -> Option<Seq<u8>>;

/// `alice_crypto::open`: authenticated decryption of a sealed payload.
/// Claimed, as its source shows: input shorter than nonce plus tag fails with
/// `BufferTooSmall`; otherwise it succeeds exactly when `aead_open` recovers a
/// plaintext, returns that plaintext (40 bytes shorter than the input), and
/// fails with `DecryptionFailed` when authentication fails.
#[verifier::external_body]
fn open_sealed(key: &[u8; 32], sealed: &[u8]) -> (opened: Result<Vec<u8>, CipherFailure>)
    ensures
        sealed@.len() < 40 ==> opened matches Err(CipherFailure::BufferTooSmall),
        sealed@.len() >= 40 ==> match opened {
            Ok(pt) => aead_open(key@, sealed@) == Some(pt@) && pt@.len() == sealed@.len() - 40,
            Err(e) => aead_open(key@, sealed@) is None && e == CipherFailure::DecryptionFailed,
        },
{
    let k = alice_crypto::Key::from_bytes(*key);
    match alice_crypto::open(&k, sealed) {
        Ok(pt) => Ok(pt),
        Err(alice_crypto::CipherError::EncryptionFailed) => Err(CipherFailure::EncryptionFailed),
        Err(alice_crypto::CipherError::DecryptionFailed) => Err(CipherFailure::DecryptionFailed),
        Err(alice_crypto::CipherError::RandomFailed) => Err(CipherFailure::RandomFailed),
        Err(alice_crypto::CipherError::BufferTooSmall) => Err(CipherFailure::BufferTooSmall),
    }
}

/// The name of a cipher failure, as its `Debug` form writes it.
pub open spec fn cipher_failure_name(e: CipherFailure) -> Seq<char> {
    match e {
        CipherFailure::EncryptionFailed => "EncryptionFailed"@,
        CipherFailure::DecryptionFailed => "DecryptionFailed"@,
        CipherFailure::RandomFailed => "RandomFailed"@,
        CipherFailure::BufferTooSmall => "BufferTooSmall"@,
    }
}

/// `e` reports that opening the payload failed with `f`.
pub open spec fn decryption_failed_with(e: IngestError, f: CipherFailure) -> bool {
    e matches IngestError::DecryptionFailed(m) && m@ == cipher_failure_name(f)
}

fn cipher_failure_string(e: CipherFailure) -> (s: String)
    ensures
        s@ == cipher_failure_name(e),
{
    match e {
        CipherFailure::EncryptionFailed => String::from_str("EncryptionFailed"),
        CipherFailure::DecryptionFailed => String::from_str("DecryptionFailed"),
        CipherFailure::RandomFailed => String::from_str("RandomFailed"),
        CipherFailure::BufferTooSmall => String::from_str("BufferTooSmall"),
    }
}

// ---------------------------------------------------------------------------
// Frame cache (alice_cache)
// ---------------------------------------------------------------------------

#[verifier::external_type_specification]
#[verifier::external_body]
#[verifier::reject_recursive_types(K)]
#[verifier::reject_recursive_types(V)]
pub struct ExAliceCache<K, V>(AliceCache<K, V>);

/// The frames an `AliceCache` holds, by key.
pub uninterp spec fn cached_frames(cache: AliceCache<u64, Vec<u8>>) -> Map<u64, Seq<u8>>;

/// The capacity of each of an `AliceCache`'s shards, fixed when it was made.
pub uninterp spec fn frame_cache_shard_capacity(cache: AliceCache<u64, Vec<u8>>) -> nat;

/// `AliceCache::new`: an empty cache of the given capacity, split over 256
/// shards of `capacity.div_ceil(256)` entries each.
#[verifier::external_body]
fn frame_cache_new(capacity: usize) -> (cache: AliceCache<u64, Vec<u8>>)
    ensures
        cached_frames(cache).dom() == Set::<u64>::empty(),
        frame_cache_shard_capacity(cache) == (capacity + 255) / 256,
{
    AliceCache::new(capacity)
}

/// `AliceCache::get`: the frame cached under `key`, if any. Lookup leaves
/// the contents unchanged (it updates only hit statistics).
#[verifier::external_body]
fn frame_cache_get(cache: &AliceCache<u64, Vec<u8>>, key: u64) -> (r: Option<Vec<u8>>)
    ensures
        match r {
            Some(v) => cached_frames(*cache).contains_key(key) && cached_frames(*cache)[key]
                == v@,
            None => !cached_frames(*cache).contains_key(key),
        },
{
    cache.get(&key)
}

/// `AliceCache::put`: afterwards `key` holds `value`. Replacing a cached key
/// changes nothing else. Inserting a new key evicts one other entry first
/// when the key's shard is full, and nothing otherwise; which shard a key
/// falls in depends on a per-process hash seed and which entry goes on
/// sampling, so neither is stated. What is stated: nothing is added but the
/// key, the cache never shrinks, and while the cache holds fewer entries
/// than one shard's capacity no shard is full, so nothing is evicted.
#[verifier::external_body]
fn frame_cache_put(cache: &mut AliceCache<u64, Vec<u8>>, key: u64, value: Vec<u8>)
    ensures
        cached_frames(*final(cache)).contains_key(key),
        cached_frames(*final(cache))[key] == value@,
        forall|k: u64|
            k != key && #[trigger] cached_frames(*final(cache)).contains_key(k) ==> cached_frames(
                *old(cache),
            ).contains_key(k) && cached_frames(*final(cache))[k] == cached_frames(*old(cache))[k],
        cached_frames(*old(cache)).contains_key(key) ==> cached_frames(*final(cache))
            == cached_frames(*old(cache)).insert(key, value@),
        frame_cache_shard_capacity(*final(cache)) == frame_cache_shard_capacity(*old(cache)),
        cached_frames(*final(cache)).dom().finite(),
        cached_frames(*old(cache)).dom().finite() ==> cached_frames(*old(cache)).dom().len()
            <= cached_frames(*final(cache)).dom().len(),
        cached_frames(*old(cache)).dom().finite() && cached_frames(*old(cache)).dom().len()
            < frame_cache_shard_capacity(*old(cache)) ==> cached_frames(*final(cache))
            == cached_frames(*old(cache)).insert(key, value@),
{
    cache.put(key, value)
}

// ---------------------------------------------------------------------------
// Packet format
// ---------------------------------------------------------------------------

/// Length of the cleartext packet header.
pub const PACKET_HEADER_LEN: usize = 12;

/// Cleartext header of a packet.
#[derive(Debug, Clone, Copy, PartialEq, Eq, Structural)]
pub struct PacketHeader {
    pub device_id: u64,
    pub scene_version: u32,
}

/// The header a raw packet carries, if it is long enough.
pub open spec fn packet_header(raw: Seq<u8>) -> Option<PacketHeader> {
    if raw.len() < 12 {
        None
    } else {
        Some(
            PacketHeader {
                device_id: spec_u64_from_le_bytes(raw.subrange(0, 8)),
                scene_version: spec_u32_from_le_bytes(raw.subrange(8, 12)),
            },
        )
    }
}

/// The error for a packet too short to hold a header.
pub open spec fn too_short_message() -> Seq<char> {
    "Packet too short (< 12 bytes)"@
}

/// Read the cleartext header of a packet.
pub fn parse_packet_header(raw: &[u8]) -> (r: Result<PacketHeader, IngestError>)
    ensures
        match packet_header(raw@) {
            Some(h) => r matches Ok(got) && got == h,
            None => r matches Err(IngestError::MalformedPacket(m)) && m@ == too_short_message(),
        },
{
    if raw.len() < PACKET_HEADER_LEN {
        return Err(IngestError::MalformedPacket(String::from_str("Packet too short (< 12 bytes)")));
    }
    let device_id = u64_from_le_bytes(slice_subrange(raw, 0, 8));
    let scene_version = u32_from_le_bytes(slice_subrange(raw, 8, 12));
    Ok(PacketHeader { device_id, scene_version })
}

/// Whether an opened payload is a keyframe (I-packet).
pub open spec fn is_keyframe(payload: Seq<u8>) -> bool {
    payload.len() > 0 && payload[0] == 0x01
}

/// An opened payload is a keyframe exactly when it is non-empty and its first
/// byte is `0x01`; any other first byte (`0x00`, `0x02`, `0x03`, ...) marks a
/// delta.
pub proof fn lemma_keyframe_iff_first_byte(payload: Seq<u8>)
    ensures
        is_keyframe(payload) <==> (payload.len() > 0 && payload[0] == 0x01u8),
        payload.len() > 0 && payload[0] != 0x01u8 ==> !is_keyframe(payload),
{
}

/// The cache key of a device's frame: the device id's low 32 bits above the
/// scene version.
pub open spec fn frame_key(device_id: u64, scene_version: u32) -> u64 {
    ((device_id as int % 0x1_0000_0000) * 0x1_0000_0000 + scene_version as int) as u64
}

/// The cache key `(device_id << 32) | scene_version`.
pub fn frame_cache_key(device_id: u64, scene_version: u32) -> (k: u64)
    ensures
        k == frame_key(device_id, scene_version),
{
    let v = scene_version as u64;
    assert((device_id << 32u64) | v == ((device_id % 0x1_0000_0000) * 0x1_0000_0000 + v) as u64)
        by (bit_vector)
        requires
            v < 0x1_0000_0000,
    ;
    (device_id << 32u64) | v
}

/// Two frames share a cache key exactly when their devices agree in the low
/// 32 bits of their ids and their scene versions are equal.
pub proof fn lemma_frame_key_collisions(d1: u64, v1: u32, d2: u64, v2: u32)
    ensures
        frame_key(d1, v1) == frame_key(d2, v2) <==> (d1 % 0x1_0000_0000 == d2 % 0x1_0000_0000
            && v1 == v2),
{
    let a1 = d1 as int % 0x1_0000_0000;
    let a2 = d2 as int % 0x1_0000_0000;
    assert(0 <= a1 * 0x1_0000_0000 + v1 < 0x1_0000_0000_0000_0000) by (nonlinear_arith)
        requires
            0 <= a1 < 0x1_0000_0000,
            0 <= v1 < 0x1_0000_0000,
    ;
    assert(0 <= a2 * 0x1_0000_0000 + v2 < 0x1_0000_0000_0000_0000) by (nonlinear_arith)
        requires
            0 <= a2 < 0x1_0000_0000,
            0 <= v2 < 0x1_0000_0000,
    ;
    if frame_key(d1, v1) == frame_key(d2, v2) {
        assert(a1 == a2 && v1 == v2) by (nonlinear_arith)
            requires
                a1 * 0x1_0000_0000 + v1 == a2 * 0x1_0000_0000 + v2,
                0 <= v1 < 0x1_0000_0000,
                0 <= v2 < 0x1_0000_0000,
        ;
    }
}

// ---------------------------------------------------------------------------
// Pipeline
// ---------------------------------------------------------------------------

/// The frame a cache holds for a device and scene version.
pub open spec fn frame_lookup(frames: Map<u64, Seq<u8>>, device_id: u64, scene_version: u32) -> Option<
    Seq<u8>,
> {
    let key = frame_key(device_id, scene_version);
    if frames.contains_key(key) {
        Some(frames[key])
    } else {
        None
    }
}

/// `new` is `old` after putting `value` under `key`: the key holds the value,
/// and every other key that is still cached holds what it held before.
pub open spec fn frames_after_put(
    old: Map<u64, Seq<u8>>,
    new: Map<u64, Seq<u8>>,
    key: u64,
    value: Seq<u8>,
) -> bool {
    &&& new.contains_key(key)
    &&& new[key] == value
    &&& forall|k: u64|
        k != key && #[trigger] new.contains_key(k) ==> old.contains_key(k) && new[k] == old[k]
}

/// A packet that passed decryption.
#[derive(Debug)]
pub struct DecodedPacket {
    pub device_id: u64,
    pub scene_version: u32,
    pub is_keyframe: bool,
    /// The opened payload.
    pub payload: Vec<u8>,
}

/// Cache statistics of the routed packets.
#[derive(Debug, Clone, Copy, Default)]
pub struct RoutingStats {
    pub total_requests: u64,
    pub cache_hits: u64,
}

/// Where a committed packet went.
#[derive(Debug, Clone, Copy)]
pub struct PacketRouting {
    /// Whether a frame was already cached under the packet's key.
    pub cache_hit: bool,
    /// Processing queue of the packet's message.
    pub queue_index: u32,
}

/// Number of processing queues.
pub const QUEUE_COUNT: u32 = 4;

/// The message routed for a packet: keyframes go with high priority, other
/// packets with normal priority, keyed by scene version, with no payload.
pub open spec fn packet_message_ok(
    m: GatewayMessage,
    device_id: u64,
    scene_version: u32,
    is_keyframe: bool,
    timestamp_ms: u64,
) -> bool {
    &&& m.source_device_id == device_id
    &&& m.timestamp_ms == timestamp_ms
    &&& m.priority == if is_keyframe {
        MessagePriority::High
    } else {
        MessagePriority::Normal
    }
    &&& m.payload@ == Seq::<u8>::empty()
    &&& m.routing_key == scene_version
}

/// The message routed for a packet.
pub fn packet_message(device_id: u64, scene_version: u32, is_keyframe: bool, timestamp_ms: u64) -> (m:
    GatewayMessage)
    ensures
        packet_message_ok(m, device_id, scene_version, is_keyframe, timestamp_ms),
{
    GatewayMessage {
        source_device_id: device_id,
        timestamp_ms,
        priority: if is_keyframe {
            MessagePriority::High
        } else {
            MessagePriority::Normal
        },
        payload: Vec::new(),
        routing_key: scene_version,
    }
}

/// The outcome of opening a packet's payload: the decoded packet when it
/// opened, classified by its first byte, or `DecryptionFailed` naming the
/// cipher failure.
pub fn decoded_from_opened(header: PacketHeader, opened: Result<Vec<u8>, CipherFailure>) -> (r:
    Result<DecodedPacket, IngestError>)
    ensures
        match opened {
            Ok(pt) => r matches Ok(p) && p.device_id == header.device_id && p.scene_version
                == header.scene_version && p.payload@ == pt@ && p.is_keyframe == is_keyframe(pt@)
                && (p.is_keyframe <==> (pt@.len() > 0 && pt@[0] == 0x01u8)),
            Err(f) => r matches Err(e) && decryption_failed_with(e, f),
        },
{
    match opened {
        Ok(payload) => {
            let keyframe = payload.len() > 0 && payload[0] == 0x01u8;
            Ok(
                DecodedPacket {
                    device_id: header.device_id,
                    scene_version: header.scene_version,
                    is_keyframe: keyframe,
                    payload,
                },
            )
        },
        Err(f) => Err(IngestError::DecryptionFailed(cipher_failure_string(f))),
    }
}

/// The decisions of packet ingest: keys, decryption, frame cache, queue
/// routing and routing statistics.
pub struct IngestPipeline {
    key_store: DeviceKeyStore,
    frame_cache: AliceCache<u64, Vec<u8>>,
    queue_router: GatewayRouter,
    routing_stats: RoutingStats,
}

impl IngestPipeline {
    /// The pipeline is well formed.
    pub closed spec fn wf(&self) -> bool {
        &&& self.key_store.wf()
        &&& self.queue_router.wf()
        &&& self.queue_router.spec_queue_count() == QUEUE_COUNT
        &&& self.queue_router.spec_messages_routed() == self.routing_stats.total_requests
        &&& cached_frames(self.frame_cache).dom().finite()
    }

    /// The master secret that device keys derive from.
    pub closed spec fn master_secret(&self) -> Seq<u8> {
        self.key_store@.master_secret
    }

    /// Devices whose keys are cached.
    pub closed spec fn key_cached_devices(&self) -> Set<u64> {
        self.key_store@.cached_devices
    }

    /// The cached frames, by cache key.
    pub closed spec fn frames(&self) -> Map<u64, Seq<u8>> {
        cached_frames(self.frame_cache)
    }

    /// The capacity of each frame cache shard. While fewer frames than this
    /// are cached, committing a frame evicts nothing.
    pub closed spec fn frame_shard_capacity(&self) -> nat {
        frame_cache_shard_capacity(self.frame_cache)
    }

    /// The routing statistics.
    pub closed spec fn stats(&self) -> RoutingStats {
        self.routing_stats
    }

    /// Messages routed so far.
    pub closed spec fn messages_routed(&self) -> u64 {
        self.queue_router.spec_messages_routed()
    }

    /// A pipeline with an empty frame cache of `cache_capacity` entries, an
    /// empty key cache for `master_secret`, and four processing queues.
    pub fn new(cache_capacity: usize, master_secret: [u8; 32]) -> (p: Self)
        ensures
            p.wf(),
            p.master_secret() == master_secret@,
            p.frames() == Map::<u64, Seq<u8>>::empty(),
            p.frame_shard_capacity() == (cache_capacity + 255) / 256,
            p.stats() == (RoutingStats { total_requests: 0, cache_hits: 0 }),
            p.messages_routed() == 0,
            p.key_cached_devices() == Set::<u64>::empty(),
            p.key_cached_devices().finite(),
    {
        let frame_cache = frame_cache_new(cache_capacity);
        assert(cached_frames(frame_cache) =~= Map::<u64, Seq<u8>>::empty());
        IngestPipeline {
            key_store: DeviceKeyStore::new(master_secret),
            frame_cache,
            queue_router: GatewayRouter::new(QUEUE_COUNT),
            routing_stats: RoutingStats { total_requests: 0, cache_hits: 0 },
        }
    }

    /// Read the header, derive the device key and open the payload. Fails with
    /// `MalformedPacket` when the packet has no full header and with
    /// `DecryptionFailed` (naming the cipher failure) when the payload does not
    /// open under the device's key.
    pub fn decode_packet(&mut self, raw: &[u8]) -> (r: Result<DecodedPacket, IngestError>)
        requires
            old(self).wf(),
        ensures
            final(self).wf(),
            final(self).master_secret() == old(self).master_secret(),
            final(self).frames() == old(self).frames(),
            final(self).frame_shard_capacity() == old(self).frame_shard_capacity(),
            old(self).key_cached_devices().finite() ==> final(self).key_cached_devices().finite(),
            final(self).stats() == old(self).stats(),
            final(self).messages_routed() == old(self).messages_routed(),
            match packet_header(raw@) {
                None => r matches Err(IngestError::MalformedPacket(m)) && m@ == too_short_message()
                    && final(self).key_cached_devices() == old(self).key_cached_devices(),
                Some(h) => {
                    &&& final(self).key_cached_devices() == old(self).key_cached_devices().insert(
                        h.device_id,
                    )
                    &&& {
                    let key = device_key(old(self).master_secret(), h.device_id);
                    let sealed = raw@.subrange(12, raw@.len() as int);
                    match r {
                        Ok(p) => {
                            &&& sealed.len() >= 40
                            &&& aead_open(key, sealed) == Some(p.payload@)
                            &&& p.device_id == h.device_id
                            &&& p.scene_version == h.scene_version
                            &&& p.is_keyframe == is_keyframe(p.payload@)
                            &&& p.is_keyframe == (p.payload@.len() > 0 && p.payload@[0] == 0x01u8)
                        },
                        Err(e) => {
                            &&& (sealed.len() < 40 ==> decryption_failed_with(
                                e,
                                CipherFailure::BufferTooSmall,
                            ))
                            &&& (sealed.len() >= 40 ==> aead_open(key, sealed) is None
                                && decryption_failed_with(e, CipherFailure::DecryptionFailed))
                        },
                    }
                    }
                },
            },
    {
        let header = match parse_packet_header(raw) {
            Ok(h) => h,
            Err(e) => return Err(e),
        };
        let key = self.key_store.derive_device_key(header.device_id);
        let sealed = slice_subrange(raw, PACKET_HEADER_LEN, raw.len());
        decoded_from_opened(header, open_sealed(key.as_bytes(), sealed))
    }

    /// Cache the opened frame under the packet's key, route the packet's
    /// message with priority and count the request (and whether the frame
    /// key was already cached) in the routing statistics.
    pub fn commit_packet(&mut self, packet: DecodedPacket, timestamp_ms: u64) -> (r: PacketRouting)
        requires
            old(self).wf(),
            old(self).stats().total_requests < u64::MAX,
            old(self).stats().cache_hits < u64::MAX,
        ensures
            final(self).wf(),
            final(self).master_secret() == old(self).master_secret(),
            final(self).key_cached_devices() == old(self).key_cached_devices(),
            r.cache_hit == old(self).frames().contains_key(
                frame_key(packet.device_id, packet.scene_version),
            ),
            frames_after_put(
                old(self).frames(),
                final(self).frames(),
                frame_key(packet.device_id, packet.scene_version),
                packet.payload@,
            ),
            final(self).frame_shard_capacity() == old(self).frame_shard_capacity(),
            final(self).frames().dom().finite(),
            old(self).frames().dom().len() <= final(self).frames().dom().len(),
            old(self).frames().dom().len() < old(self).frame_shard_capacity() ==> final(self).frames()
                == old(self).frames().insert(
                frame_key(packet.device_id, packet.scene_version),
                packet.payload@,
            ),
            r.queue_index == packet.scene_version % QUEUE_COUNT,
            r.queue_index < QUEUE_COUNT,
            final(self).stats().total_requests == old(self).stats().total_requests + 1,
            final(self).stats().cache_hits == old(self).stats().cache_hits + if r.cache_hit {
                1int
            } else {
                0int
            },
            final(self).messages_routed() == old(self).messages_routed() + 1,
    {
        let key = frame_cache_key(packet.device_id, packet.scene_version);
        let cache_hit = match frame_cache_get(&self.frame_cache, key) {
            Some(_) => true,
            None => false,
        };
        let msg = packet_message(packet.device_id, packet.scene_version, packet.is_keyframe, timestamp_ms);
        frame_cache_put(&mut self.frame_cache, key, packet.payload);
        let queue_index = self.queue_router.route_with_priority(&msg);
        self.routing_stats.total_requests = self.routing_stats.total_requests + 1;
        if cache_hit {
            self.routing_stats.cache_hits = self.routing_stats.cache_hits + 1;
        }
        PacketRouting { cache_hit, queue_index }
    }

    /// The frame cached for a device and scene version.
    pub fn get_cached_frame(&self, device_id: u64, scene_version: u32) -> (r: Option<Vec<u8>>)
        ensures
            match r {
                Some(v) => frame_lookup(self.frames(), device_id, scene_version) == Some(v@),
                None => frame_lookup(self.frames(), device_id, scene_version) is None,
            },
    {
        let key = frame_cache_key(device_id, scene_version);
        frame_cache_get(&self.frame_cache, key)
    }

    /// Routing statistics.
    pub fn routing_stats(&self) -> (s: RoutingStats)
        ensures
            s == self.stats(),
    {
        self.routing_stats
    }
}

/// Reading a frame right after committing it gives the committed payload
/// back, and a commit never makes another key's lookup give anything but what
/// it gave before (or nothing, when the entry was evicted).
pub proof fn lemma_read_after_commit(
    old_frames: Map<u64, Seq<u8>>,
    new_frames: Map<u64, Seq<u8>>,
    device_id: u64,
    scene_version: u32,
    payload: Seq<u8>,
    other_device: u64,
    other_version: u32,
)
    requires
        frames_after_put(old_frames, new_frames, frame_key(device_id, scene_version), payload),
    ensures
        frame_lookup(new_frames, device_id, scene_version) == Some(payload),
        frame_key(other_device, other_version) != frame_key(device_id, scene_version) ==> (
        frame_lookup(new_frames, other_device, other_version) is None || frame_lookup(
            new_frames,
            other_device,
            other_version,
        ) == frame_lookup(old_frames, other_device, other_version)),
{
}

/// While the cache holds fewer frames than a shard's capacity, a commit keeps
/// every other frame: lookups of other device and scene-version pairs give
/// what they gave before.
pub proof fn lemma_commit_below_capacity_keeps_frames(
    old_frames: Map<u64, Seq<u8>>,
    device_id: u64,
    scene_version: u32,
    payload: Seq<u8>,
    other_device: u64,
    other_version: u32,
)
    requires
        frame_key(other_device, other_version) != frame_key(device_id, scene_version),
    ensures
        frame_lookup(
            old_frames.insert(frame_key(device_id, scene_version), payload),
            other_device,
            other_version,
        ) == frame_lookup(old_frames, other_device, other_version),
        frame_lookup(
            old_frames.insert(frame_key(device_id, scene_version), payload),
            device_id,
            scene_version,
        ) == Some(payload),
{
}

} // verus!
