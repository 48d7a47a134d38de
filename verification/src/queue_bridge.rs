//! Message framing and queue routing for ingested packets.
//!
//! A `GatewayMessage` travels between the gateway and its processing queues
//! as a 24-byte little-endian header followed by the payload:
//!
//! | offset | size | field              |
//! |--------|------|--------------------|
//! | 0      | 8    | `source_device_id` |
//! | 8      | 8    | `timestamp_ms`     |
//! | 16     | 1    | priority byte      |
//! | 17     | 4    | `routing_key`      |
//! | 21     | 2    | payload length     |
//! | 23     | 1    | padding (zero)     |
//! | 24     | n    | payload            |
use vstd::bytes::*;
use vstd::prelude::*;
use vstd::slice::slice_subrange;

verus! {

/// Message priority for queue routing.
#[derive(Debug, Clone, Copy, PartialEq, Eq, Structural, PartialOrd, Ord, Hash)]
pub enum MessagePriority {
    Low,
    Normal,
    High,
    Critical,
}

/// The wire byte of a priority (its discriminant).
pub open spec fn priority_byte(p: MessagePriority) -> u8 {
    match p {
        MessagePriority::Low => 0,
        MessagePriority::Normal => 1,
        MessagePriority::High => 2,
        MessagePriority::Critical => 3,
    }
}

/// The priority a wire byte stands for, if any.
pub open spec fn priority_from_byte(b: u8) -> Option<MessagePriority> {
    if b == 0 {
        Some(MessagePriority::Low)
    } else if b == 1 {
        Some(MessagePriority::Normal)
    } else if b == 2 {
        Some(MessagePriority::High)
    } else if b == 3 {
        Some(MessagePriority::Critical)
    } else {
        None
    }
}

impl MessagePriority {
    /// The wire byte of this priority.
    pub fn to_byte(self) -> (b: u8)
        ensures
            b == priority_byte(self),
    {
        match self {
            MessagePriority::Low => 0,
            MessagePriority::Normal => 1,
            MessagePriority::High => 2,
            MessagePriority::Critical => 3,
        }
    }

    /// The priority of a wire byte; `None` for bytes above 3.
    pub fn from_byte(b: u8) -> (p: Option<MessagePriority>)
        ensures
            p == priority_from_byte(b),
    {
        if b == 0 {
            Some(MessagePriority::Low)
        } else if b == 1 {
            Some(MessagePriority::Normal)
        } else if b == 2 {
            Some(MessagePriority::High)
        } else if b == 3 {
            Some(MessagePriority::Critical)
        } else {
            None
        }
    }
}

/// Routable message envelope.
#[derive(Debug, Clone)]
pub struct GatewayMessage {
    pub source_device_id: u64,
    pub timestamp_ms: u64,
    pub priority: MessagePriority,
    pub payload: Vec<u8>,
    pub routing_key: u32,
}

/// Mathematical value of a `GatewayMessage`.
pub struct MessageView {
    pub source_device_id: u64,
    pub timestamp_ms: u64,
    pub priority: MessagePriority,
    pub payload: Seq<u8>,
    pub routing_key: u32,
}

impl View for GatewayMessage {
    type V = MessageView;

    open spec fn view(&self) -> MessageView {
        MessageView {
            source_device_id: self.source_device_id,
            timestamp_ms: self.timestamp_ms,
            priority: self.priority,
            payload: self.payload@,
            routing_key: self.routing_key,
        }
    }
}

/// Size of the fixed message header.
pub const HEADER_LEN: usize = 24;

/// The bytes of a message: header, then payload. The length field holds the
/// payload length modulo 2^16.
pub open spec fn encode_message(m: MessageView) -> Seq<u8> {
    spec_u64_to_le_bytes(m.source_device_id) + spec_u64_to_le_bytes(m.timestamp_ms) + seq![
        priority_byte(m.priority),
    ] + spec_u32_to_le_bytes(m.routing_key) + spec_u16_to_le_bytes(m.payload.len() as u16)
        + seq![0u8] + m.payload
}

/// The message that a buffer holds, if it is well formed: at least a header,
/// a known priority byte and at least as many payload bytes as the length field
/// says. Bytes past the declared payload, and the padding byte, are ignored.
pub open spec fn decode_message(buf: Seq<u8>) -> Option<MessageView> {
    if buf.len() < 24 {
        None
    } else {
        match priority_from_byte(buf[16]) {
            None => None,
            Some(priority) => {
                let len = spec_u16_from_le_bytes(buf.subrange(21, 23)) as int;
                if buf.len() < 24 + len {
                    None
                } else {
                    Some(
                        MessageView {
                            source_device_id: spec_u64_from_le_bytes(buf.subrange(0, 8)),
                            timestamp_ms: spec_u64_from_le_bytes(buf.subrange(8, 16)),
                            priority,
                            payload: buf.subrange(24, 24 + len),
                            routing_key: spec_u32_from_le_bytes(buf.subrange(17, 21)),
                        },
                    )
                }
            },
        }
    }
}

impl GatewayMessage {
    /// Serialize header (24 bytes) + payload.
    pub fn to_bytes(&self) -> (buf: Vec<u8>)
        ensures
            buf@ == encode_message(self@),
            buf@.len() == HEADER_LEN + self.payload@.len(),
            buf@.subrange(0, 8) == spec_u64_to_le_bytes(self.source_device_id),
            buf@.subrange(8, 16) == spec_u64_to_le_bytes(self.timestamp_ms),
            buf@[16] == priority_byte(self.priority),
            buf@.subrange(17, 21) == spec_u32_to_le_bytes(self.routing_key),
            buf@.subrange(21, 23) == spec_u16_to_le_bytes(self.payload@.len() as u16),
            buf@[23] == 0u8,
            buf@.subrange(24, buf@.len() as int) == self.payload@,
    {
        proof {
            lemma_auto_spec_u64_to_from_le_bytes();
            lemma_auto_spec_u32_to_from_le_bytes();
            lemma_auto_spec_u16_to_from_le_bytes();
        }
        let mut buf: Vec<u8> = Vec::new();
        let mut id_bytes = u64_to_le_bytes(self.source_device_id);
        buf.append(&mut id_bytes);
        let mut ts_bytes = u64_to_le_bytes(self.timestamp_ms);
        buf.append(&mut ts_bytes);
        buf.push(self.priority.to_byte());
        let mut key_bytes = u32_to_le_bytes(self.routing_key);
        buf.append(&mut key_bytes);
        let mut len_bytes = u16_to_le_bytes(#[verifier::truncate] (self.payload.len() as u16));
        buf.append(&mut len_bytes);
        buf.push(0u8);
        let mut payload = self.payload.clone();
        assert(payload@ == self.payload@);
        buf.append(&mut payload);
        proof {
            lemma_message_layout(self@);
        }
        buf
    }

    /// Parse a message; `None` when the buffer is shorter than the header, the
    /// priority byte is unknown, or the payload is shorter than declared.
    pub fn from_bytes(buf: &[u8]) -> (r: Option<GatewayMessage>)
        ensures
            match decode_message(buf@) {
                None => r is None,
                Some(m) => r is Some && r->0@ == m,
            },
            r is Some ==> {
                &&& r->0.source_device_id == spec_u64_from_le_bytes(buf@.subrange(0, 8))
                &&& r->0.timestamp_ms == spec_u64_from_le_bytes(buf@.subrange(8, 16))
                &&& r->0.routing_key == spec_u32_from_le_bytes(buf@.subrange(17, 21))
                &&& priority_byte(r->0.priority) == buf@[16]
            },
    {
        if buf.len() < HEADER_LEN {
            return None;
        }
        let priority = match MessagePriority::from_byte(buf[16]) {
            Some(p) => p,
            None => return None,
        };
        let source_device_id = u64_from_le_bytes(slice_subrange(buf, 0, 8));
        let timestamp_ms = u64_from_le_bytes(slice_subrange(buf, 8, 16));
        let routing_key = u32_from_le_bytes(slice_subrange(buf, 17, 21));
        let payload_len = u16_from_le_bytes(slice_subrange(buf, 21, 23)) as usize;
        if buf.len() - HEADER_LEN < payload_len {
            return None;
        }
        let payload = vstd::slice::slice_to_vec(slice_subrange(buf, HEADER_LEN, HEADER_LEN + payload_len));
        Some(GatewayMessage { source_device_id, timestamp_ms, priority, payload, routing_key })
    }
}

/// Where each field lies in the bytes of a message, whatever its priority:
/// the little-endian device id at 0..8, the little-endian timestamp at 8..16,
/// the priority byte at 16, the little-endian routing key at 17..21, the
/// little-endian payload length at 21..23, a zero at 23 and the payload from 24.
pub proof fn lemma_message_layout(m: MessageView)
    ensures
        encode_message(m).len() == 24 + m.payload.len(),
        encode_message(m).subrange(0, 8) == spec_u64_to_le_bytes(m.source_device_id),
        encode_message(m).subrange(8, 16) == spec_u64_to_le_bytes(m.timestamp_ms),
        encode_message(m)[16] == priority_byte(m.priority),
        encode_message(m).subrange(17, 21) == spec_u32_to_le_bytes(m.routing_key),
        encode_message(m).subrange(21, 23) == spec_u16_to_le_bytes(m.payload.len() as u16),
        encode_message(m)[23] == 0u8,
        encode_message(m).subrange(24, encode_message(m).len() as int) == m.payload,
{
    lemma_auto_spec_u64_to_from_le_bytes();
    lemma_auto_spec_u32_to_from_le_bytes();
    lemma_auto_spec_u16_to_from_le_bytes();
    let buf = encode_message(m);
    assert(buf.subrange(0, 8) =~= spec_u64_to_le_bytes(m.source_device_id));
    assert(buf.subrange(8, 16) =~= spec_u64_to_le_bytes(m.timestamp_ms));
    assert(buf.subrange(17, 21) =~= spec_u32_to_le_bytes(m.routing_key));
    assert(buf.subrange(21, 23) =~= spec_u16_to_le_bytes(m.payload.len() as u16));
    assert(buf.subrange(24, buf.len() as int) =~= m.payload);
}

/// Decoding the bytes of a message gives the message back, provided the
/// payload length fits in the 16-bit length field.
pub proof fn lemma_message_roundtrip(m: MessageView)
    requires
        m.payload.len() <= u16::MAX,
    ensures
        decode_message(encode_message(m)) == Some(m),
{
    lemma_auto_spec_u64_to_from_le_bytes();
    lemma_auto_spec_u32_to_from_le_bytes();
    lemma_auto_spec_u16_to_from_le_bytes();
    let buf = encode_message(m);
    let a = spec_u64_to_le_bytes(m.source_device_id);
    let b = spec_u64_to_le_bytes(m.timestamp_ms);
    let c = spec_u32_to_le_bytes(m.routing_key);
    let d = spec_u16_to_le_bytes(m.payload.len() as u16);
    assert(buf.subrange(0, 8) =~= a);
    assert(buf.subrange(8, 16) =~= b);
    assert(buf[16] == priority_byte(m.priority));
    assert(buf.subrange(17, 21) =~= c);
    assert(buf.subrange(21, 23) =~= d);
    assert(buf.subrange(24, 24 + m.payload.len() as int) =~= m.payload);
    assert(priority_from_byte(priority_byte(m.priority)) == Some(m.priority));
}

/// Gateway message router.
pub struct GatewayRouter {
    pub messages_routed: u64,
    pub bytes_routed: u64,
    queue_count: u32,
}

impl GatewayRouter {
    /// Number of processing queues, always at least one.
    pub closed spec fn spec_queue_count(&self) -> u32 {
        self.queue_count
    }

    /// Number of messages routed so far (the `messages_routed` field).
    pub closed spec fn spec_messages_routed(&self) -> u64 {
        self.messages_routed
    }

    /// Payload bytes routed so far (the `bytes_routed` field).
    pub closed spec fn spec_bytes_routed(&self) -> u64 {
        self.bytes_routed
    }

    /// The router is well formed: it routes to at least one queue.
    pub open spec fn wf(&self) -> bool {
        self.spec_queue_count() >= 1
    }

    /// A router over `queue_count` queues; zero is taken as one.
    pub fn new(queue_count: u32) -> (r: Self)
        ensures
            r.wf(),
            r.spec_queue_count() == if queue_count == 0 { 1 } else { queue_count },
            r.spec_messages_routed() == 0,
            r.spec_bytes_routed() == 0,
    {
        let q = if queue_count == 0 { 1 } else { queue_count };
        GatewayRouter { messages_routed: 0, bytes_routed: 0, queue_count: q }
    }

    /// Determine target queue index for a message: `routing_key` modulo the
    /// queue count.
    pub fn route(&mut self, msg: &GatewayMessage) -> (q: u32)
        requires
            old(self).wf(),
            old(self).spec_messages_routed() < u64::MAX,
            old(self).spec_bytes_routed() + msg.payload@.len() <= u64::MAX,
        ensures
            final(self).wf(),
            final(self).spec_queue_count() == old(self).spec_queue_count(),
            final(self).spec_messages_routed() == old(self).spec_messages_routed() + 1,
            final(self).spec_bytes_routed() == old(self).spec_bytes_routed() + msg.payload@.len(),
            q == msg.routing_key % old(self).spec_queue_count(),
            q < old(self).spec_queue_count(),
    {
        self.messages_routed = self.messages_routed + 1;
        self.bytes_routed = self.bytes_routed + msg.payload.len() as u64;
        msg.routing_key % self.queue_count
    }

    /// Route with priority override: critical messages always go to queue 0,
    /// the others as `route` sends them.
    pub fn route_with_priority(&mut self, msg: &GatewayMessage) -> (q: u32)
        requires
            old(self).wf(),
            old(self).spec_messages_routed() < u64::MAX,
            old(self).spec_bytes_routed() + msg.payload@.len() <= u64::MAX,
        ensures
            final(self).wf(),
            final(self).spec_queue_count() == old(self).spec_queue_count(),
            final(self).spec_messages_routed() == old(self).spec_messages_routed() + 1,
            final(self).spec_bytes_routed() == old(self).spec_bytes_routed() + msg.payload@.len(),
            q == if msg.priority == MessagePriority::Critical {
                0
            } else {
                msg.routing_key % old(self).spec_queue_count()
            },
            q < old(self).spec_queue_count(),
    {
        self.messages_routed = self.messages_routed + 1;
        self.bytes_routed = self.bytes_routed + msg.payload.len() as u64;
        if msg.priority == MessagePriority::Critical {
            0
        } else {
            msg.routing_key % self.queue_count
        }
    }
}

} // verus!
