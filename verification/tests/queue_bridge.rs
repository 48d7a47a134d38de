use alice_cloud_gateway::queue_bridge::{GatewayMessage, GatewayRouter, MessagePriority};

fn test_msg(key: u32, priority: MessagePriority) -> GatewayMessage {
    GatewayMessage {
        source_device_id: 1,
        timestamp_ms: 1_000_000,
        priority,
        payload: vec![0xAA; 64],
        routing_key: key,
    }
}

#[test]
fn test_message_serialization() {
    let msg = test_msg(42, MessagePriority::Normal);
    let bytes = msg.to_bytes();
    let restored = GatewayMessage::from_bytes(&bytes).unwrap();
    assert_eq!(restored.source_device_id, 1);
    assert_eq!(restored.routing_key, 42);
    assert_eq!(restored.priority, MessagePriority::Normal);
    assert_eq!(restored.payload.len(), 64);
}

#[test]
fn test_routing() {
    let mut router = GatewayRouter::new(4);
    let msg = test_msg(7, MessagePriority::Normal);
    assert_eq!(router.route(&msg), 3);
}

#[test]
fn test_priority_routing() {
    let mut router = GatewayRouter::new(4);
    let critical = test_msg(7, MessagePriority::Critical);
    assert_eq!(router.route_with_priority(&critical), 0);
}

#[test]
fn test_router_counters() {
    let mut router = GatewayRouter::new(2);
    let msg = test_msg(1, MessagePriority::Low);
    router.route(&msg);
    assert_eq!(router.messages_routed, 1);
    assert_eq!(router.bytes_routed, 64);
}

#[test]
fn test_message_too_short() {
    assert!(GatewayMessage::from_bytes(&[0; 10]).is_none());
}

#[test]
fn test_message_exactly_24_bytes_empty_payload() {
    let msg = GatewayMessage {
        source_device_id: 1,
        timestamp_ms: 100,
        priority: MessagePriority::Low,
        payload: vec![],
        routing_key: 0,
    };
    let bytes = msg.to_bytes();
    let restored = GatewayMessage::from_bytes(&bytes).unwrap();
    assert_eq!(restored.source_device_id, 1);
    assert!(restored.payload.is_empty());
}

#[test]
fn test_message_invalid_priority_byte() {
    let mut buf = vec![0u8; 24];
    buf[16] = 4;
    assert!(GatewayMessage::from_bytes(&buf).is_none());
}

#[test]
fn test_message_payload_too_short_for_declared_len() {
    let msg = GatewayMessage {
        source_device_id: 1,
        timestamp_ms: 100,
        priority: MessagePriority::Normal,
        payload: vec![0xBB; 10],
        routing_key: 5,
    };
    let mut bytes = msg.to_bytes();
    bytes.truncate(26);
    assert!(GatewayMessage::from_bytes(&bytes).is_none());
}

#[test]
fn test_routing_distribution() {
    let mut router = GatewayRouter::new(4);
    let mut counts = [0u32; 4];
    for key in 0..100 {
        let msg = test_msg(key, MessagePriority::Normal);
        let idx = router.route(&msg);
        counts[idx as usize] += 1;
    }
    assert_eq!(counts, [25, 25, 25, 25]);
}

#[test]
fn test_priority_routing_non_critical() {
    let mut router = GatewayRouter::new(4);
    let high = test_msg(7, MessagePriority::High);
    let normal = test_msg(7, MessagePriority::Normal);
    let low = test_msg(7, MessagePriority::Low);
    assert_eq!(router.route_with_priority(&high), 3);
    assert_eq!(router.route_with_priority(&normal), 3);
    assert_eq!(router.route_with_priority(&low), 3);
}

#[test]
fn test_router_new_minimum_queue_count() {
    let mut router = GatewayRouter::new(0);
    let msg = test_msg(42, MessagePriority::Normal);
    let idx = router.route(&msg);
    assert_eq!(idx, 0);
}

#[test]
fn test_message_roundtrip_all_priorities() {
    for (prio, byte_val) in [
        (MessagePriority::Low, 0u8),
        (MessagePriority::Normal, 1),
        (MessagePriority::High, 2),
        (MessagePriority::Critical, 3),
    ] {
        let msg = GatewayMessage {
            source_device_id: 0xDEAD,
            timestamp_ms: 42,
            priority: prio,
            payload: vec![1, 2, 3],
            routing_key: 99,
        };
        let bytes = msg.to_bytes();
        assert_eq!(bytes[16], byte_val);
        let restored = GatewayMessage::from_bytes(&bytes).unwrap();
        assert_eq!(restored.priority, prio);
    }
}

#[test]
fn test_priority_ordering() {
    assert!(MessagePriority::Low < MessagePriority::Normal);
    assert!(MessagePriority::Normal < MessagePriority::High);
    assert!(MessagePriority::High < MessagePriority::Critical);
}

#[test]
fn test_router_bytes_routed_accumulation() {
    let mut router = GatewayRouter::new(2);
    let msg1 = GatewayMessage {
        source_device_id: 1,
        timestamp_ms: 0,
        priority: MessagePriority::Normal,
        payload: vec![0; 100],
        routing_key: 0,
    };
    let msg2 = GatewayMessage {
        source_device_id: 1,
        timestamp_ms: 0,
        priority: MessagePriority::Normal,
        payload: vec![0; 200],
        routing_key: 0,
    };
    router.route(&msg1);
    router.route(&msg2);
    assert_eq!(router.bytes_routed, 300);
    assert_eq!(router.messages_routed, 2);
}

#[test]
fn test_message_clone() {
    let msg = test_msg(5, MessagePriority::High);
    let cloned = msg.clone();
    assert_eq!(cloned.routing_key, 5);
    assert_eq!(cloned.priority, MessagePriority::High);
}

#[test]
fn test_message_debug() {
    let msg = test_msg(1, MessagePriority::Low);
    let s = format!("{:?}", msg);
    assert!(s.contains("source_device_id"));
}

#[test]
fn test_routing_key_zero() {
    let mut router = GatewayRouter::new(4);
    let msg = test_msg(0, MessagePriority::Normal);
    assert_eq!(router.route(&msg), 0);
}

#[test]
fn test_priority_critical_route_with_priority_counters() {
    let mut router = GatewayRouter::new(4);
    let msg = test_msg(99, MessagePriority::Critical);
    router.route_with_priority(&msg);
    assert_eq!(router.messages_routed, 1);
}

// Exact wire layout of a message.
#[test]
fn wire_layout_is_little_endian_header_then_payload() {
    let msg = GatewayMessage {
        source_device_id: 0x0102_0304_0506_0708,
        timestamp_ms: 0x1112_1314_1516_1718,
        priority: MessagePriority::High,
        payload: vec![0xAB, 0xCD],
        routing_key: 0x2122_2324,
    };
    let bytes = msg.to_bytes();
    assert_eq!(
        bytes,
        vec![
            0x08, 0x07, 0x06, 0x05, 0x04, 0x03, 0x02, 0x01, 0x18, 0x17, 0x16, 0x15, 0x14, 0x13,
            0x12, 0x11, 0x02, 0x24, 0x23, 0x22, 0x21, 0x02, 0x00, 0x00, 0xAB, 0xCD
        ]
    );
}

// Roundtrip keeps every field.
#[test]
fn roundtrip_keeps_all_fields() {
    let msg = GatewayMessage {
        source_device_id: u64::MAX,
        timestamp_ms: 123_456_789,
        priority: MessagePriority::Critical,
        payload: (0..=255u8).collect(),
        routing_key: u32::MAX,
    };
    let restored = GatewayMessage::from_bytes(&msg.to_bytes()).unwrap();
    assert_eq!(restored.source_device_id, msg.source_device_id);
    assert_eq!(restored.timestamp_ms, msg.timestamp_ms);
    assert_eq!(restored.priority, msg.priority);
    assert_eq!(restored.payload, msg.payload);
    assert_eq!(restored.routing_key, msg.routing_key);
}

// Trailing bytes past the declared payload, and the padding byte, are ignored.
#[test]
fn parse_ignores_padding_and_trailing_bytes() {
    let msg = GatewayMessage {
        source_device_id: 7,
        timestamp_ms: 8,
        priority: MessagePriority::Low,
        payload: vec![1, 2, 3],
        routing_key: 9,
    };
    let mut bytes = msg.to_bytes();
    bytes[23] = 0xFF;
    bytes.extend_from_slice(&[9, 9, 9]);
    let restored = GatewayMessage::from_bytes(&bytes).unwrap();
    assert_eq!(restored.payload, vec![1, 2, 3]);
}

#[test]
fn priority_bytes() {
    assert_eq!(MessagePriority::Critical.to_byte(), 3);
    assert_eq!(MessagePriority::from_byte(1), Some(MessagePriority::Normal));
    assert_eq!(MessagePriority::from_byte(200), None);
}
