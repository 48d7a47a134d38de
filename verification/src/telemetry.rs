//! Exact packet counters of the gateway telemetry.
//!
//! Every recorded packet is either a keyframe or a delta, so the two counts
//! always add up to the packet count. Latency percentiles, unique-device
//! estimates and per-device frequencies are kept in probabilistic sketches
//! next to these counters by the program that records latencies.
use vstd::prelude::*;

verus! {

/// Packet and byte counts.
#[derive(Debug, Clone, Copy, Default)]
pub struct PacketCounters {
    /// Total packets processed.
    pub total_packets: u64,
    /// Keyframes received.
    pub keyframe_count: u64,
    /// Delta packets received.
    pub delta_count: u64,
    /// Total bytes received.
    pub total_bytes: u64,
}

impl PacketCounters {
    /// Keyframes and deltas add up to the packets.
    pub open spec fn wf(&self) -> bool {
        self.keyframe_count + self.delta_count == self.total_packets
    }

    /// All counts at zero.
    pub fn new() -> (c: Self)
        ensures
            c.wf(),
            c.total_packets == 0,
            c.keyframe_count == 0,
            c.delta_count == 0,
            c.total_bytes == 0,
    {
        PacketCounters { total_packets: 0, keyframe_count: 0, delta_count: 0, total_bytes: 0 }
    }

    /// Count one packet of `packet_size` bytes, as a keyframe or a delta.
    pub fn record(&mut self, packet_size: usize, is_keyframe: bool)
        requires
            old(self).total_packets < u64::MAX,
            old(self).keyframe_count < u64::MAX,
            old(self).delta_count < u64::MAX,
            old(self).total_bytes + packet_size <= u64::MAX,
        ensures
            final(self).total_packets == old(self).total_packets + 1,
            final(self).total_bytes == old(self).total_bytes + packet_size,
            is_keyframe ==> final(self).keyframe_count == old(self).keyframe_count + 1
                && final(self).delta_count == old(self).delta_count,
            !is_keyframe ==> final(self).delta_count == old(self).delta_count + 1
                && final(self).keyframe_count == old(self).keyframe_count,
            old(self).wf() ==> final(self).wf(),
    {
        self.total_packets = self.total_packets + 1;
        self.total_bytes = self.total_bytes + packet_size as u64;
        if is_keyframe {
            self.keyframe_count = self.keyframe_count + 1;
        } else {
            self.delta_count = self.delta_count + 1;
        }
    }
}

} // verus!
