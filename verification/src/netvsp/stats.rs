//! What is counted of the traffic of a queue.
use crate::netvsp::tx_packet::TxMetadata;
use vstd::prelude::*;

verus! {

/// The sum of a counter and `n`. Counters wrap.
pub open spec fn plus(counter: u64, n: int) -> u64 {
    ((counter + n) % 0x1_0000_0000_0000_0000) as u64
}

/// Two numbers are added one after another as their sum is.
pub proof fn lemma_plus_plus(counter: u64, m: int, n: int)
    requires
        0 <= m,
        0 <= n,
    ensures
        plus(plus(counter, m), n) == plus(counter, m + n),
{
}

/// Numbers that were taken one after another: how many there were and their sum.
#[derive(Debug, Clone, Copy, PartialEq, Eq, Structural)]
pub struct Samples {
    /// How many there were.
    pub count: u64,
    /// Their sum.
    pub total: u64,
}

impl Samples {
    /// With `n` as well.
    pub open spec fn with(self, n: u64) -> Samples {
        Samples { count: plus(self.count, 1), total: plus(self.total, n as int) }
    }

    /// Takes another number.
    pub fn add_sample(&mut self, n: u64)
        ensures
            *final(self) == old(self).with(n),
    {
        self.count = self.count.wrapping_add(1);
        self.total = self.total.wrapping_add(n);
    }
}

/// The counters of a queue.
#[derive(Debug, Clone, Copy, PartialEq, Eq, Structural)]
pub struct QueueStats {
    /// Packets of the ring whose frames the endpoint did not take all at once.
    pub tx_stalled: u64,
    /// Received packets that were dropped since the ring was full.
    pub rx_dropped_ring_full: u64,
    /// Passes of the queue on which there was nothing to do.
    pub spurious_wakes: u64,
    /// Received packets that the guest got.
    pub rx_packets: u64,
    /// Frames that the guest has sent.
    pub tx_packets: u64,
    /// Those of them that are segmented by the endpoint.
    pub tx_lso_packets: u64,
    /// Those of them that get their TCP or UDP checksum from the endpoint.
    pub tx_checksum_packets: u64,
    /// The frames that each pass over the ring found.
    pub tx_packets_per_wake: Samples,
    /// The packets that each pass over the endpoint received.
    pub rx_packets_per_wake: Samples,
}

impl QueueStats {
    /// Nothing was counted yet.
    pub open spec fn zero() -> QueueStats {
        QueueStats {
            tx_stalled: 0,
            rx_dropped_ring_full: 0,
            spurious_wakes: 0,
            rx_packets: 0,
            tx_packets: 0,
            tx_lso_packets: 0,
            tx_checksum_packets: 0,
            tx_packets_per_wake: Samples { count: 0, total: 0 },
            rx_packets_per_wake: Samples { count: 0, total: 0 },
        }
    }

    /// With a frame that the guest has sent.
    pub open spec fn with_frame(self, m: TxMetadata) -> QueueStats {
        QueueStats {
            tx_packets: plus(self.tx_packets, 1),
            tx_checksum_packets: if m.offload_tcp_checksum || m.offload_udp_checksum {
                plus(self.tx_checksum_packets, 1)
            } else {
                self.tx_checksum_packets
            },
            tx_lso_packets: if m.offload_tcp_segmentation {
                plus(self.tx_lso_packets, 1)
            } else {
                self.tx_lso_packets
            },
            ..self
        }
    }

    /// With `n` received packets that the guest got.
    pub open spec fn with_received(self, n: u64) -> QueueStats {
        QueueStats {
            rx_packets: plus(self.rx_packets, n as int),
            rx_packets_per_wake: self.rx_packets_per_wake.with(n),
            ..self
        }
    }

    /// With `n` received packets that were dropped.
    pub open spec fn with_dropped(self, n: u64) -> QueueStats {
        QueueStats {
            rx_dropped_ring_full: plus(self.rx_dropped_ring_full, n as int),
            rx_packets_per_wake: self.rx_packets_per_wake.with(n),
            ..self
        }
    }

    /// With a packet of the ring whose frames the endpoint did not take all at once.
    pub open spec fn with_stall(self) -> QueueStats {
        QueueStats { tx_stalled: plus(self.tx_stalled, 1), ..self }
    }

    /// Counters that have counted nothing.
    pub fn new() -> (s: QueueStats)
        ensures
            s == QueueStats::zero(),
    {
        QueueStats {
            tx_stalled: 0,
            rx_dropped_ring_full: 0,
            spurious_wakes: 0,
            rx_packets: 0,
            tx_packets: 0,
            tx_lso_packets: 0,
            tx_checksum_packets: 0,
            tx_packets_per_wake: Samples { count: 0, total: 0 },
            rx_packets_per_wake: Samples { count: 0, total: 0 },
        }
    }

    /// Counts a frame that the guest has sent.
    pub fn count_frame(&mut self, m: &TxMetadata)
        ensures
            *final(self) == old(self).with_frame(*m),
    {
        self.tx_packets = self.tx_packets.wrapping_add(1);
        if m.offload_tcp_checksum || m.offload_udp_checksum {
            self.tx_checksum_packets = self.tx_checksum_packets.wrapping_add(1);
        }
        if m.offload_tcp_segmentation {
            self.tx_lso_packets = self.tx_lso_packets.wrapping_add(1);
        }
    }

    /// Counts `n` received packets. `sent` tells whether the guest got them.
    pub fn count_received(&mut self, n: u64, sent: bool)
        ensures
            *final(self) == if sent {
                old(self).with_received(n)
            } else {
                old(self).with_dropped(n)
            },
    {
        if sent {
            self.rx_packets = self.rx_packets.wrapping_add(n);
        } else {
            self.rx_dropped_ring_full = self.rx_dropped_ring_full.wrapping_add(n);
        }
        self.rx_packets_per_wake.add_sample(n);
    }

    /// Counts a packet of the ring with `num_packets` frames, `packets_sent` of which the
    /// endpoint took at once.
    pub fn count_transmit(&mut self, packets_sent: usize, num_packets: usize)
        ensures
            *final(self) == if packets_sent < num_packets {
                old(self).with_stall()
            } else {
                *old(self)
            },
    {
        if packets_sent < num_packets {
            self.tx_stalled = self.tx_stalled.wrapping_add(1);
        }
    }

    /// Counts a pass over the ring that found `total_packets` frames.
    pub fn count_ring_pass(&mut self, total_packets: u64)
        ensures
            *final(self) == (QueueStats {
                tx_packets_per_wake: old(self).tx_packets_per_wake.with(total_packets),
                ..*old(self)
            }),
    {
        self.tx_packets_per_wake.add_sample(total_packets);
    }

    /// Counts a pass of the queue. One that did nothing was in vain.
    pub fn count_wake(&mut self, did_some_work: bool)
        ensures
            *final(self) == if did_some_work {
                *old(self)
            } else {
                QueueStats { spurious_wakes: plus(old(self).spurious_wakes, 1), ..*old(self) }
            },
    {
        if !did_some_work {
            self.spurious_wakes = self.spurious_wakes.wrapping_add(1);
        }
    }
}

/// A counter goes up by what is counted, and starts again at zero behind the largest number.
pub proof fn counter_goes_up(counter: u64, n: u64)
    ensures
        counter + n <= u64::MAX ==> plus(counter, n as int) == counter + n,
        counter + n > u64::MAX ==> plus(counter, n as int) == counter + n - u64::MAX - 1,
{
}

/// Every frame counts as one packet. Those of them whose TCP or UDP checksum is left to the
/// endpoint, and those that it segments, are counted apart; the checksum of the IPv4 header
/// makes no difference. Nothing else is counted.
pub proof fn frame_is_counted_by_offloads(s: QueueStats, m: TxMetadata)
    requires
        s.tx_packets < u64::MAX,
        s.tx_checksum_packets < u64::MAX,
        s.tx_lso_packets < u64::MAX,
    ensures
        ({
            let t = s.with_frame(m);
            &&& t.tx_packets == s.tx_packets + 1
            &&& m.offload_tcp_checksum ==> t.tx_checksum_packets == s.tx_checksum_packets + 1
            &&& m.offload_udp_checksum ==> t.tx_checksum_packets == s.tx_checksum_packets + 1
            &&& !m.offload_tcp_checksum && !m.offload_udp_checksum ==> t.tx_checksum_packets
                == s.tx_checksum_packets
            &&& m.offload_tcp_segmentation ==> t.tx_lso_packets == s.tx_lso_packets + 1
            &&& !m.offload_tcp_segmentation ==> t.tx_lso_packets == s.tx_lso_packets
            &&& t.tx_stalled == s.tx_stalled
            &&& t.rx_dropped_ring_full == s.rx_dropped_ring_full
            &&& t.spurious_wakes == s.spurious_wakes
            &&& t.rx_packets == s.rx_packets
            &&& t.tx_packets_per_wake == s.tx_packets_per_wake
            &&& t.rx_packets_per_wake == s.rx_packets_per_wake
        }),
{
}

/// Received packets are counted once, as handed to the guest or as dropped, and either way as
/// received in one pass.
pub proof fn received_packets_are_counted(s: QueueStats, n: u64)
    requires
        s.rx_packets + n <= u64::MAX,
        s.rx_dropped_ring_full + n <= u64::MAX,
        s.rx_packets_per_wake.count < u64::MAX,
        s.rx_packets_per_wake.total + n <= u64::MAX,
    ensures
        s.with_received(n).rx_packets == s.rx_packets + n,
        s.with_received(n).rx_dropped_ring_full == s.rx_dropped_ring_full,
        s.with_dropped(n).rx_packets == s.rx_packets,
        s.with_dropped(n).rx_dropped_ring_full == s.rx_dropped_ring_full + n,
        s.with_received(n).rx_packets_per_wake.count == s.rx_packets_per_wake.count + 1,
        s.with_dropped(n).rx_packets_per_wake.count == s.rx_packets_per_wake.count + 1,
        s.with_received(n).rx_packets_per_wake.total == s.rx_packets_per_wake.total + n,
        s.with_dropped(n).rx_packets_per_wake.total == s.rx_packets_per_wake.total + n,
        s.with_received(n).tx_packets == s.tx_packets,
        s.with_dropped(n).tx_packets == s.tx_packets,
        s.with_received(n).tx_packets_per_wake == s.tx_packets_per_wake,
        s.with_dropped(n).tx_packets_per_wake == s.tx_packets_per_wake,
        s.tx_stalled < u64::MAX ==> s.with_stall().tx_stalled == s.tx_stalled + 1,
        s.with_stall().tx_packets == s.tx_packets,
{
}

/// A new queue has counted nothing.
pub proof fn counting_starts_at_zero()
    ensures
        ({
            let z = QueueStats::zero();
            &&& z.tx_stalled == 0 && z.rx_dropped_ring_full == 0 && z.spurious_wakes == 0
            &&& z.rx_packets == 0 && z.tx_packets == 0 && z.tx_lso_packets == 0
            &&& z.tx_checksum_packets == 0
            &&& z.tx_packets_per_wake.count == 0 && z.tx_packets_per_wake.total == 0
            &&& z.rx_packets_per_wake.count == 0 && z.rx_packets_per_wake.total == 0
        }),
{
}

} // verus!
