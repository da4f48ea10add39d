use vstd::prelude::*;

pub mod config;
pub mod panel;
pub mod pulse;

verus! {

/// Why a panel operation stopped.
#[derive(Clone, Copy, Debug, PartialEq, Eq, Structural)]
pub enum Error {
    /// The pulse-train channel could not be configured, or its transmission failed.
    Rmt,
    /// An earlier unwaited pulse still holds the pulse-train channel.
    ChannelUnavailable,
    /// The row transfer over the parallel bus failed.
    Dma,
}

/// Whether a busy wait of `wait_cycles` CPU cycles that began when the cycle
/// counter read `start` is over now that it reads `now`.
pub fn busy_delay(wait_cycles: u32, start: u64, now: u64) -> (done: bool)
    ensures
        done == (now as int >= start as int + wait_cycles as int),
{
    now >= start && now - start >= wait_cycles as u64
}

/// Counter value at which the 32-bit hardware cycle counter wraps to zero.
pub const CYCLE_COUNTER_PERIOD: u64 = 0x1_0000_0000;

/// The 64-bit cycle count made of `wraps` full turns of the 32-bit counter
/// and its current reading `now`.
pub open spec fn cycle_value(wraps: u32, now: u32) -> int {
    wraps as int * CYCLE_COUNTER_PERIOD as int + now as int
}

/// Widens the 32-bit hardware cycle counter to a monotonic 64-bit count by
/// counting the times it wraps. It must be read at least once per turn.
pub struct CycleClock {
    pub wraps: u32,
    pub last: u32,
}

impl CycleClock {
    /// A clock started at counter reading `now`.
    pub fn new(now: u32) -> (r: CycleClock)
        ensures
            r.wraps == 0,
            r.last == now,
    {
        CycleClock { wraps: 0, last: now }
    }

    /// Take a new counter reading and return the widened count. A reading
    /// below the previous one means the counter has wrapped once.
    pub fn observe(&mut self, now: u32) -> (r: u64)
        ensures
            final(self).last == now,
            final(self).wraps == (if now < old(self).last {
                ((old(self).wraps as int + 1) % CYCLE_COUNTER_PERIOD as int) as u32
            } else {
                old(self).wraps
            }),
            r as int == cycle_value(final(self).wraps, now),
    {
        if now < self.last {
            self.wraps = if self.wraps == u32::MAX {
                0
            } else {
                self.wraps + 1
            };
        }
        self.last = now;
        let w = self.wraps as u64;
        assert(w * CYCLE_COUNTER_PERIOD + now as u64 <= u64::MAX) by (nonlinear_arith)
            requires
                w <= u32::MAX,
                now <= u32::MAX,
                CYCLE_COUNTER_PERIOD == 0x1_0000_0000,
        ;
        w * CYCLE_COUNTER_PERIOD + now as u64
    }
}

} // verus!
