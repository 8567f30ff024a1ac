//! Frame-rate accounting, the frame-time limit, and the bookkeeping of
//! the liveness probe: the pure state that the client's counter threads
//! and the server's prober update on their intervals.

use vstd::prelude::*;
use crate::{Id, PING_MINIMUM, SECOND};

verus! {

/// The duration of a single interval at the given rate, in nanoseconds;
/// zero when no positive rate is given.
pub open spec fn spec_tick_dur(rate: int) -> u64 {
    if rate <= 0 {
        0
    } else {
        (SECOND as int / rate) as u64
    }
}

/// The duration of a single interval at the given rate, in nanoseconds.
pub fn tick_dur(rate: i64) -> (r: u64)
    ensures
        r == spec_tick_dur(rate as int),
{
    if rate <= 0 {
        0
    } else {
        SECOND / (rate as u64)
    }
}

/// How long a liveness prober still has to sleep after a probe, so that
/// two probes are never closer together than the minimum interval.
pub fn ping_wait(elapsed: u64) -> (r: u64)
    ensures
        elapsed < PING_MINIMUM ==> r == PING_MINIMUM - elapsed,
        elapsed >= PING_MINIMUM ==> r == 0,
{
    if elapsed < PING_MINIMUM {
        PING_MINIMUM - elapsed
    } else {
        0
    }
}

/// The round-trip accounting of the liveness probe: the latest measured
/// round trip accumulates in `rate`, and once per second it is published
/// as `ping` while the accumulator restarts.
#[derive(Clone, Copy, Debug, Default, Eq, PartialEq, Structural)]
pub struct PingStats {
    /// The published round-trip time, in nanoseconds.
    pub ping: u64,
    /// The round trip measured since the last publication.
    pub rate: u64,
}

/// One publication interval of the liveness accounting: the accumulated
/// measurement becomes the published ping, and the accumulator restarts.
pub fn ping_handler(stats: &mut PingStats)
    ensures
        final(stats).ping == old(stats).rate,
        final(stats).rate == 0,
{
    stats.ping = stats.rate;
    stats.rate = 0;
}

/// The frames-per-second counter: the published rate, the live count of
/// the running second, and the configured target (zero for unlimited).
#[derive(Clone, Copy, Debug, Default, Eq, PartialEq, Structural)]
pub struct Fps {
    /// The published frames-per-second of the last full second.
    pub inner: Id,
    /// The live count of the running second.
    pub live: Id,
    /// The configured frame target; zero means unlimited.
    pub target: Id,
}

impl Fps {
    /// The published frames-per-second of the last full second.
    pub fn get(&self) -> (r: Id)
        ensures
            r == self.inner,
    {
        self.inner
    }

    /// Count one rendered frame, saturating at the counter's maximum.
    pub fn incr(&mut self)
        ensures
            final(self).live == if old(self).live < Id::MAX {
                old(self).live + 1
            } else {
                Id::MAX as int
            },
            final(self).inner == old(self).inner,
            final(self).target == old(self).target,
    {
        if self.live < Id::MAX {
            self.live = self.live + 1;
        } else {
            self.live = Id::MAX;
        }
    }

    /// The configured frame target; zero means unlimited.
    pub fn target(&self) -> (r: Id)
        ensures
            r == self.target,
    {
        self.target
    }

    /// Install a new frame target and hand back the previous one.
    pub fn swap_target(&mut self, fps: Id) -> (r: Id)
        ensures
            r == old(self).target,
            final(self).target == fps,
            final(self).inner == old(self).inner,
            final(self).live == old(self).live,
    {
        let prev = self.target;
        self.target = fps;
        prev
    }

    /// End one second: publish the live count and restart it.
    pub fn reset(&mut self)
        ensures
            final(self).inner == old(self).live,
            final(self).live == 0,
            final(self).target == old(self).target,
    {
        self.inner = self.live;
        self.live = 0;
    }
}

/// The frame-time limit derived from the configured frame target.
#[derive(Clone, Copy, Debug, Default, Eq, PartialEq, Structural)]
pub struct Limit {
    /// The minimum duration of one frame, in nanoseconds.
    pub nanos: u64,
}

impl Limit {
    /// The minimum duration of one frame, in nanoseconds.
    pub fn get(&self) -> (r: u64)
        ensures
            r == self.nanos,
    {
        self.nanos
    }

    /// Derive the limit from a frame target; a target of zero or less
    /// means no limit.
    pub fn set(&mut self, fps: Id)
        ensures
            final(self).nanos == spec_tick_dur(fps as int),
    {
        self.nanos = tick_dur(fps as i64);
    }
}

} // verus!
