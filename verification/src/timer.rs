//! Pacing for a macro run: a cadence that does not drift.
//!
//! Every deadline is computed from the previous *deadline*, never from "now",
//! so the interval is the period between run starts and the cost of a run does
//! not push the next one later. Instants are nanoseconds on a monotonic clock
//! whose origin the caller chooses.

use vstd::prelude::*;

verus! {

/// Nanoseconds in a millisecond.
pub const NANOS_PER_MILLI: u64 = 1_000_000;

/// The smallest cadence a configuration can ask for, 1 ms (1 kHz): a zero
/// interval would spin a core at whatever rate the injector can absorb.
pub const MIN_INTERVAL_NS: u64 = 1_000_000;

/// The period a configured interval runs at, in nanoseconds.
pub open spec fn interval_ns_of(interval_ms: u32) -> u64 {
    if interval_ms == 0 {
        MIN_INTERVAL_NS
    } else {
        (interval_ms as int * NANOS_PER_MILLI as int) as u64
    }
}

/// A fixed-clock cadence for the repeating modes.
pub struct Pacer {
    interval_ns: u64,
    next_ns: u64,
}

impl Pacer {
    /// The period between two deadlines.
    pub closed spec fn interval(&self) -> u64 {
        self.interval_ns
    }

    /// The last deadline handed out, or the start before the first.
    pub closed spec fn next(&self) -> u64 {
        self.next_ns
    }

    /// Start a cadence of `interval_ms` from `start_ns`, the instant the first
    /// run began.
    pub fn new(interval_ms: u32, start_ns: u64) -> (pacer: Pacer)
        ensures
            pacer.interval() == interval_ns_of(interval_ms),
            pacer.interval() >= MIN_INTERVAL_NS,
            pacer.next() == start_ns,
    {
        let requested: u64 = (interval_ms as u64) * NANOS_PER_MILLI;
        let interval_ns = if requested < MIN_INTERVAL_NS {
            MIN_INTERVAL_NS
        } else {
            requested
        };
        Pacer { interval_ns, next_ns: start_ns }
    }

    /// Whether one more interval fits on the clock.
    pub fn can_advance(&self) -> (fits: bool)
        ensures
            fits <==> self.next() + self.interval() <= u64::MAX,
    {
        self.interval_ns <= u64::MAX - self.next_ns
    }

    /// When the next run is due, given the current instant.
    ///
    /// The deadline advances one interval from the previous deadline, so a run
    /// that cost time does not move it. If the previous run overran its slot
    /// the schedule resynchronises to `now` instead of firing a burst of
    /// back-to-back runs to catch up: the user asked for a rate, not a quota.
    pub fn next_deadline(&mut self, now_ns: u64) -> (deadline: u64)
        requires
            old(self).next() + old(self).interval() <= u64::MAX,
        ensures
            final(self).interval() == old(self).interval(),
            final(self).next() == deadline,
            deadline >= now_ns,
            deadline >= old(self).next() + old(self).interval(),
            now_ns <= old(self).next() + old(self).interval() ==> deadline == old(self).next()
                + old(self).interval(),
            now_ns > old(self).next() + old(self).interval() ==> deadline == now_ns,
            deadline == deadline_after(old(self).next() as int, old(self).interval() as int, now_ns as int),
    {
        let advanced = self.next_ns + self.interval_ns;
        self.next_ns = if advanced < now_ns {
            now_ns
        } else {
            advanced
        };
        self.next_ns
    }
}

/// The deadline after `previous`, asked for at `now`: one interval on, or
/// `now` when that has already passed.
pub open spec fn deadline_after(previous: int, interval: int, now: int) -> int {
    if previous + interval < now {
        now
    } else {
        previous + interval
    }
}

/// The deadlines a pacer started at `start` hands out when asked at each of
/// `nows` in turn.
pub open spec fn schedule(start: int, interval: int, nows: Seq<int>) -> Seq<int>
    decreases nows.len(),
{
    if nows.len() == 0 {
        seq![]
    } else {
        let earlier = schedule(start, interval, nows.drop_last());
        let previous = if earlier.len() == 0 {
            start
        } else {
            earlier.last()
        };
        earlier.push(deadline_after(previous, interval, nows.last()))
    }
}

/// Whatever the instants the deadlines are asked for at, each deadline is at
/// least one interval after the one before (the first, after the start), and
/// never before the instant it was asked for: the cadence never bursts to
/// catch up, and a late call resynchronises to now.
pub proof fn lemma_schedule_is_spaced(start: int, interval: int, nows: Seq<int>)
    ensures
        schedule(start, interval, nows).len() == nows.len(),
        nows.len() > 0 ==> schedule(start, interval, nows)[0] >= start + interval,
        forall|i: int|
            0 <= i < nows.len() ==> #[trigger] schedule(start, interval, nows)[i] >= nows[i],
        forall|i: int|
            0 <= i < nows.len() - 1 ==> #[trigger] schedule(start, interval, nows)[i + 1]
                >= schedule(start, interval, nows)[i] + interval,
    decreases nows.len(),
{
    if nows.len() > 0 {
        let rest = nows.drop_last();
        lemma_schedule_is_spaced(start, interval, rest);
        let earlier = schedule(start, interval, rest);
        let all = schedule(start, interval, nows);
        assert forall|i: int| 0 <= i < nows.len() implies #[trigger] all[i] >= nows[i] by {
            if i < nows.len() - 1 {
                assert(all[i] == earlier[i]);
                assert(rest[i] == nows[i]);
            }
        }
        assert forall|i: int| 0 <= i < nows.len() - 1 implies #[trigger] all[i + 1] >= all[i]
            + interval by {
            if i + 1 < nows.len() - 1 {
                assert(all[i + 1] == earlier[i + 1]);
                assert(all[i] == earlier[i]);
            }
        }
    }
}

/// A cadence that keeps up never drifts: as long as each deadline is asked
/// for before it has passed, the k-th deadline is exactly k intervals after
/// the start, whatever each run cost.
pub proof fn lemma_cadence_does_not_drift(start: int, interval: int, k: nat, now: int)
    requires
        interval >= 1,
        now <= start + (k + 1) * interval,
    ensures
        ({
            let prev = start + k * interval;
            let next = if prev + interval < now {
                now
            } else {
                prev + interval
            };
            next == start + (k + 1) * interval
        }),
{
    assert(start + k * interval + interval == start + (k + 1) * interval) by (nonlinear_arith);
}

} // verus!
