use vstd::prelude::*;

verus! {

/// Units of bucket level that make up one permit. Time is counted in
/// nanoseconds and a refill rate of `r` permits per second adds `r` units per
/// nanosecond, so one permit is one second's worth of units.
pub const UNIT: u64 = 1_000_000_000;

/// A single process-wide token bucket that every inbound request must pass.
///
/// The level is kept in units of `UNIT` per permit so that refills over
/// fractions of a second are exact.
#[derive(Clone, Copy, Debug)]
pub struct RateLimitLayer {
    /// Burst capacity: the most permits the bucket holds.
    pub capacity: u64,
    /// Permits added per second.
    pub refill_rate: u64,
    /// Current level, in units.
    pub level: u64,
    /// Time of the last refill, in nanoseconds.
    pub last_refill: u64,
}

/// Rejection of a request by the admission controller.
#[derive(Clone, Copy, Debug, PartialEq, Eq, Structural)]
pub struct RateLimitError;

impl RateLimitError {
    /// HTTP status of the rejection (too many requests).
    pub fn status_code(&self) -> (r: u16)
        ensures
            r == 429,
    {
        429
    }

    /// Fixed message shown to the caller.
    pub fn message(&self) -> (r: &'static str)
        ensures
            r@ == "Rate limit exceeded"@,
    {
        "Rate limit exceeded"
    }
}

impl RateLimitLayer {
    /// Level of a full bucket, in units.
    pub open spec fn full_level(self) -> int {
        self.capacity * UNIT
    }

    pub open spec fn wf(self) -> bool {
        &&& 1 <= self.capacity <= u32::MAX
        &&& 1 <= self.refill_rate <= u32::MAX
        &&& self.level <= self.full_level()
    }

    /// Nanoseconds elapsed since the last refill; a clock that steps back
    /// counts as no time.
    pub open spec fn elapsed(self, now: u64) -> int {
        if now > self.last_refill {
            now - self.last_refill
        } else {
            0
        }
    }

    /// Level after refilling up to `now`, capped at the burst capacity.
    pub open spec fn level_at(self, now: u64) -> int {
        let total = self.level + self.elapsed(now) * self.refill_rate;
        if total > self.full_level() {
            self.full_level()
        } else {
            total
        }
    }

    /// Whether a check at `now` admits the request.
    pub open spec fn admits(self, now: u64) -> bool {
        self.level_at(now) >= UNIT
    }

    /// The bucket after a check at `now`: refilled, and one permit taken if
    /// one was there.
    pub open spec fn after_check(self, now: u64) -> RateLimitLayer {
        RateLimitLayer {
            capacity: self.capacity,
            refill_rate: self.refill_rate,
            level: (if self.admits(now) {
                self.level_at(now) - UNIT
            } else {
                self.level_at(now)
            }) as u64,
            last_refill: if now > self.last_refill {
                now
            } else {
                self.last_refill
            },
        }
    }

    /// The bucket after `n` checks, all at `now`.
    pub open spec fn after_checks(self, now: u64, n: nat) -> RateLimitLayer
        decreases n,
    {
        if n == 0 {
            self
        } else {
            self.after_checks(now, (n - 1) as nat).after_check(now)
        }
    }

    /// A full bucket of `burst_size` permits refilled at `requests_per_second`.
    pub fn new(requests_per_second: u32, burst_size: u32) -> (r: RateLimitLayer)
        requires
            requests_per_second >= 1,
            burst_size >= 1,
        ensures
            r.wf(),
            r.capacity == burst_size,
            r.refill_rate == requests_per_second,
            r.level == r.full_level(),
            r.last_refill == 0,
    {
        let capacity = burst_size as u64;
        assert(capacity * UNIT <= u32::MAX * UNIT) by (nonlinear_arith)
            requires
                capacity <= u32::MAX,
        ;
        RateLimitLayer {
            capacity,
            refill_rate: requests_per_second as u64,
            level: capacity * UNIT,
            last_refill: 0,
        }
    }

    /// Refills the bucket for the time elapsed up to `now` (in nanoseconds)
    /// and takes one permit if one is there; returns whether it did.
    pub fn check(&mut self, now: u64) -> (r: bool)
        requires
            old(self).wf(),
        ensures
            final(self).wf(),
            r == old(self).admits(now),
            *final(self) == old(self).after_check(now),
    {
        let elapsed: u64 = if now > self.last_refill {
            now - self.last_refill
        } else {
            0
        };
        let rate = self.refill_rate;
        assert(elapsed * rate <= u64::MAX * u32::MAX) by (nonlinear_arith)
            requires
                elapsed <= u64::MAX,
                rate <= u32::MAX,
        ;
        assert(self.capacity * UNIT <= u32::MAX * UNIT) by (nonlinear_arith)
            requires
                self.capacity <= u32::MAX,
        ;
        let full: u64 = self.capacity * UNIT;
        let total: u128 = self.level as u128 + (elapsed as u128) * (rate as u128);
        let level: u64 = if total > full as u128 {
            full
        } else {
            total as u64
        };
        if now > self.last_refill {
            self.last_refill = now;
        }
        if level >= UNIT {
            self.level = level - UNIT;
            true
        } else {
            self.level = level;
            false
        }
    }

    proof fn lemma_drain(self, t: u64, i: nat)
        requires
            self.wf(),
            self.level == self.full_level(),
            self.last_refill <= t,
            1 <= i <= self.capacity,
        ensures
            self.after_checks(t, i).level == (self.capacity - i) * UNIT,
            self.after_checks(t, i).last_refill == t,
            self.after_checks(t, i).capacity == self.capacity,
            self.after_checks(t, i).refill_rate == self.refill_rate,
        decreases i,
    {
        if i > 1 {
            self.lemma_drain(t, (i - 1) as nat);
        } else {
            assert(self.after_checks(t, 0) == self);
        }
    }

    /// From a full bucket, `capacity` checks at one instant are admitted and
    /// the next one is refused; after a wait of at least one refill period
    /// (and under two) exactly one further check is admitted.
    pub proof fn lemma_burst_then_refill(self, t: u64, d: u64)
        requires
            self.wf(),
            self.level == self.full_level(),
            self.last_refill <= t,
            t + d <= u64::MAX,
            UNIT <= d * self.refill_rate < 2 * UNIT,
        ensures
            forall|i: nat| i < self.capacity ==> #[trigger] self.after_checks(t, i).admits(t),
            !self.after_checks(t, self.capacity as nat).admits(t),
            self.after_checks(t, self.capacity as nat + 1).admits((t + d) as u64),
            !self.after_checks(t, self.capacity as nat + 1).after_check((t + d) as u64).admits(
                (t + d) as u64,
            ),
    {
        assert forall|i: nat| i < self.capacity implies #[trigger] self.after_checks(t, i).admits(
            t,
        ) by {
            if i >= 1 {
                self.lemma_drain(t, i);
            }
        }
        self.lemma_drain(t, self.capacity as nat);
        let drained = self.after_checks(t, self.capacity as nat);
        assert(self.after_checks(t, self.capacity as nat + 1) == drained.after_check(t));
        let empty = drained.after_check(t);
        assert(empty.level == 0);
        assert(empty.last_refill == t);
        let later = (t + d) as u64;
        assert(empty.elapsed(later) == d);
        assert(empty.full_level() >= UNIT) by (nonlinear_arith)
            requires
                empty.capacity >= 1,
                empty.full_level() == empty.capacity * UNIT,
        ;
    }
}

} // verus!
