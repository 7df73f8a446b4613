//! Sliding-window rate limiting of unit start attempts.
//!
//! A limiter with an `interval` (seconds) and a `burst` count admits at most
//! `burst` attempts inside one window; a window begins at the first admitted
//! attempt and ends once more than `interval` seconds have passed since it
//! began.  A limiter with `interval == 0` or `burst == 0` is disabled and
//! admits everything.

use vstd::prelude::*;

verus! {

#[verifier::external_type_specification]
#[verifier::external_body]
pub struct ExSystemTime(std::time::SystemTime);

/// Relies on std::time::SystemTime::now: a reading of the system clock;
/// nothing is promised of the value.
#[verifier::external_body]
fn system_time_now() -> std::time::SystemTime {
    std::time::SystemTime::now()
}

/// Relies on SystemTime::duration_since: the distance to the Unix epoch in
/// seconds, or 0 for a clock that reads earlier than the epoch; nothing is
/// promised of the value.
#[verifier::external_body]
fn secs_since_epoch(t: &std::time::SystemTime) -> u64 {
    match t.duration_since(std::time::UNIX_EPOCH) {
        Ok(d) => d.as_secs(),
        Err(_) => 0,
    }
}

/// One clock reading, in whole seconds.
fn now_secs() -> u64 {
    let t = system_time_now();
    secs_since_epoch(&t)
}

/// Seconds from `begin` to `now`, saturating at 0 when the clock moved back.
pub open spec fn elapsed_secs(begin: u64, now: u64) -> u64 {
    if now >= begin {
        (now - begin) as u64
    } else {
        0
    }
}

/// A sliding-window limiter: at most `burst` admissions per window of
/// `interval` seconds.
#[derive(Debug)]
pub struct RateLimit {
    /// Window length in seconds; 0 disables the limiter.
    pub interval: u64,
    /// Admissions allowed inside one window; 0 disables the limiter.
    pub burst: u32,
    /// When the open window began, if one is open.
    pub begin: Option<u64>,
    /// Admissions counted inside the open window.
    pub nums: u32,
}

impl RateLimit {
    /// Whether the limiter limits at all.
    pub open spec fn enabled_spec(self) -> bool {
        self.interval > 0 && self.burst > 0
    }

    /// Whether `now` still falls inside the window that began at `self.begin`.
    pub open spec fn in_window(self, now: u64) -> bool {
        match self.begin {
            Some(b) => elapsed_secs(b, now) <= self.interval,
            None => false,
        }
    }

    /// The admission decision and successor state for one attempt at `now`:
    /// a disabled limiter admits and stays put; outside the window the window
    /// restarts with a count of 1; inside it the attempt is admitted while
    /// the count is below `burst`.
    pub open spec fn step(self, now: u64) -> (bool, RateLimit) {
        if !self.enabled_spec() {
            (true, self)
        } else if !self.in_window(now) {
            (true, RateLimit { begin: Some(now), nums: 1, ..self })
        } else if self.nums < self.burst {
            (true, RateLimit { nums: (self.nums + 1) as u32, ..self })
        } else {
            (false, self)
        }
    }

    /// A fresh limiter: no window is open yet.
    pub fn new(interval: u64, burst: u32) -> (r: RateLimit)
        ensures
            r.interval == interval,
            r.burst == burst,
            r.begin is None,
            r.nums == 0,
    {
        RateLimit { interval, burst, begin: None, nums: 0 }
    }

    /// One attempt, decided against the clock reading `now`.
    pub fn ratelimit_below_at(&mut self, now: u64) -> (r: bool)
        ensures
            (r, *final(self)) == old(self).step(now),
    {
        if !self.ratelimit_enabled() {
            return true;
        }

        let expired = match self.begin {
            None => true,
            Some(b) => {
                let e: u64 = if now >= b { now - b } else { 0 };
                e > self.interval
            }
        };
        if expired {
            self.begin = Some(now);
            self.nums = 1;
            return true;
        }

        if self.nums < self.burst {
            self.nums = self.nums + 1;
            return true;
        }

        false
    }

    /// One attempt, decided against the system clock; whatever the clock
    /// read, the outcome is one `step` of the limiter.
    pub fn ratelimit_below(&mut self) -> (r: bool)
        ensures
            exists|now: u64| (r, *final(self)) == #[trigger] old(self).step(now),
    {
        let now = now_secs();
        let r = self.ratelimit_below_at(now);
        proof {
            assert((r, *self) == old(self).step(now));
        }
        r
    }

    /// Whether the limiter limits at all.
    pub fn ratelimit_enabled(&self) -> (r: bool)
        ensures
            r == self.enabled_spec(),
    {
        if self.interval > 0 && self.burst > 0 {
            return true;
        }

        false
    }

    /// Adopt interval and burst from configuration; the open window and its
    /// count are kept as they are.
    pub fn init_from_config(&mut self, interval: u64, burst: u32)
        ensures
            final(self).interval == interval,
            final(self).burst == burst,
            final(self).begin == old(self).begin,
            final(self).nums == old(self).nums,
    {
        self.interval = interval;
        self.burst = burst;
    }
}

/// Law: the window behaviour of the limiter.  From a fresh limiter with a
/// window of 3 seconds and a burst of 2, three attempts inside one window
/// are admitted, admitted, refused; once the window has elapsed, the next
/// attempt is admitted and the count starts over at 1.
pub proof fn lemma_rate_limit_window(s0: RateLimit, t0: u64, t1: u64, t2: u64, t3: u64)
    requires
        s0.interval == 3,
        s0.burst == 2,
        s0.begin is None,
        s0.nums == 0,
        elapsed_secs(t0, t1) <= 3,
        elapsed_secs(t0, t2) <= 3,
        elapsed_secs(t0, t3) > 3,
    ensures
        ({
            let (r1, s1) = s0.step(t0);
            let (r2, s2) = s1.step(t1);
            let (r3, s3) = s2.step(t2);
            let (r4, s4) = s3.step(t3);
            r1 && r2 && !r3 && r4 && s4.nums == 1 && s4.begin == Some(t3)
        }),
{
}

/// The start-limit guard of one unit: a rate limiter plus a sticky flag
/// recording that the limit was hit.
#[derive(Debug)]
pub struct StartLimit {
    /// Sticky record that the limit was hit.
    pub hit: bool,
    /// The limiter itself.
    pub start_limit: RateLimit,
}

impl StartLimit {
    /// A fresh guard with the default window of 5 starts per 10 seconds.
    pub fn new() -> (r: StartLimit)
        ensures
            !r.hit,
            r.start_limit.begin is None,
            r.start_limit.nums == 0,
            r.start_limit.interval == 10,
            r.start_limit.burst == 5,
    {
        StartLimit { hit: false, start_limit: RateLimit::new(10, 5) }
    }

    /// Record whether the limit was hit.
    pub fn set_hit(&mut self, hit: bool)
        ensures
            final(self).hit == hit,
            final(self).start_limit == old(self).start_limit,
    {
        self.hit = hit;
    }

    /// Whether the limit was hit.
    pub fn hit(&self) -> (r: bool)
        ensures
            r == self.hit,
    {
        self.hit
    }

    /// One start attempt against the guard's limiter and the system clock.
    pub fn ratelimit_below(&mut self) -> (r: bool)
        ensures
            exists|now: u64|
                (r, final(self).start_limit) == #[trigger] old(self).start_limit.step(now),
            final(self).hit == old(self).hit,
    {
        self.start_limit.ratelimit_below()
    }

    /// One start attempt, decided against the clock reading `now`.
    pub fn ratelimit_below_at(&mut self, now: u64) -> (r: bool)
        ensures
            (r, final(self).start_limit) == old(self).start_limit.step(now),
            final(self).hit == old(self).hit,
    {
        self.start_limit.ratelimit_below_at(now)
    }

    /// Adopt interval and burst from configuration.
    pub fn init_from_config(&mut self, interval: u64, burst: u32)
        ensures
            final(self).start_limit.interval == interval,
            final(self).start_limit.burst == burst,
            final(self).start_limit.begin == old(self).start_limit.begin,
            final(self).start_limit.nums == old(self).start_limit.nums,
            final(self).hit == old(self).hit,
    {
        self.start_limit.init_from_config(interval, burst);
    }
}

} // verus!
