//! Throttling of a worker: counters of the verifications made in the current
//! second, minute, hour and day, and the wait before the next one. Times are
//! in nanoseconds since a fixed origin chosen by the caller.

use vstd::prelude::*;
use crate::worker_config::ThrottleConfig;

verus! {

/// One second, in nanoseconds.
pub const SECOND_NANOS: u64 = 1_000_000_000u64;
/// One minute, in nanoseconds.
pub const MINUTE_NANOS: u64 = 60_000_000_000u64;
/// One hour, in nanoseconds.
pub const HOUR_NANOS: u64 = 3_600_000_000_000u64;
/// One day, in nanoseconds.
pub const DAY_NANOS: u64 = 86_400_000_000_000u64;

/// The time elapsed from `earlier` to `now`, zero when `earlier` is later
/// (as `Instant::duration_since` saturates).
pub open spec fn elapsed(now: u64, earlier: u64) -> u64 {
    if now >= earlier {
        (now - earlier) as u64
    } else {
        0
    }
}

fn elapsed_exec(now: u64, earlier: u64) -> (r: u64)
    ensures
        r == elapsed(now, earlier),
{
    if now >= earlier {
        now - earlier
    } else {
        0
    }
}

/// Counters of the verifications made in the current windows.
#[derive(Debug, Clone, Copy, PartialEq, Eq, Structural)]
pub struct Throttle {
    pub requests_per_second: u32,
    pub requests_per_minute: u32,
    pub requests_per_hour: u32,
    pub requests_per_day: u32,
    pub last_reset_second: u64,
    pub last_reset_minute: u64,
    pub last_reset_hour: u64,
    pub last_reset_day: u64,
}

/// Every window started less than its length ago.
pub open spec fn windows_current(t: Throttle, now: u64) -> bool {
    &&& elapsed(now, t.last_reset_second) < SECOND_NANOS
    &&& elapsed(now, t.last_reset_minute) < MINUTE_NANOS
    &&& elapsed(now, t.last_reset_hour) < HOUR_NANOS
    &&& elapsed(now, t.last_reset_day) < DAY_NANOS
}

/// One window's counter after a reset check: zeroed and restarted at `now`
/// when the window has run its length, kept otherwise.
pub open spec fn window_after_reset(count: u32, last: u64, now: u64, len: u64) -> (u32, u64) {
    if elapsed(now, last) >= len {
        (0u32, now)
    } else {
        (count, last)
    }
}

/// The wait that a limit asks for in one window: `len - elapsed` when the
/// window's count has reached the limit.
pub open spec fn window_wait(limit: Option<u32>, count: u32, last: u64, now: u64, len: u64) -> Option<u64> {
    match limit {
        Some(max) => if count >= max {
            Some((len - elapsed(now, last)) as u64)
        } else {
            None
        },
        None => None,
    }
}

/// The wait before the next verification: that of the first window, in the
/// order second, minute, hour, day, whose limit is reached.
pub open spec fn throttle_wait(t: Throttle, c: ThrottleConfig, now: u64) -> Option<u64> {
    match window_wait(c.max_requests_per_second, t.requests_per_second, t.last_reset_second, now, SECOND_NANOS) {
        Some(w) => Some(w),
        None => match window_wait(c.max_requests_per_minute, t.requests_per_minute, t.last_reset_minute, now, MINUTE_NANOS) {
            Some(w) => Some(w),
            None => match window_wait(c.max_requests_per_hour, t.requests_per_hour, t.last_reset_hour, now, HOUR_NANOS) {
                Some(w) => Some(w),
                None => window_wait(c.max_requests_per_day, t.requests_per_day, t.last_reset_day, now, DAY_NANOS),
            },
        },
    }
}

impl Throttle {
    /// Counters at zero, all windows starting at `now`.
    pub fn new(now: u64) -> (r: Self)
        ensures
            r.requests_per_second == 0 && r.requests_per_minute == 0 && r.requests_per_hour == 0
                && r.requests_per_day == 0,
            r.last_reset_second == now && r.last_reset_minute == now && r.last_reset_hour == now
                && r.last_reset_day == now,
    {
        Throttle {
            requests_per_second: 0,
            requests_per_minute: 0,
            requests_per_hour: 0,
            requests_per_day: 0,
            last_reset_second: now,
            last_reset_minute: now,
            last_reset_hour: now,
            last_reset_day: now,
        }
    }

    /// Reset the counters of the windows that have run their length.
    pub fn reset_if_needed(&mut self, now: u64)
        ensures
            (final(self).requests_per_second, final(self).last_reset_second) == window_after_reset(
                old(self).requests_per_second,
                old(self).last_reset_second,
                now,
                SECOND_NANOS,
            ),
            (final(self).requests_per_minute, final(self).last_reset_minute) == window_after_reset(
                old(self).requests_per_minute,
                old(self).last_reset_minute,
                now,
                MINUTE_NANOS,
            ),
            (final(self).requests_per_hour, final(self).last_reset_hour) == window_after_reset(
                old(self).requests_per_hour,
                old(self).last_reset_hour,
                now,
                HOUR_NANOS,
            ),
            (final(self).requests_per_day, final(self).last_reset_day) == window_after_reset(
                old(self).requests_per_day,
                old(self).last_reset_day,
                now,
                DAY_NANOS,
            ),
    {
        if elapsed_exec(now, self.last_reset_second) >= SECOND_NANOS {
            self.requests_per_second = 0;
            self.last_reset_second = now;
        }
        if elapsed_exec(now, self.last_reset_minute) >= MINUTE_NANOS {
            self.requests_per_minute = 0;
            self.last_reset_minute = now;
        }
        if elapsed_exec(now, self.last_reset_hour) >= HOUR_NANOS {
            self.requests_per_hour = 0;
            self.last_reset_hour = now;
        }
        if elapsed_exec(now, self.last_reset_day) >= DAY_NANOS {
            self.requests_per_day = 0;
            self.last_reset_day = now;
        }
    }

    /// Count one more verification in every window. No counter is at its
    /// largest value (the addition would overflow).
    pub fn increment_counters(&mut self)
        requires
            old(self).requests_per_second < u32::MAX,
            old(self).requests_per_minute < u32::MAX,
            old(self).requests_per_hour < u32::MAX,
            old(self).requests_per_day < u32::MAX,
        ensures
            *final(self) == (Throttle {
                requests_per_second: (old(self).requests_per_second + 1) as u32,
                requests_per_minute: (old(self).requests_per_minute + 1) as u32,
                requests_per_hour: (old(self).requests_per_hour + 1) as u32,
                requests_per_day: (old(self).requests_per_day + 1) as u32,
                ..*old(self)
            }),
    {
        self.requests_per_second += 1;
        self.requests_per_minute += 1;
        self.requests_per_hour += 1;
        self.requests_per_day += 1;
    }

    /// How long to wait before the next verification, if a limit is reached.
    /// Every window started less than its length before `now` (as it does
    /// right after `reset_if_needed(now)`), so that no wait is negative.
    pub fn should_throttle(&self, config: &ThrottleConfig, now: u64) -> (r: Option<u64>)
        requires
            windows_current(*self, now),
        ensures
            r == throttle_wait(*self, *config, now),
    {
        if let Some(max_per_second) = config.max_requests_per_second {
            if self.requests_per_second >= max_per_second {
                return Some(SECOND_NANOS - elapsed_exec(now, self.last_reset_second));
            }
        }
        if let Some(max_per_minute) = config.max_requests_per_minute {
            if self.requests_per_minute >= max_per_minute {
                return Some(MINUTE_NANOS - elapsed_exec(now, self.last_reset_minute));
            }
        }
        if let Some(max_per_hour) = config.max_requests_per_hour {
            if self.requests_per_hour >= max_per_hour {
                return Some(HOUR_NANOS - elapsed_exec(now, self.last_reset_hour));
            }
        }
        if let Some(max_per_day) = config.max_requests_per_day {
            if self.requests_per_day >= max_per_day {
                return Some(DAY_NANOS - elapsed_exec(now, self.last_reset_day));
            }
        }
        None
    }
}

/// After the reset check at `now`, every window started less than its length
/// before `now`: the throttle check may then be made at `now`.
pub proof fn lemma_reset_makes_windows_current(before: Throttle, after: Throttle, now: u64)
    requires
        (after.requests_per_second, after.last_reset_second) == window_after_reset(
            before.requests_per_second,
            before.last_reset_second,
            now,
            SECOND_NANOS,
        ),
        (after.requests_per_minute, after.last_reset_minute) == window_after_reset(
            before.requests_per_minute,
            before.last_reset_minute,
            now,
            MINUTE_NANOS,
        ),
        (after.requests_per_hour, after.last_reset_hour) == window_after_reset(
            before.requests_per_hour,
            before.last_reset_hour,
            now,
            HOUR_NANOS,
        ),
        (after.requests_per_day, after.last_reset_day) == window_after_reset(
            before.requests_per_day,
            before.last_reset_day,
            now,
            DAY_NANOS,
        ),
    ensures
        windows_current(after, now),
{
}

/// A wait is asked for exactly when some window's limit is reached, and it
/// is positive and at most the length of a day.
pub proof fn lemma_wait_bounds(t: Throttle, c: ThrottleConfig, now: u64)
    requires
        windows_current(t, now),
    ensures
        throttle_wait(t, c, now) is Some <==> (
            (c.max_requests_per_second matches Some(m) && t.requests_per_second >= m)
            || (c.max_requests_per_minute matches Some(m) && t.requests_per_minute >= m)
            || (c.max_requests_per_hour matches Some(m) && t.requests_per_hour >= m)
            || (c.max_requests_per_day matches Some(m) && t.requests_per_day >= m)),
        throttle_wait(t, c, now) matches Some(w) ==> 0 < w <= DAY_NANOS,
{
}

/// `wait` is a wait that ends exactly when the window that started at
/// `start` and lasts `len` ends (its whole length, when `start` is after
/// `now`).
pub open spec fn waits_until_window_end(wait: Option<u64>, start: u64, now: u64, len: u64) -> bool {
    match wait {
        Some(w) => if start <= now {
            now + w == start + len
        } else {
            w == len
        },
        None => false,
    }
}

/// Each window's wait is measured from that window's own start, so that the
/// wait ends exactly when the window that limits ends: when the per-second
/// limit is reached the wait runs to the end of the current second window;
/// otherwise, when the per-minute limit is reached, to the end of the minute
/// window; then likewise the hour and the day. A window that starts after
/// `now` (its start is not yet reached) asks for its whole length.
pub proof fn lemma_wait_ends_with_its_window(t: Throttle, c: ThrottleConfig, now: u64)
    requires
        windows_current(t, now),
    ensures
        ({
            let sec = c.max_requests_per_second matches Some(m) && t.requests_per_second >= m;
            let min = c.max_requests_per_minute matches Some(m) && t.requests_per_minute >= m;
            let hour = c.max_requests_per_hour matches Some(m) && t.requests_per_hour >= m;
            let day = c.max_requests_per_day matches Some(m) && t.requests_per_day >= m;
            &&& sec ==> waits_until_window_end(throttle_wait(t, c, now), t.last_reset_second, now, SECOND_NANOS)
            &&& !sec && min ==> waits_until_window_end(throttle_wait(t, c, now), t.last_reset_minute, now, MINUTE_NANOS)
            &&& !sec && !min && hour ==> waits_until_window_end(throttle_wait(t, c, now), t.last_reset_hour, now, HOUR_NANOS)
            &&& !sec && !min && !hour && day ==> waits_until_window_end(throttle_wait(t, c, now), t.last_reset_day, now, DAY_NANOS)
            &&& !sec && !min && !hour && !day ==> throttle_wait(t, c, now) is None
        }),
{
}

/// A throttle whose counters are all below every limit never waits: a
/// verification counted right after a reset at zero is allowed.
pub proof fn lemma_fresh_throttle_waits_only_for_zero_limits(t: Throttle, c: ThrottleConfig, now: u64)
    requires
        windows_current(t, now),
        t.requests_per_second == 0,
        t.requests_per_minute == 0,
        t.requests_per_hour == 0,
        t.requests_per_day == 0,
    ensures
        throttle_wait(t, c, now) is Some <==> (c.max_requests_per_second == Some(0u32)
            || c.max_requests_per_minute == Some(0u32) || c.max_requests_per_hour == Some(0u32)
            || c.max_requests_per_day == Some(0u32)),
{
}

/// What the worker does next in its loop.
#[derive(Debug, Clone, Copy, PartialEq, Eq, Structural)]
pub enum WorkerAction {
    /// Wait this long (in nanoseconds) before the next turn.
    Wait(u64),
    /// Fetch the next message from the queue.
    Fetch,
}

/// The throttle after the reset check at `now`.
pub open spec fn reset_spec(t: Throttle, now: u64) -> Throttle {
    let (s, ls) = window_after_reset(t.requests_per_second, t.last_reset_second, now, SECOND_NANOS);
    let (m, lm) = window_after_reset(t.requests_per_minute, t.last_reset_minute, now, MINUTE_NANOS);
    let (h, lh) = window_after_reset(t.requests_per_hour, t.last_reset_hour, now, HOUR_NANOS);
    let (d, ld) = window_after_reset(t.requests_per_day, t.last_reset_day, now, DAY_NANOS);
    Throttle {
        requests_per_second: s,
        requests_per_minute: m,
        requests_per_hour: h,
        requests_per_day: d,
        last_reset_second: ls,
        last_reset_minute: lm,
        last_reset_hour: lh,
        last_reset_day: ld,
    }
}

/// One turn of the worker's loop at `now`: the windows that have run their
/// length are reset, then the worker waits if a limit is reached, and
/// fetches a message otherwise.
pub fn worker_turn(throttle: &mut Throttle, config: &ThrottleConfig, now: u64) -> (r: WorkerAction)
    ensures
        *final(throttle) == reset_spec(*old(throttle), now),
        r == (match throttle_wait(*final(throttle), *config, now) {
            Some(w) => WorkerAction::Wait(w),
            None => WorkerAction::Fetch,
        }),
{
    throttle.reset_if_needed(now);
    proof {
        lemma_reset_makes_windows_current(*old(throttle), *throttle, now);
    }
    match throttle.should_throttle(config, now) {
        Some(w) => WorkerAction::Wait(w),
        None => WorkerAction::Fetch,
    }
}

/// The worker fetches only while every configured limit is above the count
/// of its window, and it waits at most a day.
pub proof fn lemma_fetch_only_below_limits(t: Throttle, c: ThrottleConfig, now: u64)
    ensures
        throttle_wait(reset_spec(t, now), c, now) is None ==> {
            let u = reset_spec(t, now);
            &&& (c.max_requests_per_second matches Some(m) ==> u.requests_per_second < m)
            &&& (c.max_requests_per_minute matches Some(m) ==> u.requests_per_minute < m)
            &&& (c.max_requests_per_hour matches Some(m) ==> u.requests_per_hour < m)
            &&& (c.max_requests_per_day matches Some(m) ==> u.requests_per_day < m)
        },
        throttle_wait(reset_spec(t, now), c, now) matches Some(w) ==> 0 < w <= DAY_NANOS,
{
    let u = reset_spec(t, now);
    lemma_reset_makes_windows_current(t, u, now);
    lemma_wait_bounds(u, c, now);
}

/// The reset check at `now` starts a window afresh (count zero, starting at
/// `now`) exactly when it has run its whole length or more; a window that
/// has not is kept as it was, count and start.
pub proof fn lemma_reset_windows(t: Throttle, now: u64)
    ensures
        ({
            let u = reset_spec(t, now);
            &&& (elapsed(now, t.last_reset_second) >= SECOND_NANOS ==> u.requests_per_second == 0
                && u.last_reset_second == now)
            &&& (elapsed(now, t.last_reset_second) < SECOND_NANOS ==> u.requests_per_second
                == t.requests_per_second && u.last_reset_second == t.last_reset_second)
            &&& (elapsed(now, t.last_reset_minute) >= MINUTE_NANOS ==> u.requests_per_minute == 0
                && u.last_reset_minute == now)
            &&& (elapsed(now, t.last_reset_minute) < MINUTE_NANOS ==> u.requests_per_minute
                == t.requests_per_minute && u.last_reset_minute == t.last_reset_minute)
            &&& (elapsed(now, t.last_reset_hour) >= HOUR_NANOS ==> u.requests_per_hour == 0
                && u.last_reset_hour == now)
            &&& (elapsed(now, t.last_reset_hour) < HOUR_NANOS ==> u.requests_per_hour
                == t.requests_per_hour && u.last_reset_hour == t.last_reset_hour)
            &&& (elapsed(now, t.last_reset_day) >= DAY_NANOS ==> u.requests_per_day == 0
                && u.last_reset_day == now)
            &&& (elapsed(now, t.last_reset_day) < DAY_NANOS ==> u.requests_per_day
                == t.requests_per_day && u.last_reset_day == t.last_reset_day)
        }),
{
}

/// The time elapsed since an instant is how far `now` is past it, and zero
/// for an instant that is not yet past.
pub proof fn lemma_elapsed(now: u64, earlier: u64)
    ensures
        earlier <= now ==> earlier + elapsed(now, earlier) == now,
        now < earlier ==> elapsed(now, earlier) == 0,
{
}

} // verus!
