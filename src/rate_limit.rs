use vstd::prelude::*;

verus! {

/// Most messages a device may send within one window.
pub const MAX_MESSAGES_PER_WINDOW: u32 = 30;

/// Length of a counting window, in milliseconds (60 s).
pub const WINDOW_DURATION_MS: u64 = 60000;

/// Shortest spacing between two admitted messages of a device, in milliseconds.
pub const MIN_INTERVAL_MS: u64 = 100;

/// Admission bookkeeping of one device. Instants are milliseconds on a
/// monotonic clock.
#[derive(Clone, Copy, Debug, PartialEq, Eq, Structural)]
pub struct RateLimitState {
    pub last_message: Option<u64>,
    pub message_count: u32,
    pub window_start: Option<u64>,
}

impl Default for RateLimitState {
    fn default() -> (r: RateLimitState)
        ensures
            r == RateLimitState::fresh(),
    {
        RateLimitState { last_message: None, message_count: 0, window_start: None }
    }
}

/// Milliseconds from `then` to `now`, or 0 when `now` is not later.
pub open spec fn elapsed(now: u64, then: u64) -> int {
    if now >= then {
        now - then
    } else {
        0
    }
}

impl RateLimitState {
    /// The bookkeeping of a device that has sent nothing yet.
    pub open spec fn fresh() -> RateLimitState {
        RateLimitState { last_message: None, message_count: 0, window_start: None }
    }

    /// The last admitted message lies less than `MIN_INTERVAL_MS` before `now`.
    pub open spec fn too_soon(self, now: u64) -> bool {
        match self.last_message {
            Some(last) => elapsed(now, last) < MIN_INTERVAL_MS,
            None => false,
        }
    }

    /// Window start and count at `now`: a window that has run its full
    /// length is restarted at `now` with a count of 0.
    pub open spec fn window_at(self, now: u64) -> (u64, u32) {
        let start = match self.window_start {
            Some(w) => w,
            None => now,
        };
        if elapsed(now, start) >= WINDOW_DURATION_MS {
            (now, 0u32)
        } else {
            (start, self.message_count)
        }
    }

    /// Whether a message at `now` passes both gates.
    pub open spec fn admits(self, now: u64) -> bool {
        !self.too_soon(now) && self.window_at(now).1 < MAX_MESSAGES_PER_WINDOW
    }

    /// The bookkeeping after a message arrives at `now`, admitted or not.
    pub open spec fn after(self, now: u64) -> RateLimitState {
        if self.too_soon(now) {
            self
        } else {
            let (start, count) = self.window_at(now);
            if count < MAX_MESSAGES_PER_WINDOW {
                RateLimitState {
                    last_message: Some(now),
                    message_count: (count + 1) as u32,
                    window_start: Some(start),
                }
            } else {
                RateLimitState { last_message: self.last_message, message_count: count, window_start: Some(start) }
            }
        }
    }

    /// Decides a message arriving at `now`: whether it is admitted, and the
    /// bookkeeping to keep for the device.
    pub fn check(&self, now: u64) -> (r: (bool, RateLimitState))
        ensures
            r.0 == self.admits(now),
            r.1 == self.after(now),
    {
        if let Some(last) = self.last_message {
            let since: u64 = if now >= last { now - last } else { 0 };
            if since < MIN_INTERVAL_MS {
                return (false, *self);
            }
        }
        let mut start: u64 = match self.window_start {
            Some(w) => w,
            None => now,
        };
        let mut count: u32 = self.message_count;
        let since_start: u64 = if now >= start { now - start } else { 0 };
        if since_start >= WINDOW_DURATION_MS {
            start = now;
            count = 0;
        }
        if count >= MAX_MESSAGES_PER_WINDOW {
            return (false, RateLimitState { last_message: self.last_message, message_count: count, window_start: Some(start) });
        }
        (true, RateLimitState { last_message: Some(now), message_count: count + 1, window_start: Some(start) })
    }
}

} // verus!
