use vstd::prelude::*;

verus! {

/// Requests a HaloPSA client may make per window.
pub const RATE_LIMIT_REQUESTS: u32 = 400;

/// The HaloPSA client's window: five minutes, in nanoseconds.
pub const RATE_LIMIT_WINDOW_NANOS: u64 = 300_000_000_000;

/// The per-minute window of the server's endpoint limits, in nanoseconds.
pub const MINUTE_NANOS: u64 = 60_000_000_000;

/// Time since `start` on a monotonic clock read as nanoseconds
/// (`Instant::elapsed`, which never goes below zero).
pub open spec fn elapsed(now: u64, start: u64) -> int {
    if now >= start { now - start } else { 0 }
}

/// A fixed-window request counter: the abstract state is the number of
/// requests admitted in the current window and when that window began.
pub struct WindowState {
    pub count: nat,
    pub window_start: u64,
}

/// One admission decision: open a new window when more than `window` has
/// passed, then admit when fewer than `max` requests were admitted in it.
pub open spec fn window_check(st: WindowState, max: nat, window: u64, now: u64) -> (WindowState, bool) {
    let st1 = if elapsed(now, st.window_start) > window {
        WindowState { count: 0, window_start: now }
    } else {
        st
    };
    if st1.count >= max {
        (st1, false)
    } else {
        (WindowState { count: st1.count + 1, window_start: st1.window_start }, true)
    }
}

/// Feeds the request times `times` to the counter; returns the final state
/// and how many requests were admitted.
pub open spec fn window_run(st: WindowState, max: nat, window: u64, times: Seq<u64>) -> (WindowState, nat)
    decreases times.len(),
{
    if times.len() == 0 {
        (st, 0)
    } else {
        let (st1, ok) = window_check(st, max, window, times[0]);
        let (st2, n) = window_run(st1, max, window, times.drop_first());
        (st2, if ok { n + 1 } else { n })
    }
}

/// Law: while no request arrives more than `window` after the window began,
/// the counter admits at most `max - count` further requests.
pub proof fn lemma_window_admits_at_most_max(st: WindowState, max: nat, window: u64, times: Seq<u64>)
    requires
        st.count <= max,
        forall|i: int| 0 <= i < times.len() ==> elapsed(#[trigger] times[i], st.window_start) <= window,
    ensures
        window_run(st, max, window, times).1 <= max - st.count,
        window_run(st, max, window, times).0.window_start == st.window_start,
    decreases times.len(),
{
    if times.len() > 0 {
        let (st1, ok) = window_check(st, max, window, times[0]);
        assert(elapsed(times[0], st.window_start) <= window);
        assert forall|i: int| 0 <= i < times.drop_first().len() implies elapsed(
            #[trigger] times.drop_first()[i],
            st1.window_start,
        ) <= window by {
            assert(times.drop_first()[i] == times[i + 1]);
        }
        lemma_window_admits_at_most_max(st1, max, window, times.drop_first());
    }
}

/// Law: while every request arrives within `window` of the window's start,
/// requests are admitted in order until `max` of them are in the window and
/// refused after that; a refusal changes nothing. After `n` such requests the
/// window holds `min(count + n, max)` and `min(n, max - count)` were admitted.
/// `RateTracker::check` (400 per 5 minutes) and `RateLimit::check` (its own
/// maximum per minute) each take one such step.
pub proof fn lemma_window_run_counts(st: WindowState, max: nat, window: u64, times: Seq<u64>)
    requires
        st.count <= max,
        forall|i: int| 0 <= i < times.len() ==> elapsed(#[trigger] times[i], st.window_start) <= window,
    ensures
        window_run(st, max, window, times).0 == (WindowState {
            count: if st.count + times.len() <= max { st.count + times.len() } else { max },
            window_start: st.window_start,
        }),
        window_run(st, max, window, times).1 == if st.count + times.len() <= max {
            times.len()
        } else {
            (max - st.count) as nat
        },
    decreases times.len(),
{
    if times.len() > 0 {
        let (st1, ok) = window_check(st, max, window, times[0]);
        assert(elapsed(times[0], st.window_start) <= window);
        assert forall|i: int| 0 <= i < times.drop_first().len() implies elapsed(
            #[trigger] times.drop_first()[i],
            st1.window_start,
        ) <= window by {
            assert(times.drop_first()[i] == times[i + 1]);
        }
        lemma_window_run_counts(st1, max, window, times.drop_first());
    }
}

/// Law: in a window opened at `start` with nothing admitted, after `n`
/// earlier requests all within `window` of `start`, a further request within
/// the window is admitted exactly when `n < max`.
pub proof fn lemma_request_admitted_iff_under_max(
    max: nat,
    window: u64,
    start: u64,
    times: Seq<u64>,
    now: u64,
)
    requires
        forall|i: int| 0 <= i < times.len() ==> elapsed(#[trigger] times[i], start) <= window,
        elapsed(now, start) <= window,
    ensures
        window_check(
            window_run(WindowState { count: 0, window_start: start }, max, window, times).0,
            max,
            window,
            now,
        ).1 <==> times.len() < max,
{
    lemma_window_run_counts(WindowState { count: 0, window_start: start }, max, window, times);
}

/// Law: once more than `window` has passed since the window began, the next
/// request is admitted (a fresh window opens).
pub proof fn lemma_window_reopens(st: WindowState, max: nat, window: u64, now: u64)
    requires
        max > 0,
        elapsed(now, st.window_start) > window,
    ensures
        window_check(st, max, window, now) == (WindowState { count: 1, window_start: now }, true),
{
}

/// Rate limiter for the HaloPSA API client: 400 requests per 5 minutes.
/// Times are monotonic-clock readings in nanoseconds.
pub struct RateTracker {
    count: u32,
    window_start: u64,
}

impl RateTracker {
    #[verifier::type_invariant]
    spec fn count_bounded(self) -> bool {
        self.count <= RATE_LIMIT_REQUESTS
    }

    pub closed spec fn state(self) -> WindowState {
        WindowState { count: self.count as nat, window_start: self.window_start }
    }

    /// A tracker whose window starts at `now`, with nothing admitted yet.
    pub fn new(now: u64) -> (r: Self)
        ensures
            r.state() == (WindowState { count: 0, window_start: now }),
    {
        RateTracker { count: 0, window_start: now }
    }

    /// Admits one request at time `now`, or refuses it with
    /// "Rate limit exceeded (400 requests per 5 minutes)".
    pub fn check(&mut self, now: u64) -> (r: Result<(), String>)
        ensures
            ({
                let (st, ok) = window_check(
                    old(self).state(),
                    RATE_LIMIT_REQUESTS as nat,
                    RATE_LIMIT_WINDOW_NANOS,
                    now,
                );
                &&& final(self).state() == st
                &&& ok == r is Ok
                &&& (r matches Err(e) ==> e@ == "Rate limit exceeded (400 requests per 5 minutes)"@)
            }),
    {
        proof {
            use_type_invariant(&*self);
        }
        let el = if now >= self.window_start { now - self.window_start } else { 0 };
        if el > RATE_LIMIT_WINDOW_NANOS {
            self.count = 0;
            self.window_start = now;
        }
        if self.count >= RATE_LIMIT_REQUESTS {
            return Err("Rate limit exceeded (400 requests per 5 minutes)".to_owned());
        }
        self.count = self.count + 1;
        Ok(())
    }
}

/// A per-minute limit on an endpoint (`/authorize`, `/register`, or one
/// SSE session's messages). Times are monotonic-clock readings in
/// nanoseconds.
pub struct RateLimit {
    count: u32,
    max: u32,
    window_start: u64,
}

impl RateLimit {
    #[verifier::type_invariant]
    spec fn count_bounded(self) -> bool {
        self.count <= self.max
    }

    pub closed spec fn state(self) -> WindowState {
        WindowState { count: self.count as nat, window_start: self.window_start }
    }

    pub closed spec fn max(self) -> nat {
        self.max as nat
    }

    /// A limit of `max` requests per minute whose window starts at `now`.
    pub fn new(max: u32, now: u64) -> (r: Self)
        ensures
            r.state() == (WindowState { count: 0, window_start: now }),
            r.max() == max,
    {
        RateLimit { count: 0, max, window_start: now }
    }

    /// Admits one request at time `now` (`Ok`) or refuses it (`Err`).
    pub fn check(&mut self, now: u64) -> (r: Result<(), ()>)
        ensures
            final(self).max() == old(self).max(),
            ({
                let (st, ok) = window_check(old(self).state(), old(self).max(), MINUTE_NANOS, now);
                final(self).state() == st && ok == r is Ok
            }),
    {
        proof {
            use_type_invariant(&*self);
        }
        let el = if now >= self.window_start { now - self.window_start } else { 0 };
        if el > MINUTE_NANOS {
            self.count = 0;
            self.window_start = now;
        }
        if self.count >= self.max {
            return Err(());
        }
        self.count = self.count + 1;
        Ok(())
    }
}

} // verus!
