//! When the embedded browser engine's message loop must next be pumped.
use vstd::prelude::*;

verus! {

/// Longest the event loop sleeps without pumping the browser engine, in
/// microseconds, so that a missed schedule request cannot stall it.
pub const SAFETY_TIMEOUT_MICROS: u64 = 10_000;

/// How many times the browser engine is pumped when a scheduled deadline
/// has passed.
pub const MESSAGE_LOOP_MAX_ITERATIONS: u32 = 10;

/// `now` plus the safety timeout, held at the clock's largest value.
pub open spec fn timeout_after(now: int) -> int {
    if now + SAFETY_TIMEOUT_MICROS <= u64::MAX {
        now + SAFETY_TIMEOUT_MICROS
    } else {
        u64::MAX as int
    }
}

/// The pending deadline after a request for work at `at`, made at `now`: a
/// request that is already due leaves it alone (the work runs at once); a
/// later one keeps the earlier of the two deadlines.
pub open spec fn after_request(pending: Option<u64>, at: u64, now: u64) -> Option<u64> {
    if at <= now {
        pending
    } else {
        match pending {
            Some(p) => Some(if p <= at { p } else { at }),
            None => Some(at),
        }
    }
}

/// Whether the pending deadline has passed at `now`.
pub open spec fn is_due(pending: Option<u64>, now: u64) -> bool {
    match pending {
        Some(p) => p < now,
        None => false,
    }
}

/// The pending deadline after the loop goes idle at `now`: cleared once it
/// has passed, kept otherwise.
pub open spec fn after_idle(pending: Option<u64>, now: u64) -> Option<u64> {
    if is_due(pending, now) {
        None
    } else {
        pending
    }
}

/// The instant the event loop sleeps until: the safety timeout, or the
/// pending deadline where that comes first.
pub open spec fn wake_time(pending: Option<u64>, now: u64) -> int {
    match pending {
        Some(p) => if p < timeout_after(now as int) { p as int } else { timeout_after(now as int) },
        None => timeout_after(now as int),
    }
}

/// What the event loop does before it goes idle.
pub struct IdlePlan {
    /// Sleep until this instant, in microseconds.
    pub wait_until: u64,
    /// Pump the browser engine this many times first.
    pub pump_iterations: u32,
}

/// At most one pending deadline for browser work, in microseconds of a
/// monotonic clock.
pub struct BrowserSchedule {
    pub pending: Option<u64>,
}

impl BrowserSchedule {
    /// A schedule whose first deadline is `now`, so that the engine is pumped
    /// as soon as the loop first goes idle.
    pub fn new(now: u64) -> (r: BrowserSchedule)
        ensures
            r.pending == Some(now),
    {
        BrowserSchedule { pending: Some(now) }
    }

    /// Handles a request from the engine to be pumped at `at`. Returns true
    /// when the request is already due and the engine is to be pumped once
    /// now; otherwise the request is kept as the pending deadline, unless an
    /// earlier one is pending already.
    pub fn request(&mut self, at: u64, now: u64) -> (work_now: bool)
        ensures
            work_now == (at <= now),
            final(self).pending == after_request(old(self).pending, at, now),
    {
        if at <= now {
            return true;
        }
        match self.pending {
            Some(p) => {
                if at < p {
                    self.pending = Some(at);
                }
            },
            None => {
                self.pending = Some(at);
            },
        }
        false
    }

    /// Decides what happens before the loop goes idle at `now`: the wake-up
    /// instant, and whether the deadline has passed, in which case it is
    /// cleared and the engine pumped a bounded number of times.
    pub fn about_to_wait(&mut self, now: u64) -> (plan: IdlePlan)
        ensures
            plan.wait_until == wake_time(old(self).pending, now),
            final(self).pending == after_idle(old(self).pending, now),
            plan.pump_iterations == (if is_due(old(self).pending, now) {
                MESSAGE_LOOP_MAX_ITERATIONS
            } else {
                0
            }),
    {
        let timeout: u64 = now.saturating_add(SAFETY_TIMEOUT_MICROS);
        let wait_until: u64 = match self.pending {
            Some(p) => if p < timeout { p } else { timeout },
            None => timeout,
        };
        let mut pump_iterations: u32 = 0;
        if let Some(p) = self.pending {
            if p < now {
                self.pending = None;
                pump_iterations = MESSAGE_LOOP_MAX_ITERATIONS;
            }
        }
        IdlePlan { wait_until, pump_iterations }
    }
}

/// Two requests for future work, at `t1` and then at `t2` or the other way
/// round, leave a single pending deadline: the earliest of them and of any
/// deadline pending before. From an empty schedule that is the earlier
/// request. Once the deadline has passed and the loop goes idle, nothing is
/// pending until a new request comes.
pub proof fn lemma_earliest_request_wins(
    pending: Option<u64>,
    t1: u64,
    t2: u64,
    now1: u64,
    now2: u64,
    later: u64,
)
    requires
        t1 < t2,
        now1 < t1,
        now2 < t1,
    ensures
        after_request(after_request(pending, t1, now1), t2, now2) == after_request(
            after_request(pending, t2, now1),
            t1,
            now2,
        ),
        after_request(after_request(None, t1, now1), t2, now2) == Some(t1),
        after_request(after_request(None, t2, now1), t1, now2) == Some(t1),
        pending.is_none() || pending.unwrap() >= t1 ==> after_request(
            after_request(pending, t1, now1),
            t2,
            now2,
        ) == Some(t1),
        ({
            let p = after_request(after_request(pending, t1, now1), t2, now2);
            is_due(p, later) ==> after_idle(p, later).is_none() && forall|t: u64|
                !is_due(#[trigger] after_idle(p, later), t)
        }),
{
}

} // verus!
