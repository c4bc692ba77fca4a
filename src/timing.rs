use vstd::prelude::*;

verus! {

/// The time from `earlier` to `later` on a monotonic clock, in milliseconds;
/// zero where `later` is not after `earlier`.
pub open spec fn elapsed(earlier: u64, later: u64) -> nat {
    if later >= earlier {
        (later - earlier) as nat
    } else {
        0
    }
}

/// Whether at least `duration` milliseconds lie between the two instants.
pub fn has_elapsed_between(old_timestamp: u64, current_timestamp: u64, duration: u64) -> (r: bool)
    ensures
        r == (elapsed(old_timestamp, current_timestamp) >= duration),
{
    let elapsed_ms: u64 = current_timestamp.saturating_sub(old_timestamp);
    elapsed_ms >= duration
}

/// The minimum-interval filter on anemometer readings: a reading passes when
/// none has passed yet, or when at least `window` milliseconds have gone by
/// since the last one that passed.
pub struct RateFilter {
    pub window: u64,
    /// When the last reading that passed arrived; `None` before the first.
    pub last: Option<u64>,
}

impl RateFilter {
    /// Whether a reading that arrives at `now` gets through the filter.
    pub open spec fn admits(self, now: u64) -> bool {
        match self.last {
            None => true,
            Some(last) => elapsed(last, now) >= self.window,
        }
    }

    /// A filter that no reading has passed yet.
    pub fn new(window: u64) -> (r: RateFilter)
        ensures
            r.window == window,
            r.last is None,
    {
        RateFilter { window, last: None }
    }

    /// Decides on a reading that arrives at `now`; a reading that passes
    /// becomes the last one.
    pub fn accept(&mut self, now: u64) -> (r: bool)
        ensures
            r == old(self).admits(now),
            final(self).window == old(self).window,
            final(self).last == (if r { Some(now) } else { old(self).last }),
    {
        let passes = match self.last {
            None => true,
            Some(last) => has_elapsed_between(last, now, self.window),
        };
        if passes {
            self.last = Some(now);
        }
        passes
    }
}

/// The first reading always passes. Of two readings, the second `delta`
/// milliseconds after the first, the second passes exactly when `delta` is
/// at least the window; with a zero window every reading passes.
pub proof fn lemma_rate_filter_window(window: u64, t0: u64, delta: u64)
    requires
        t0 + delta <= u64::MAX,
    ensures
        (RateFilter { window: window, last: None }).admits(t0),
        (RateFilter { window: window, last: Some(t0) }).admits((t0 + delta) as u64) <==> delta
            >= window,
        forall|g: RateFilter, now: u64| g.window == 0 ==> #[trigger] g.admits(now),
{
}

} // verus!
