//! Sliding-window throttle for automatic reconnection.
//!
//! Every unexpected end of a session that leads to a reconnection leaves a
//! timestamp in the window, in whole seconds of a clock that does not run
//! backwards. Timestamps older than the horizon no longer
//! count; once the window holds the maximum number of recent timestamps,
//! reconnection is refused until one of them grows old.

use vstd::prelude::*;

verus! {

/// Seconds after which a recorded reconnection no longer counts.
pub const RECONNECT_HORIZON_SECS: u64 = 600;

/// Reconnections permitted within one horizon.
pub const MAX_RECONNECTS: usize = 5;

/// Whether a reconnection recorded at `t` no longer counts at `now`: more
/// than the horizon lies between them. A timestamp that is not in the past
/// is never stale.
pub open spec fn is_stale(t: u64, now: u64) -> bool {
    now - t > RECONNECT_HORIZON_SECS
}

/// The predicate that keeps the timestamps that still count at `now`.
pub open spec fn counts_at(now: u64) -> spec_fn(u64) -> bool {
    |t: u64| !is_stale(t, now)
}

/// The timestamps of `times` that still count at `now`, in their order.
pub open spec fn recent(times: Seq<u64>, now: u64) -> Seq<u64> {
    times.filter(counts_at(now))
}

/// Whether a window holding `times` permits a reconnection at `now`.
pub open spec fn permits(times: Seq<u64>, now: u64) -> bool {
    recent(times, now).len() < MAX_RECONNECTS
}

/// The window after a termination at `now`: with the stale entries dropped
/// and `now` appended where the reconnection is permitted, unchanged where
/// it is refused.
pub open spec fn after_attempt(times: Seq<u64>, now: u64) -> Seq<u64> {
    if permits(times, now) {
        recent(times, now).push(now)
    } else {
        times
    }
}

/// The window after the terminations at `nows`, taken in order.
pub open spec fn after_attempts(times: Seq<u64>, nows: Seq<u64>) -> Seq<u64>
    decreases nows.len(),
{
    if nows.len() == 0 {
        times
    } else {
        after_attempt(after_attempts(times, nows.drop_last()), nows.last())
    }
}

/// Taking the entries that count distributes over appending one entry.
pub proof fn lemma_recent_push(times: Seq<u64>, t: u64, now: u64)
    ensures
        recent(times.push(t), now) == if is_stale(t, now) {
            recent(times, now)
        } else {
            recent(times, now).push(t)
        },
        recent(Seq::<u64>::empty(), now) == Seq::<u64>::empty(),
        recent(times, now).len() <= times.len(),
{
    reveal(Seq::filter);
    assert(times.push(t).drop_last() == times);
    assert(counts_at(now)(t) == !is_stale(t, now));
    times.lemma_filter_len(counts_at(now));
}

/// Where no entry is stale at `now`, all of them count.
pub proof fn lemma_recent_keeps_all(times: Seq<u64>, now: u64)
    requires
        forall|i: int| 0 <= i < times.len() ==> !is_stale(#[trigger] times[i], now),
    ensures
        recent(times, now) == times,
    decreases times.len(),
{
    if times.len() == 0 {
        lemma_recent_push(times, 0, now);
        assert(times == Seq::<u64>::empty());
    } else {
        let front = times.drop_last();
        lemma_recent_keeps_all(front, now);
        lemma_recent_push(front, times.last(), now);
        assert(front.push(times.last()) == times);
    }
}

/// Where every entry is stale at `now`, none counts.
pub proof fn lemma_recent_drops_all(times: Seq<u64>, now: u64)
    requires
        forall|i: int| 0 <= i < times.len() ==> is_stale(#[trigger] times[i], now),
    ensures
        recent(times, now) == Seq::<u64>::empty(),
    decreases times.len(),
{
    if times.len() == 0 {
        lemma_recent_push(times, 0, now);
        assert(times == Seq::<u64>::empty());
    } else {
        let front = times.drop_last();
        lemma_recent_drops_all(front, now);
        lemma_recent_push(front, times.last(), now);
        assert(front.push(times.last()) == times);
    }
}

/// Whether the timestamps never run backwards.
pub open spec fn ascending(nows: Seq<u64>) -> bool {
    forall|i: int, j: int| 0 <= i <= j < nows.len() ==> nows[i] <= nows[j]
}

/// The window after the first `k` of a run of terminations that all lie
/// within one horizon: the first of them up to the maximum, and nothing
/// else.
proof fn lemma_window_within_horizon(start: Seq<u64>, nows: Seq<u64>, k: int)
    requires
        1 <= k <= nows.len(),
        ascending(nows),
        nows.last() - nows[0] <= RECONNECT_HORIZON_SECS,
        forall|i: int| 0 <= i < start.len() ==> is_stale(#[trigger] start[i], nows[0]),
    ensures
        after_attempts(start, nows.take(k)) == nows.take(
            if k <= MAX_RECONNECTS {
                k
            } else {
                MAX_RECONNECTS as int
            },
        ),
    decreases k,
{
    let now = nows[k - 1];
    let before = after_attempts(start, nows.take(k - 1));
    assert(nows.take(k).drop_last() == nows.take(k - 1));
    assert(nows.take(k).last() == now);
    assert(after_attempts(start, nows.take(k)) == after_attempt(before, now));
    if k == 1 {
        assert(nows.take(0).len() == 0);
        assert(before == start);
        lemma_recent_drops_all(start, now);
        assert(Seq::<u64>::empty().push(now) == nows.take(1));
    } else {
        lemma_window_within_horizon(start, nows, k - 1);
        lemma_recent_keeps_all(before, now);
        if k - 1 < MAX_RECONNECTS {
            assert(nows.take(k - 1).push(now) == nows.take(k));
        }
    }
}

/// Of a run of unexpected terminations that all lie within one horizon,
/// with nothing recorded earlier that still counts, the first five are each
/// permitted a reconnection and every later one is refused.
pub proof fn law_five_per_horizon(start: Seq<u64>, nows: Seq<u64>, k: int)
    requires
        0 <= k < nows.len(),
        ascending(nows),
        nows.last() - nows[0] <= RECONNECT_HORIZON_SECS,
        forall|i: int| 0 <= i < start.len() ==> is_stale(#[trigger] start[i], nows[0]),
    ensures
        permits(after_attempts(start, nows.take(k)), nows[k]) <==> k < MAX_RECONNECTS,
{
    let before = after_attempts(start, nows.take(k));
    if k == 0 {
        assert(nows.take(0).len() == 0);
        assert(before == start);
        lemma_recent_drops_all(start, nows[0]);
    } else {
        lemma_window_within_horizon(start, nows, k);
        lemma_recent_keeps_all(before, nows[k]);
    }
}

/// A window never grows beyond the maximum, whatever terminations follow.
pub proof fn law_window_bounded(times: Seq<u64>, now: u64)
    requires
        times.len() <= MAX_RECONNECTS,
    ensures
        after_attempt(times, now).len() <= MAX_RECONNECTS,
        permits(times, now) ==> after_attempt(times, now).last() == now,
        !permits(times, now) ==> after_attempt(times, now) == times,
{
}

/// The history of recent reconnections.
pub struct ReconnectWindow {
    times: Vec<u64>,
}

impl View for ReconnectWindow {
    type V = Seq<u64>;

    closed spec fn view(&self) -> Seq<u64> {
        self.times@
    }
}

impl ReconnectWindow {
    /// The window never holds more than the maximum number of entries.
    pub open spec fn wf(&self) -> bool {
        self@.len() <= MAX_RECONNECTS
    }

    /// An empty window.
    pub fn new() -> (w: Self)
        ensures
            w.wf(),
            w@ == Seq::<u64>::empty(),
    {
        ReconnectWindow { times: Vec::new() }
    }

    /// Forgets every recorded reconnection.
    pub fn clear(&mut self)
        ensures
            final(self).wf(),
            final(self)@ == Seq::<u64>::empty(),
    {
        self.times = Vec::new();
    }

    /// Number of recorded entries, stale ones included.
    pub fn len(&self) -> (n: usize)
        ensures
            n == self@.len(),
    {
        self.times.len()
    }

    /// The recorded timestamps, oldest first.
    pub fn times(&self) -> (out: Vec<u64>)
        ensures
            out@ == self@,
    {
        self.times.clone()
    }

    /// The entries that still count at `now`.
    fn recent_entries(&self, now: u64) -> (out: Vec<u64>)
        ensures
            out@ == recent(self@, now),
            out@.len() <= self@.len(),
    {
        let mut out: Vec<u64> = Vec::new();
        let n: usize = self.times.len();
        let mut i: usize = 0;
        proof {
            assert(self.times@.take(0) == Seq::<u64>::empty());
            lemma_recent_push(self.times@, 0, now);
        }
        while i < n
            invariant
                n == self.times@.len(),
                i <= n,
                out@ == recent(self.times@.take(i as int), now),
                out@.len() <= i,
            decreases n - i,
        {
            let t: u64 = self.times[i];
            proof {
                assert(self.times@.take(i + 1) == self.times@.take(i as int).push(t));
                lemma_recent_push(self.times@.take(i as int), t, now);
            }
            if !(now > t && now - t > RECONNECT_HORIZON_SECS) {
                out.push(t);
            }
            i = i + 1;
        }
        proof {
            assert(self.times@.take(n as int) == self.times@);
        }
        out
    }

    /// Whether a reconnection is permitted at `now`: fewer than the maximum
    /// number of recorded reconnections lie within the horizon.
    pub fn should_retry(&self, now: u64) -> (ok: bool)
        ensures
            ok == permits(self@, now),
    {
        let kept = self.recent_entries(now);
        kept.len() < MAX_RECONNECTS
    }

    /// Records a termination at `now`. Where the reconnection is permitted
    /// the stale entries leave and `now` is appended; where it is refused
    /// the window stays as it was. Returns whether it was permitted.
    pub fn record_attempt(&mut self, now: u64) -> (ok: bool)
        requires
            old(self).wf(),
        ensures
            final(self).wf(),
            ok == permits(old(self)@, now),
            final(self)@ == after_attempt(old(self)@, now),
    {
        let mut kept = self.recent_entries(now);
        if kept.len() < MAX_RECONNECTS {
            kept.push(now);
            self.times = kept;
            true
        } else {
            false
        }
    }
}

} // verus!
