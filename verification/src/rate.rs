//! Sliding-window frame-rate estimator.
//!
//! The estimator keeps a FIFO record of frame-arrival instants (microseconds)
//! bounded by a fixed time window. Each new arrival evicts the instants that
//! have aged out of the trailing window; the instantaneous rate is the count
//! of retained instants divided by the window length.

use vstd::prelude::*;

verus! {

/// Instants strictly older than `cutoff` lie outside the window; this trims
/// them off the front of a time-ordered record.
pub open spec fn trim_older(s: Seq<u64>, cutoff: int) -> Seq<u64>
    decreases s.len(),
{
    if s.len() == 0 {
        s
    } else if s[0] < cutoff {
        trim_older(s.drop_first(), cutoff)
    } else {
        s
    }
}

/// The record after an arrival at `now`: `now` is appended, then every
/// instant older than `now - window` is evicted from the front.
pub open spec fn record_spec(s: Seq<u64>, now: u64, window: u64) -> Seq<u64> {
    trim_older(s.push(now), now - window)
}

/// Rate in millihertz: `count` arrivals per `window_micros` microseconds.
pub open spec fn rate_millihertz(count: nat, window_micros: u64) -> int {
    (count as int) * 1_000_000_000 / (window_micros as int)
}

/// A time-ordered record of frame-arrival instants bounded by a fixed
/// duration (not a fixed count).
pub struct FrameRateWindow {
    window_micros: u64,
    times: Vec<u64>,
}

impl FrameRateWindow {
    /// The retained arrival instants, oldest first.
    pub closed spec fn times(&self) -> Seq<u64> {
        self.times@
    }

    /// The window length in microseconds.
    pub closed spec fn window(&self) -> u64 {
        self.window_micros
    }

    /// The record is time-ordered and the window is a positive duration.
    pub closed spec fn wf(&self) -> bool {
        &&& self.window_micros >= 1
        &&& forall|i: int, j: int|
            0 <= i <= j < self.times@.len() ==> self.times@[i] <= self.times@[j]
    }

    pub fn new(window_micros: u64) -> (w: Self)
        requires
            window_micros >= 1,
        ensures
            w.wf(),
            w.window() == window_micros,
            w.times() =~= Seq::<u64>::empty(),
    {
        FrameRateWindow { window_micros, times: Vec::new() }
    }

    /// Forget all recorded arrivals (used when streaming starts or stops).
    pub fn reset(&mut self)
        requires
            old(self).wf(),
        ensures
            final(self).wf(),
            final(self).window() == old(self).window(),
            final(self).times() =~= Seq::<u64>::empty(),
    {
        self.times.clear();
    }

    /// Append an arrival at `now`, then evict every instant older than
    /// `now - window` (eviction is a prefix trim because arrivals are
    /// time-ordered).
    pub fn record_arrival(&mut self, now: u64)
        requires
            old(self).wf(),
            forall|i: int| 0 <= i < old(self).times().len() ==> old(self).times()[i] <= now,
        ensures
            final(self).wf(),
            final(self).window() == old(self).window(),
            final(self).times() == record_spec(old(self).times(), now, old(self).window()),
    {
        let ghost pushed = self.times@.push(now);
        let ghost cutoff = now - self.window_micros;
        self.times.push(now);
        proof {
            assert forall|i: int, j: int|
                0 <= i <= j < self.times@.len() implies self.times@[i] <= self.times@[j] by {
                if j < self.times@.len() - 1 {
                    assert(old(self).times()[i] <= old(self).times()[j]);
                } else if i < j {
                    assert(old(self).times()[i] <= now);
                }
            }
        }
        if now >= self.window_micros {
            let c = now - self.window_micros;
            while self.times.len() > 0 && self.times[0] < c
                invariant
                    c == cutoff,
                    forall|i: int, j: int|
                        0 <= i <= j < self.times@.len() ==> self.times@[i] <= self.times@[j],
                    trim_older(self.times@, cutoff) == trim_older(pushed, cutoff),
                    self.window_micros == old(self).window_micros,
                decreases self.times@.len(),
            {
                proof {
                    assert(self.times@.remove(0) =~= self.times@.drop_first());
                }
                self.times.remove(0);
            }
            proof {
                assert(trim_older(self.times@, cutoff) =~= self.times@);
            }
        } else {
            proof {
                assert(trim_older(self.times@, cutoff) =~= self.times@);
            }
        }
    }

    /// How many recorded arrivals lie within the window ending at `now`,
    /// that is, are not older than `now - window`.
    pub fn frames_in_window(&self, now: u64) -> (n: usize)
        requires
            self.wf(),
            forall|i: int| 0 <= i < self.times().len() ==> self.times()[i] <= now,
        ensures
            n == trim_older(self.times(), now - self.window()).len(),
    {
        let ghost cutoff = now - self.window_micros;
        if now < self.window_micros {
            proof {
                lemma_trim_older_subrange(self.times@, cutoff, 0);
                assert(self.times@.subrange(0, self.times@.len() as int) =~= self.times@);
            }
            return self.times.len();
        }
        let c = now - self.window_micros;
        let mut i: usize = 0;
        while i < self.times.len() && self.times[i] < c
            invariant
                c == cutoff,
                0 <= i <= self.times@.len(),
                forall|j: int| 0 <= j < i ==> self.times@[j] < cutoff,
            decreases self.times@.len() - i,
        {
            i = i + 1;
        }
        proof {
            lemma_trim_older_subrange(self.times@, cutoff, i as int);
        }
        self.times.len() - i
    }

    /// The instantaneous rate over the window ending at `now`, in
    /// millihertz: the in-window arrival count divided by the window length
    /// in seconds, scaled by 1000.
    pub fn current_rate_millihertz(&self, now: u64) -> (r: u128)
        requires
            self.wf(),
            forall|i: int| 0 <= i < self.times().len() ==> self.times()[i] <= now,
        ensures
            r == rate_millihertz(
                trim_older(self.times(), now - self.window()).len(),
                self.window(),
            ),
    {
        let n = self.frames_in_window(now);
        proof {
            assert((n as int) * 1_000_000_000 < 0x1_0000_0000_0000_0000int * 1_000_000_000)
                by (nonlinear_arith)
                requires
                    0 <= n < 0x1_0000_0000_0000_0000int,
            ;
        }
        (n as u128) * 1_000_000_000u128 / (self.window_micros as u128)
    }
}

/// The record left by `n` arrivals at `t0, t0 + delta, ..., t0 + (n-1)*delta`,
/// recorded in order into an estimator that starts empty.
pub open spec fn after_uniform_arrivals(t0: u64, delta: u64, n: nat, window: u64) -> Seq<u64>
    decreases n,
{
    if n == 0 {
        Seq::<u64>::empty()
    } else {
        record_spec(
            after_uniform_arrivals(t0, delta, (n - 1) as nat, window),
            (t0 + (n - 1) * delta) as u64,
            window,
        )
    }
}

/// Law: after `n` frame arrivals spaced uniformly at interval `delta` that
/// all fit within one window (`n * delta <= window`), the window retains all
/// `n` of them, so the rate is `n / window` — which is
/// `min(n, window / delta) / window`, since here `n <= window / delta`.
pub proof fn lemma_uniform_arrival_rate(t0: u64, delta: u64, n: nat, window: u64)
    requires
        1 <= delta,
        1 <= window,
        n * delta <= window,
        t0 + n * delta <= u64::MAX,
    ensures
        after_uniform_arrivals(t0, delta, n, window) =~= Seq::new(
            n,
            |i: int| (t0 + i * delta) as u64,
        ),
        after_uniform_arrivals(t0, delta, n, window).len() == n,
        n <= window as int / delta as int,
    decreases n,
{
    vstd::arithmetic::div_mod::lemma_div_is_ordered(n * delta, window as int, delta as int);
    vstd::arithmetic::div_mod::lemma_div_multiples_vanish(n as int, delta as int);
    assert(delta as int * n as int == n * delta) by (nonlinear_arith);
    if n > 0 {
        let m = (n - 1) as nat;
        vstd::arithmetic::mul::lemma_mul_inequality(m as int, n as int, delta as int);
        lemma_uniform_arrival_rate(t0, delta, m, window);
        let s = after_uniform_arrivals(t0, delta, m, window);
        let now = (t0 + m * delta) as u64;
        let p = s.push(now);
        assert(p[0] >= now - window);
        assert(trim_older(p, now - window) == p);
        assert forall|i: int| 0 <= i < n implies p[i] == (t0 + i * delta) as u64 by {
            vstd::arithmetic::mul::lemma_mul_inequality(i, n as int, delta as int);
            if i < m {
                assert(s[i] == (t0 + i * delta) as u64);
            }
        }
    }
}

/// Law: if no frame has arrived for strictly longer than a full window after
/// the last arrival, the rate over the window ending at `now` is zero. (An
/// arrival lying exactly one window back is still retained, so a gap of
/// exactly the window length leaves that one arrival counted.)
pub proof fn lemma_rate_zero_after_gap(w: &FrameRateWindow, now: u64)
    requires
        w.wf(),
        w.times().len() > 0 ==> w.times().last() + w.window() < now,
    ensures
        trim_older(w.times(), now - w.window()).len() == 0,
        rate_millihertz(trim_older(w.times(), now - w.window()).len() as nat, w.window()) == 0,
{
    let s = w.times();
    assert forall|j: int| 0 <= j < s.len() implies s[j] < now - w.window() by {
        assert(s[j] <= s.last());
    }
    lemma_trim_older_subrange(s, now - w.window(), s.len() as int);
    assert(s.subrange(s.len() as int, s.len() as int) =~= Seq::<u64>::empty());
}

/// If the first `i` entries of a time-ordered record are older than the
/// cutoff and the rest are not, trimming keeps exactly the rest.
proof fn lemma_trim_older_subrange(s: Seq<u64>, cutoff: int, i: int)
    requires
        0 <= i <= s.len(),
        forall|j: int| 0 <= j < i ==> s[j] < cutoff,
        i < s.len() ==> s[i] >= cutoff,
    ensures
        trim_older(s, cutoff) =~= s.subrange(i, s.len() as int),
    decreases i,
{
    if i == 0 {
        assert(s.subrange(0, s.len() as int) =~= s);
    } else {
        lemma_trim_older_subrange(s.drop_first(), cutoff, i - 1);
        assert(s.drop_first().subrange(i - 1, s.drop_first().len() as int) =~= s.subrange(
            i,
            s.len() as int,
        ));
    }
}

} // verus!
