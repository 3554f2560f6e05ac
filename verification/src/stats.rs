//! Per-phase pipeline timing: running count, sum, extremes and sum of
//! squares of the recorded durations, in nanoseconds.
//!
//! The counters are 64-bit and wrap around on overflow, as the atomic
//! additions they stand for do; the extremes are exact.

use vstd::prelude::*;
use vstd::arithmetic::div_mod::{lemma_add_mod_noop, lemma_small_mod};

verus! {

/// 2^64, the modulus of the wrapping counters.
pub open spec fn wrap() -> nat {
    0x1_0000_0000_0000_0000
}

/// Sum of the samples.
pub open spec fn sum_of(s: Seq<u64>) -> nat
    decreases s.len(),
{
    if s.len() == 0 {
        0
    } else {
        (sum_of(s.drop_last()) + s.last()) as nat
    }
}

/// The square of a sample in whole microseconds, saturated at `u64::MAX`.
pub open spec fn scaled_square(ns: u64) -> nat {
    let us = ns / 1000;
    if us * us > u64::MAX {
        u64::MAX as nat
    } else {
        (us * us) as nat
    }
}

/// Sum of the scaled squares of the samples.
pub open spec fn sum_sq_of(s: Seq<u64>) -> nat
    decreases s.len(),
{
    if s.len() == 0 {
        0
    } else {
        (sum_sq_of(s.drop_last()) + scaled_square(s.last())) as nat
    }
}

/// Smallest sample; `u64::MAX` when there is none.
pub open spec fn min_of(s: Seq<u64>) -> u64
    decreases s.len(),
{
    if s.len() == 0 {
        u64::MAX
    } else if s.last() < min_of(s.drop_last()) {
        s.last()
    } else {
        min_of(s.drop_last())
    }
}

/// Largest sample; 0 when there is none.
pub open spec fn max_of(s: Seq<u64>) -> u64
    decreases s.len(),
{
    if s.len() == 0 {
        0
    } else if s.last() > max_of(s.drop_last()) {
        s.last()
    } else {
        max_of(s.drop_last())
    }
}

/// Per-stage wall-time accumulator.
pub struct PhaseTimer {
    /// Sum of all recorded durations, in nanoseconds.
    acc_ns: u64,
    /// Number of samples recorded.
    frames: u64,
    /// Smallest recorded sample; `u64::MAX` means "none yet".
    min_ns: u64,
    /// Largest recorded sample.
    max_ns: u64,
    /// Sum of squared samples in whole microseconds, each saturated.
    sum_sq_scaled: u64,
    /// Every sample recorded so far.
    samples: Ghost<Seq<u64>>,
}

impl PhaseTimer {
    /// The samples recorded so far, in order.
    pub closed spec fn samples(&self) -> Seq<u64> {
        self.samples@
    }

    /// The counters agree with the samples.
    pub closed spec fn wf(&self) -> bool {
        &&& self.acc_ns == sum_of(self.samples@) % wrap()
        &&& self.frames == self.samples@.len() % wrap()
        &&& self.sum_sq_scaled == sum_sq_of(self.samples@) % wrap()
        &&& self.min_ns == min_of(self.samples@)
        &&& self.max_ns == max_of(self.samples@)
        &&& forall|i: int| 0 <= i < self.samples@.len() ==> #[trigger] self.samples@[i] > 0
    }

    pub fn new() -> (r: Self)
        ensures
            r.wf(),
            r.samples() == Seq::<u64>::empty(),
    {
        PhaseTimer {
            acc_ns: 0,
            frames: 0,
            min_ns: u64::MAX,
            max_ns: 0,
            sum_sq_scaled: 0,
            samples: Ghost(Seq::empty()),
        }
    }

    /// Records one sample of `ns` nanoseconds; a zero duration is ignored.
    pub fn record(&mut self, ns: u64)
        requires
            old(self).wf(),
        ensures
            final(self).wf(),
            final(self).samples() == if ns == 0 {
                old(self).samples()
            } else {
                old(self).samples().push(ns)
            },
    {
        if ns == 0 {
            return;
        }
        let ghost s = self.samples@;
        let ghost t = s.push(ns);
        proof {
            assert(t.drop_last() =~= s);
            lemma_wrapping_step(sum_of(s), ns as nat);
            lemma_wrapping_step(s.len(), 1);
        }
        self.acc_ns = self.acc_ns.wrapping_add(ns);
        self.frames = self.frames.wrapping_add(1);
        let us = ns / 1000;
        let sq = match us.checked_mul(us) {
            Some(v) => v,
            None => u64::MAX,
        };
        proof {
            lemma_wrapping_step(sum_sq_of(s), sq as nat);
        }
        self.sum_sq_scaled = self.sum_sq_scaled.wrapping_add(sq);
        if ns < self.min_ns {
            self.min_ns = ns;
        }
        if ns > self.max_ns {
            self.max_ns = ns;
        }
        self.samples = Ghost(t);
    }

    /// Number of samples recorded (modulo 2^64).
    pub fn frames(&self) -> (r: u64)
        requires
            self.wf(),
        ensures
            r == self.samples().len() % wrap(),
    {
        self.frames
    }

    /// Sum of the samples in nanoseconds (modulo 2^64).
    pub fn total(&self) -> (r: u64)
        requires
            self.wf(),
        ensures
            r == sum_of(self.samples()) % wrap(),
    {
        self.acc_ns
    }

    /// Mean sample in nanoseconds, rounded down; 0 with no samples.
    pub fn avg(&self) -> (r: u64)
        requires
            self.wf(),
        ensures
            r == if self.samples().len() % wrap() == 0 {
                0
            } else {
                (sum_of(self.samples()) % wrap()) / (self.samples().len() % wrap())
            },
    {
        let f = self.frames;
        if f == 0 {
            return 0;
        }
        self.acc_ns / f
    }

    /// Smallest sample in nanoseconds; 0 with no samples.
    pub fn min(&self) -> (r: u64)
        requires
            self.wf(),
        ensures
            r == if min_of(self.samples()) == u64::MAX {
                0
            } else {
                min_of(self.samples())
            },
    {
        let v = self.min_ns;
        if v == u64::MAX {
            0
        } else {
            v
        }
    }

    /// Largest sample in nanoseconds; 0 with no samples.
    pub fn max(&self) -> (r: u64)
        requires
            self.wf(),
        ensures
            r == max_of(self.samples()),
    {
        self.max_ns
    }

    /// Sum of the squared samples in whole microseconds (modulo 2^64).
    pub fn sum_sq_scaled(&self) -> (r: u64)
        requires
            self.wf(),
        ensures
            r == sum_sq_of(self.samples()) % wrap(),
    {
        self.sum_sq_scaled
    }
}

/// Adding `y` to a counter holding `x` modulo 2^64 gives `x + y` modulo 2^64.
proof fn lemma_wrapping_step(x: nat, y: nat)
    requires
        y < wrap(),
    ensures
        ({
            let a = x % wrap();
            let w = if a + y > u64::MAX {
                (a + y - wrap()) as nat
            } else {
                (a + y) as nat
            };
            w == (x + y) % wrap()
        }),
{
    let m = wrap() as int;
    lemma_add_mod_noop(x as int, y as int, m);
    lemma_small_mod(y, wrap());
    let a = x % wrap();
    if a + y > u64::MAX {
        vstd::arithmetic::div_mod::lemma_mod_sub_multiples_vanish((a + y) as int, m);
        lemma_small_mod((a + y - wrap()) as nat, wrap());
    } else {
        lemma_small_mod((a + y) as nat, wrap());
    }
}

proof fn lemma_sum_bounds(s: Seq<u64>)
    ensures
        s.len() * min_of(s) <= sum_of(s),
        sum_of(s) <= s.len() * max_of(s),
    decreases s.len(),
{
    if s.len() > 0 {
        let t = s.drop_last();
        lemma_sum_bounds(t);
        lemma_min_le_all(t);
        let n = t.len();
        assert(s.len() * min_of(s) <= sum_of(s)) by (nonlinear_arith)
            requires
                n * min_of(t) <= sum_of(t),
                min_of(s) <= min_of(t),
                min_of(s) <= s.last(),
                sum_of(s) == sum_of(t) + s.last(),
                s.len() == n + 1,
        ;
        assert(sum_of(s) <= s.len() * max_of(s)) by (nonlinear_arith)
            requires
                sum_of(t) <= n * max_of(t),
                max_of(t) <= max_of(s),
                s.last() <= max_of(s),
                sum_of(s) == sum_of(t) + s.last(),
                s.len() == n + 1,
        ;
    }
}

proof fn lemma_min_le_all(s: Seq<u64>)
    ensures
        min_of(s) <= max_of(s) || s.len() == 0,
{
}

/// Samples of at least one nanosecond each add up to no less than their
/// number.
proof fn lemma_count_le_sum(s: Seq<u64>)
    requires
        forall|i: int| 0 <= i < s.len() ==> #[trigger] s[i] > 0,
    ensures
        s.len() <= sum_of(s),
    decreases s.len(),
{
    if s.len() > 0 {
        let t = s.drop_last();
        assert forall|i: int| 0 <= i < t.len() implies #[trigger] t[i] > 0 by {
            assert(t[i] == s[i]);
        }
        lemma_count_le_sum(t);
    }
}

/// The smallest sample is one of the samples and no larger than any.
proof fn lemma_min_of_least(s: Seq<u64>)
    requires
        s.len() > 0,
    ensures
        s.contains(min_of(s)),
        forall|i: int| 0 <= i < s.len() ==> min_of(s) <= #[trigger] s[i],
    decreases s.len(),
{
    let t = s.drop_last();
    if t.len() > 0 {
        lemma_min_of_least(t);
        assert forall|i: int| 0 <= i < s.len() implies min_of(s) <= #[trigger] s[i] by {
            if i < t.len() {
                assert(t[i] == s[i]);
            }
        }
        if min_of(s) == min_of(t) {
            let k = choose|k: int| 0 <= k < t.len() && t[k] == min_of(t);
            assert(s[k] == min_of(s));
        } else {
            assert(s[s.len() - 1] == min_of(s));
        }
    } else {
        assert(min_of(t) == u64::MAX);
        assert(s[0] == s.last());
        assert(s[0] == min_of(s));
    }
}

/// Once something is recorded, the smallest sample (what `min` returns,
/// unless it is `u64::MAX`) is one of the recorded samples and no larger
/// than any of them.
pub proof fn lemma_min_is_least_sample(t: &PhaseTimer)
    requires
        t.wf(),
        0 < t.samples().len(),
    ensures
        t.samples().contains(min_of(t.samples())),
        forall|i: int| 0 <= i < t.samples().len() ==> min_of(t.samples()) <= #[trigger] t.samples()[i],
{
    lemma_min_of_least(t.samples());
}

/// While the sum has not wrapped, the mean lies between the smallest and
/// the largest sample: what `avg` returns lies between `min_of` and
/// `max_of` of the samples, which `min` and `max` return.
pub proof fn lemma_avg_between_extremes(t: &PhaseTimer)
    requires
        t.wf(),
        0 < t.samples().len(),
        sum_of(t.samples()) < wrap(),
    ensures
        min_of(t.samples()) <= sum_of(t.samples()) / t.samples().len() <= max_of(t.samples()),
        min_of(t.samples()) <= (sum_of(t.samples()) % wrap()) / (t.samples().len() % wrap())
            <= max_of(t.samples()),
{
    let s = t.samples();
    lemma_count_le_sum(s);
    vstd::arithmetic::div_mod::lemma_small_mod(sum_of(s), wrap());
    vstd::arithmetic::div_mod::lemma_small_mod(s.len(), wrap());
    lemma_sum_bounds(s);
    let n = s.len();
    let q = sum_of(s) / n;
    vstd::arithmetic::div_mod::lemma_fundamental_div_mod(sum_of(s) as int, n as int);
    let r = sum_of(s) % n;
    assert(min_of(s) <= q && q <= max_of(s)) by (nonlinear_arith)
        requires
            n * min_of(s) <= sum_of(s),
            sum_of(s) <= n * max_of(s),
            sum_of(s) == n * q + r,
            0 <= r < n,
            n > 0,
    ;
}

/// All phase timers of one pipeline run, the frame counters, and the
/// encode-push duration of every frame.
pub struct PipelineStats {
    pub decode: PhaseTimer,
    pub lens_correction: PhaseTimer,
    pub demosaic: PhaseTimer,
    pub normalize: PhaseTimer,
    pub wb_hl_ccm: PhaseTimer,
    pub oetf: PhaseTimer,
    pub pack: PhaseTimer,
    pub gpu: PhaseTimer,
    pub encode_push: PhaseTimer,
    pub setup: PhaseTimer,
    pub finalize: PhaseTimer,
    pub frames_total: u64,
    pub gpu_frames: u64,
    /// `(frame id, nanoseconds)` of each encode push, in order.
    pub encode_push_per_frame: Vec<(u32, u64)>,
}

impl PipelineStats {
    pub open spec fn wf(&self) -> bool {
        &&& self.decode.wf()
        &&& self.lens_correction.wf()
        &&& self.demosaic.wf()
        &&& self.normalize.wf()
        &&& self.wb_hl_ccm.wf()
        &&& self.oetf.wf()
        &&& self.pack.wf()
        &&& self.gpu.wf()
        &&& self.encode_push.wf()
        &&& self.setup.wf()
        &&& self.finalize.wf()
    }

    pub fn new() -> (r: Self)
        ensures
            r.wf(),
            r.encode_push.samples() == Seq::<u64>::empty(),
            r.encode_push_per_frame@ == Seq::<(u32, u64)>::empty(),
            r.frames_total == 0,
            r.gpu_frames == 0,
    {
        PipelineStats {
            decode: PhaseTimer::new(),
            lens_correction: PhaseTimer::new(),
            demosaic: PhaseTimer::new(),
            normalize: PhaseTimer::new(),
            wb_hl_ccm: PhaseTimer::new(),
            oetf: PhaseTimer::new(),
            pack: PhaseTimer::new(),
            gpu: PhaseTimer::new(),
            encode_push: PhaseTimer::new(),
            setup: PhaseTimer::new(),
            finalize: PhaseTimer::new(),
            frames_total: 0,
            gpu_frames: 0,
            encode_push_per_frame: Vec::new(),
        }
    }

    /// Records an encode-push duration for frame `frame_id`: into the
    /// encode-push timer and the per-frame list.
    pub fn record_encode_push_frame(&mut self, frame_id: u32, ns: u64)
        requires
            old(self).wf(),
        ensures
            final(self).wf(),
            final(self).encode_push.samples() == if ns == 0 {
                old(self).encode_push.samples()
            } else {
                old(self).encode_push.samples().push(ns)
            },
            final(self).encode_push_per_frame@ == old(self).encode_push_per_frame@.push(
                (frame_id, ns),
            ),
            *final(self) == (PipelineStats {
                encode_push: final(self).encode_push,
                encode_push_per_frame: final(self).encode_push_per_frame,
                ..*old(self)
            }),
    {
        self.encode_push.record(ns);
        self.encode_push_per_frame.push((frame_id, ns));
    }
}

} // verus!
