//! Frame timing measurement and performance degradation detection.
//!
//! [`FrameTimings`] keeps the last [`HISTORY_LEN`] frame durations in a
//! circular buffer (two seconds at 60fps) and derives the P99, average,
//! minimum and maximum over them. Once the buffer is full, every new frame
//! re-checks the P99 against the warning (20ms) and critical (33ms)
//! thresholds and counts how many consecutive frames stayed above each; a
//! streak reaching [`THRESHOLD_STREAK_LIMIT`] raises an alert for the caller
//! to report.
//!
//! Durations are carried as [`FrameTime`], a seconds-plus-nanoseconds value
//! with the same range and resolution as `std::time::Duration`.
use vstd::prelude::*;
use vstd::relations::{sorted_by, total_ordering};
use vstd::seq_lib::{group_to_multiset_ensures, lemma_sorted_unique};
use vstd::multiset::group_multiset_axioms;

verus! {

/// Nanoseconds in one second.
pub const NANOS_PER_SEC: u64 = 1_000_000_000;

/// The longest representable frame time, in nanoseconds
/// (`u64::MAX` seconds plus 999,999,999 nanoseconds).
pub const MAX_FRAME_NANOS: u128 = 18_446_744_073_709_551_615_999_999_999u128;

/// Number of frames kept in the history (2 seconds at 60fps).
pub const HISTORY_LEN: usize = 120;

/// P99 above this many nanoseconds (20ms) counts towards the warning streak.
pub const WARN_THRESHOLD_NANOS: u128 = 20_000_000;

/// P99 above this many nanoseconds (33ms) counts towards the critical streak.
pub const CRITICAL_THRESHOLD_NANOS: u128 = 33_000_000;

/// Number of consecutive above-threshold checks before an alert fires
/// (300 frames at 60fps = 5 seconds).
pub const THRESHOLD_STREAK_LIMIT: u32 = 300;

/// A frame duration: whole seconds plus a sub-second nanosecond part.
#[derive(Clone, Copy, Debug, PartialEq, Eq, Structural)]
pub struct FrameTime {
    secs: u64,
    subsec_nanos: u32,
}

impl View for FrameTime {
    type V = nat;

    /// The duration in nanoseconds.
    closed spec fn view(&self) -> nat {
        (self.secs * NANOS_PER_SEC + self.subsec_nanos) as nat
    }
}

impl FrameTime {
    /// The sub-second part stays below one second.
    #[verifier::type_invariant]
    closed spec fn subsec_in_range(self) -> bool {
        self.subsec_nanos < NANOS_PER_SEC
    }

    /// The zero duration.
    pub fn zero() -> (r: FrameTime)
        ensures
            r@ == 0,
    {
        FrameTime { secs: 0, subsec_nanos: 0 }
    }

    /// A duration of `nanos` nanoseconds.
    pub fn from_nanos(nanos: u64) -> (r: FrameTime)
        ensures
            r@ == nanos,
    {
        let secs = nanos / NANOS_PER_SEC;
        let rest = nanos % NANOS_PER_SEC;
        FrameTime { secs, subsec_nanos: rest as u32 }
    }

    /// A duration of `millis` milliseconds.
    pub fn from_millis(millis: u64) -> (r: FrameTime)
        ensures
            r@ == millis * 1_000_000,
    {
        let secs = millis / 1000;
        let rest = millis % 1000;
        assert(secs * 1_000_000_000 + rest * 1_000_000 == millis * 1_000_000) by (nonlinear_arith)
            requires
                secs == millis / 1000,
                rest == millis % 1000,
        ;
        FrameTime { secs, subsec_nanos: (rest * 1_000_000) as u32 }
    }

    /// A duration of `secs` seconds plus `nanos` nanoseconds, with nanoseconds
    /// beyond one second carried into the seconds.
    pub fn new(secs: u64, nanos: u32) -> (r: FrameTime)
        requires
            secs * NANOS_PER_SEC + nanos <= MAX_FRAME_NANOS,
        ensures
            r@ == secs * NANOS_PER_SEC + nanos,
    {
        let carry = (nanos / 1_000_000_000u32) as u64;
        let rest = nanos % 1_000_000_000u32;
        FrameTime { secs: secs + carry, subsec_nanos: rest }
    }

    /// A duration of `total` nanoseconds.
    pub fn from_total_nanos(total: u128) -> (r: FrameTime)
        requires
            total <= MAX_FRAME_NANOS,
        ensures
            r@ == total,
    {
        let secs = total / 1_000_000_000u128;
        let rest = total % 1_000_000_000u128;
        FrameTime { secs: secs as u64, subsec_nanos: rest as u32 }
    }

    /// The whole seconds of the duration.
    pub fn as_secs(&self) -> (r: u64)
        ensures
            r == self@ / (NANOS_PER_SEC as nat),
    {
        proof {
            use_type_invariant(self);
        }
        self.secs
    }

    /// The nanoseconds beyond the whole seconds.
    pub fn subsec_nanos(&self) -> (r: u32)
        ensures
            r == self@ % (NANOS_PER_SEC as nat),
    {
        proof {
            use_type_invariant(self);
        }
        self.subsec_nanos
    }

    /// The whole duration in nanoseconds.
    pub fn as_nanos(&self) -> (r: u128)
        ensures
            r == self@,
            r <= MAX_FRAME_NANOS,
    {
        proof {
            use_type_invariant(self);
        }
        self.secs as u128 * 1_000_000_000u128 + self.subsec_nanos as u128
    }
}


/// The order frame times are ranked in.
pub open spec fn nanos_leq() -> spec_fn(u128, u128) -> bool {
    |a: u128, b: u128| a <= b
}

/// The last `HISTORY_LEN` entries of `frames` (all of them when fewer).
pub open spec fn window_of(frames: Seq<u128>) -> Seq<u128> {
    if frames.len() <= HISTORY_LEN {
        frames
    } else {
        frames.subrange(frames.len() - HISTORY_LEN, frames.len() as int)
    }
}

/// Sum of a sequence of frame times.
pub open spec fn seq_sum(s: Seq<u128>) -> nat
    decreases s.len(),
{
    if s.len() == 0 {
        0
    } else {
        seq_sum(s.drop_last()) + s.last() as nat
    }
}

/// Zero-based rank of the 99th percentile among `count` samples:
/// `ceil(0.99 * count) - 1`, or 0 when there are no samples.
pub open spec fn p99_rank(count: nat) -> int {
    if count == 0 {
        0
    } else {
        (99 * count + 99) / 100 - 1
    }
}

/// The 99th-percentile value of `s`: the element at [`p99_rank`] once `s`
/// is sorted ascending; zero for an empty sequence.
pub open spec fn p99_of(s: Seq<u128>) -> u128 {
    if s.len() == 0 {
        0
    } else {
        s.sort_by(nanos_leq())[p99_rank(s.len())]
    }
}

/// `m` is the least element of the non-empty `s`.
pub open spec fn is_min_of(s: Seq<u128>, m: nat) -> bool {
    &&& s.contains(m as u128)
    &&& forall|i: int| 0 <= i < s.len() ==> m <= #[trigger] s[i]
}

/// `m` is the greatest element of the non-empty `s`.
pub open spec fn is_max_of(s: Seq<u128>, m: nat) -> bool {
    &&& s.contains(m as u128)
    &&& forall|i: int| 0 <= i < s.len() ==> #[trigger] s[i] <= m
}

/// The streak after one threshold check of `p99` (nanoseconds) against
/// `threshold`: one longer while above it, back to zero otherwise.
pub open spec fn streak_after(run: nat, p99: int, threshold: u128) -> nat {
    if p99 > threshold {
        run + 1
    } else {
        0
    }
}

/// A check raises an alert when it extends the streak to exactly
/// [`THRESHOLD_STREAK_LIMIT`].
pub open spec fn streak_alert(run: nat, p99: int, threshold: u128) -> bool {
    p99 > threshold && streak_after(run, p99, threshold) == THRESHOLD_STREAK_LIMIT
}

/// Alerts raised by one threshold check: a streak that has just reached
/// [`THRESHOLD_STREAK_LIMIT`].
#[derive(Clone, Copy, Debug, PartialEq, Eq, Structural)]
pub struct ThresholdAlerts {
    /// The warning streak reached the limit on this check.
    pub warn_fired: bool,
    /// The critical streak reached the limit on this check.
    pub critical_fired: bool,
}

proof fn lemma_nanos_leq_total()
    ensures
        total_ordering(nanos_leq()),
{
}

proof fn lemma_seq_sum_concat(a: Seq<u128>, b: Seq<u128>)
    ensures
        seq_sum(a + b) == seq_sum(a) + seq_sum(b),
    decreases b.len(),
{
    if b.len() == 0 {
        assert(a + b =~= a);
    } else {
        lemma_seq_sum_concat(a, b.drop_last());
        assert((a + b).drop_last() =~= a + b.drop_last());
    }
}

proof fn lemma_seq_sum_bound(s: Seq<u128>, bound: nat)
    requires
        forall|i: int| 0 <= i < s.len() ==> #[trigger] s[i] <= bound,
    ensures
        seq_sum(s) <= s.len() * bound,
    decreases s.len(),
{
    if s.len() > 0 {
        lemma_seq_sum_bound(s.drop_last(), bound);
        assert(seq_sum(s) <= (s.len() - 1) * bound + bound);
        assert((s.len() - 1) * bound + bound == s.len() * bound) by (nonlinear_arith);
    }
}

proof fn lemma_seq_sum_lower(s: Seq<u128>, bound: nat)
    requires
        forall|i: int| 0 <= i < s.len() ==> bound <= #[trigger] s[i],
    ensures
        s.len() * bound <= seq_sum(s),
    decreases s.len(),
{
    if s.len() > 0 {
        lemma_seq_sum_lower(s.drop_last(), bound);
        assert((s.len() - 1) * bound + bound == s.len() * bound) by (nonlinear_arith);
    }
}

/// Sorts `v` ascending by insertion into a fresh vector.
fn sorted_copy(v: &Vec<u128>) -> (r: Vec<u128>)
    ensures
        sorted_by(r@, nanos_leq()),
        r@.to_multiset() == v@.to_multiset(),
{
    broadcast use group_to_multiset_ensures;

    let mut out: Vec<u128> = Vec::new();
    let mut i: usize = 0;
    while i < v.len()
        invariant
            i <= v.len(),
            sorted_by(out@, nanos_leq()),
            out@.to_multiset() == v@.subrange(0, i as int).to_multiset(),
        decreases v.len() - i,
    {
        let x = v[i];
        let mut pos: usize = 0;
        while pos < out.len() && out[pos] <= x
            invariant
                pos <= out.len(),
                forall|j: int| 0 <= j < pos ==> out@[j] <= x,
            decreases out.len() - pos,
        {
            pos = pos + 1;
        }
        let ghost before = out@;
        assert(forall|j: int| pos <= j < before.len() ==> x < before[j]) by {
            if pos < before.len() {
                assert(x < before[pos as int]);
                assert forall|j: int| pos <= j < before.len() implies x < before[j] by {
                    if j > pos {
                        assert(nanos_leq()(before[pos as int], before[j]));
                    }
                }
            }
        }
        out.insert(pos, x);
        assert(sorted_by(out@, nanos_leq())) by {
            assert forall|a: int, b: int| 0 <= a < b < out@.len() implies #[trigger] nanos_leq()(out@[a], out@[b]) by {
                if b < pos {
                    assert(nanos_leq()(before[a], before[b]));
                } else if b == pos {
                } else if a < pos {
                    assert(out@[a] <= x);
                } else if a == pos {
                } else {
                    assert(nanos_leq()(before[a - 1], before[b - 1]));
                }
            }
        }
        assert(v@.subrange(0, i + 1) =~= v@.subrange(0, i as int).push(x));
        assert(out@.to_multiset() == before.to_multiset().insert(x)) by {
            vstd::seq_lib::to_multiset_insert(before, pos as int, x);
        }
        assert(v@.subrange(0, i + 1).to_multiset() == v@.subrange(0, i as int).to_multiset().insert(x)) by {
            vstd::seq_lib::to_multiset_build(v@.subrange(0, i as int), x);
        }
        i = i + 1;
    }
    assert(v@.subrange(0, v.len() as int) =~= v@);
    out
}

/// Frame timing statistics over the most recent [`HISTORY_LEN`] frames.
///
/// Records frame durations into a circular buffer and derives the P99,
/// average, minimum and maximum. After the buffer has filled, each
/// recording also runs the performance threshold check.
pub struct FrameTimings {
    /// Circular buffer of frame times in nanoseconds.
    history: Vec<u128>,
    /// Next write position in `history`.
    index: usize,
    /// Number of filled entries (saturates at `HISTORY_LEN`).
    count: usize,
    /// Consecutive checks with the P99 above the warning threshold.
    warn_streak: u32,
    /// Consecutive checks with the P99 above the critical threshold.
    critical_streak: u32,
    /// Every frame time recorded so far, oldest first.
    frames: Ghost<Seq<u128>>,
}

impl FrameTimings {
    /// Every frame time recorded so far, in nanoseconds, oldest first.
    pub closed spec fn recorded(&self) -> Seq<u128> {
        self.frames@
    }

    /// The frames the statistics range over: the last [`HISTORY_LEN`]
    /// recorded ones (all of them while fewer were recorded), oldest first.
    pub open spec fn recent(&self) -> Seq<u128> {
        window_of(self.recorded())
    }

    /// The current warning streak.
    pub closed spec fn warn_run(&self) -> nat {
        self.warn_streak as nat
    }

    /// The current critical streak.
    pub closed spec fn critical_run(&self) -> nat {
        self.critical_streak as nat
    }

    /// The filled part of the buffer, in storage order.
    spec fn stored(&self) -> Seq<u128> {
        self.history@.subrange(0, self.count as int)
    }

    /// The buffer holds exactly the recent frames (rotated once full), every
    /// value fits a frame time, and the streaks are consistent.
    pub closed spec fn wf(&self) -> bool {
        &&& self.history@.len() == HISTORY_LEN
        &&& self.index < HISTORY_LEN
        &&& self.count as int == window_of(self.frames@).len()
        &&& self.index as int == self.frames@.len() as int % (HISTORY_LEN as int)
        &&& forall|i: int| 0 <= i < self.history@.len() ==> #[trigger] self.history@[i] <= MAX_FRAME_NANOS
        &&& forall|i: int| 0 <= i < self.frames@.len() ==> #[trigger] self.frames@[i] <= MAX_FRAME_NANOS
        &&& if self.frames@.len() < HISTORY_LEN {
            self.stored() == self.frames@
        } else {
            self.history@.subrange(self.index as int, HISTORY_LEN as int) + self.history@.subrange(0, self.index as int)
                == window_of(self.frames@)
        }
        &&& self.critical_streak <= self.warn_streak
        &&& self.frames@.len() < HISTORY_LEN ==> self.warn_streak == 0
    }

    proof fn lemma_stored_matches_recent(&self)
        requires
            self.wf(),
        ensures
            self.stored().to_multiset() == self.recent().to_multiset(),
            seq_sum(self.stored()) == seq_sum(self.recent()),
            self.stored().len() == self.recent().len(),
            forall|i: int| 0 <= i < self.recent().len() ==> #[trigger] self.recent()[i] <= MAX_FRAME_NANOS,
    {
        if self.frames@.len() >= HISTORY_LEN {
            let a = self.history@.subrange(self.index as int, HISTORY_LEN as int);
            let b = self.history@.subrange(0, self.index as int);
            assert(self.stored() =~= b + a);
            vstd::seq_lib::lemma_seq_union_to_multiset_commutative(a, b);
            lemma_seq_sum_concat(a, b);
            lemma_seq_sum_concat(b, a);
            assert forall|i: int| 0 <= i < self.recent().len() implies #[trigger] self.recent()[i] <= MAX_FRAME_NANOS by {
                assert(self.recent()[i] == self.frames@[self.frames@.len() - HISTORY_LEN + i]);
            }
        }
    }

    /// Creates an empty history.
    pub fn new() -> (r: FrameTimings)
        ensures
            r.wf(),
            r.recorded() == Seq::<u128>::empty(),
            r.warn_run() == 0,
            r.critical_run() == 0,
    {
        let mut history: Vec<u128> = Vec::new();
        while history.len() < HISTORY_LEN
            invariant
                history@.len() <= HISTORY_LEN,
                forall|i: int| 0 <= i < history@.len() ==> #[trigger] history@[i] == 0,
            decreases HISTORY_LEN - history@.len(),
        {
            history.push(0);
        }
        let r = FrameTimings {
            history,
            index: 0,
            count: 0,
            warn_streak: 0,
            critical_streak: 0,
            frames: Ghost(Seq::empty()),
        };
        assert(r.stored() =~= Seq::<u128>::empty());
        r
    }

    /// Copies the filled part of the buffer.
    fn stored_copy(&self) -> (r: Vec<u128>)
        requires
            self.wf(),
        ensures
            r@ == self.stored(),
    {
        let mut out: Vec<u128> = Vec::new();
        let mut i: usize = 0;
        while i < self.count
            invariant
                self.wf(),
                i <= self.count,
                out@ == self.history@.subrange(0, i as int),
            decreases self.count - i,
        {
            out.push(self.history[i]);
            i = i + 1;
            assert(out@ =~= self.history@.subrange(0, i as int));
        }
        out
    }

    /// The 99th-percentile frame time of the recent frames (zero when none
    /// were recorded).
    pub fn p99(&self) -> (r: FrameTime)
        requires
            self.wf(),
        ensures
            r@ == p99_of(self.recent()),
    {
        broadcast use group_to_multiset_ensures;

        proof {
            self.lemma_stored_matches_recent();
        }
        if self.count == 0 {
            return FrameTime::zero();
        }
        let window = self.stored_copy();
        let sorted = sorted_copy(&window);
        let rank = (99 * self.count + 99) / 100 - 1;
        let idx = if rank < self.count - 1 { rank } else { self.count - 1 };
        proof {
            let recent = self.recent();
            lemma_nanos_leq_total();
            recent.lemma_sort_by_ensures(nanos_leq());
            lemma_sorted_unique(sorted@, recent.sort_by(nanos_leq()), nanos_leq());
            assert(sorted@.to_multiset().len() == sorted@.len());
            assert(window@.to_multiset().len() == window@.len());
            assert(0 <= idx < sorted@.len());
            assert(sorted@.contains(sorted@[idx as int]));
            assert(sorted@.to_multiset().count(sorted@[idx as int]) > 0);
            assert(recent.to_multiset().count(sorted@[idx as int]) > 0);
            assert(recent.contains(sorted@[idx as int]));
        }
        FrameTime::from_total_nanos(sorted[idx])
    }

    /// The mean frame time of the recent frames, rounded down to the
    /// nanosecond (zero when none were recorded).
    pub fn average(&self) -> (r: FrameTime)
        requires
            self.wf(),
            seq_sum(self.recent()) <= MAX_FRAME_NANOS,
        ensures
            r@ == if self.recent().len() == 0 { 0 } else { seq_sum(self.recent()) / self.recent().len() },
    {
        proof {
            self.lemma_stored_matches_recent();
        }
        if self.count == 0 {
            return FrameTime::zero();
        }
        let mut total: u128 = 0;
        let mut i: usize = 0;
        while i < self.count
            invariant
                self.wf(),
                i <= self.count,
                total == seq_sum(self.history@.subrange(0, i as int)),
                total <= i * MAX_FRAME_NANOS,
            decreases self.count - i,
        {
            let ghost prefix = self.history@.subrange(0, i as int);
            assert(self.history@.subrange(0, i + 1).drop_last() =~= prefix);
            total = total + self.history[i];
            i = i + 1;
        }
        assert(self.history@.subrange(0, self.count as int) == self.stored());
        FrameTime::from_total_nanos(total / (self.count as u128))
    }

    /// The shortest of the recent frame times (zero when none were recorded).
    pub fn min(&self) -> (r: FrameTime)
        requires
            self.wf(),
        ensures
            self.recent().len() == 0 ==> r@ == 0,
            self.recent().len() > 0 ==> is_min_of(self.recent(), r@),
    {
        broadcast use group_to_multiset_ensures;

        proof {
            self.lemma_stored_matches_recent();
        }
        if self.count == 0 {
            return FrameTime::zero();
        }
        let mut best: u128 = self.history[0];
        let mut i: usize = 1;
        assert(self.stored().subrange(0, 1)[0] == best);
        while i < self.count
            invariant
                self.wf(),
                1 <= i <= self.count,
                self.stored().subrange(0, i as int).contains(best),
                forall|j: int| 0 <= j < i ==> best <= #[trigger] self.history@[j],
            decreases self.count - i,
        {
            if self.history[i] < best {
                best = self.history[i];
            }
            i = i + 1;
            assert(self.stored().subrange(0, i as int)[i - 1] == self.history@[i - 1]);
            assert(self.stored().subrange(0, i - 1) =~= self.stored().subrange(0, i as int).drop_last());
        }
        proof {
            assert(self.stored().subrange(0, i as int) =~= self.stored());
            let recent = self.recent();
            assert(self.stored().to_multiset().count(best) > 0);
            assert(recent.to_multiset().count(best) > 0);
            assert(recent.contains(best));
            assert forall|k: int| 0 <= k < recent.len() implies best <= #[trigger] recent[k] by {
                assert(recent.contains(recent[k]));
                assert(recent.to_multiset().count(recent[k]) > 0);
                assert(self.stored().to_multiset().count(recent[k]) > 0);
                assert(self.stored().contains(recent[k]));
            }
        }
        FrameTime::from_total_nanos(best)
    }

    /// The longest of the recent frame times (zero when none were recorded).
    pub fn max(&self) -> (r: FrameTime)
        requires
            self.wf(),
        ensures
            self.recent().len() == 0 ==> r@ == 0,
            self.recent().len() > 0 ==> is_max_of(self.recent(), r@),
    {
        broadcast use group_to_multiset_ensures;

        proof {
            self.lemma_stored_matches_recent();
        }
        if self.count == 0 {
            return FrameTime::zero();
        }
        let mut best: u128 = self.history[0];
        let mut i: usize = 1;
        assert(self.stored().subrange(0, 1)[0] == best);
        while i < self.count
            invariant
                self.wf(),
                1 <= i <= self.count,
                self.stored().subrange(0, i as int).contains(best),
                forall|j: int| 0 <= j < i ==> #[trigger] self.history@[j] <= best,
            decreases self.count - i,
        {
            if self.history[i] > best {
                best = self.history[i];
            }
            i = i + 1;
            assert(self.stored().subrange(0, i as int)[i - 1] == self.history@[i - 1]);
            assert(self.stored().subrange(0, i - 1) =~= self.stored().subrange(0, i as int).drop_last());
        }
        proof {
            assert(self.stored().subrange(0, i as int) =~= self.stored());
            let recent = self.recent();
            assert(self.stored().to_multiset().count(best) > 0);
            assert(recent.to_multiset().count(best) > 0);
            assert(recent.contains(best));
            assert forall|k: int| 0 <= k < recent.len() implies #[trigger] recent[k] <= best by {
                assert(recent.contains(recent[k]));
                assert(recent.to_multiset().count(recent[k]) > 0);
                assert(self.stored().to_multiset().count(recent[k]) > 0);
                assert(self.stored().contains(recent[k]));
            }
        }
        FrameTime::from_total_nanos(best)
    }

    /// The number of consecutive threshold checks with the P99 above the
    /// warning threshold.
    pub fn warn_streak(&self) -> (r: u32)
        ensures
            r == self.warn_run(),
    {
        self.warn_streak
    }

    /// The number of consecutive threshold checks with the P99 above the
    /// critical threshold.
    pub fn critical_streak(&self) -> (r: u32)
        ensures
            r == self.critical_run(),
    {
        self.critical_streak
    }

    /// Updates the streaks for one P99 reading: each streak grows while the
    /// P99 is above its threshold and resets to zero otherwise. Reports a
    /// streak that has just reached [`THRESHOLD_STREAK_LIMIT`].
    fn check_thresholds(&mut self, p99: FrameTime) -> (alerts: ThresholdAlerts)
        requires
            old(self).wf(),
            old(self).recorded().len() >= HISTORY_LEN,
            old(self).warn_run() < u32::MAX,
        ensures
            final(self).wf(),
            final(self).recorded() == old(self).recorded(),
            final(self).warn_run() == streak_after(old(self).warn_run(), p99@ as int, WARN_THRESHOLD_NANOS),
            final(self).critical_run() == streak_after(old(self).critical_run(), p99@ as int, CRITICAL_THRESHOLD_NANOS),
            alerts.warn_fired == streak_alert(old(self).warn_run(), p99@ as int, WARN_THRESHOLD_NANOS),
            alerts.critical_fired == streak_alert(old(self).critical_run(), p99@ as int, CRITICAL_THRESHOLD_NANOS),
    {
        let p = p99.as_nanos();
        let mut warn_fired = false;
        let mut critical_fired = false;
        if p > WARN_THRESHOLD_NANOS {
            self.warn_streak = self.warn_streak + 1;
            warn_fired = self.warn_streak == THRESHOLD_STREAK_LIMIT;
        } else {
            self.warn_streak = 0;
        }
        if p > CRITICAL_THRESHOLD_NANOS {
            self.critical_streak = self.critical_streak + 1;
            critical_fired = self.critical_streak == THRESHOLD_STREAK_LIMIT;
        } else {
            self.critical_streak = 0;
        }
        ThresholdAlerts { warn_fired, critical_fired }
    }

    /// Records one frame time, overwriting the oldest once the buffer is full.
    ///
    /// When the buffer is full after the write, the P99 of the recent frames
    /// is checked against the thresholds (see [`THRESHOLD_STREAK_LIMIT`]);
    /// before that the streaks are left untouched and no alert is raised.
    pub fn record(&mut self, frame_time: FrameTime) -> (alerts: ThresholdAlerts)
        requires
            old(self).wf(),
            old(self).warn_run() < u32::MAX,
        ensures
            final(self).wf(),
            final(self).recorded() == old(self).recorded().push(frame_time@ as u128),
            ({
                let p = p99_of(final(self).recent());
                if final(self).recorded().len() >= HISTORY_LEN {
                    &&& final(self).warn_run() == streak_after(old(self).warn_run(), p as int, WARN_THRESHOLD_NANOS)
                    &&& final(self).critical_run() == streak_after(old(self).critical_run(), p as int, CRITICAL_THRESHOLD_NANOS)
                    &&& alerts.warn_fired == streak_alert(old(self).warn_run(), p as int, WARN_THRESHOLD_NANOS)
                    &&& alerts.critical_fired == streak_alert(old(self).critical_run(), p as int, CRITICAL_THRESHOLD_NANOS)
                } else {
                    &&& final(self).warn_run() == old(self).warn_run()
                    &&& final(self).critical_run() == old(self).critical_run()
                    &&& !alerts.warn_fired
                    &&& !alerts.critical_fired
                }
            }),
    {
        let nanos = frame_time.as_nanos();
        let ghost old_frames = self.frames@;
        let ghost old_history = self.history@;
        let ghost old_index = self.index;
        self.history.set(self.index, nanos);
        self.index = (self.index + 1) % HISTORY_LEN;
        if self.count < HISTORY_LEN {
            self.count = self.count + 1;
        }
        self.frames = Ghost(old_frames.push(nanos));
        proof {
            let frames = self.frames@;
            if old_frames.len() + 1 < HISTORY_LEN {
                assert(self.stored() =~= frames);
            } else if old_frames.len() + 1 == HISTORY_LEN {
                assert(self.index == 0);
                assert(self.history@.subrange(0, HISTORY_LEN as int) =~= frames);
                assert(self.history@.subrange(self.index as int, HISTORY_LEN as int)
                    + self.history@.subrange(0, self.index as int) =~= window_of(frames));
            } else {
                let w_old = window_of(old_frames);
                assert(window_of(frames) =~= w_old.drop_first().push(nanos));
                assert(w_old =~= old_history.subrange(old_index as int, HISTORY_LEN as int)
                    + old_history.subrange(0, old_index as int));
                assert(self.history@.subrange(self.index as int, HISTORY_LEN as int)
                    + self.history@.subrange(0, self.index as int) =~= window_of(frames));
            }
        }
        let mut alerts = ThresholdAlerts { warn_fired: false, critical_fired: false };
        if self.count == HISTORY_LEN {
            let p99 = self.p99();
            alerts = self.check_thresholds(p99);
        }
        alerts
    }
}

/// The window slides by one frame per recording: a new frame is appended
/// and, once [`HISTORY_LEN`] frames are held, the oldest one drops out.
pub proof fn lemma_window_slides(frames: Seq<u128>, frame: u128)
    ensures
        window_of(frames.push(frame)) == if frames.len() >= HISTORY_LEN {
            window_of(frames).drop_first().push(frame)
        } else {
            frames.push(frame)
        },
        window_of(frames.push(frame)).len() <= HISTORY_LEN,
        window_of(frames.push(frame)).last() == frame,
{
    if frames.len() >= HISTORY_LEN {
        assert(window_of(frames.push(frame)) =~= window_of(frames).drop_first().push(frame));
    }
}

/// Every statistic lies between the smallest and the largest recent frame:
/// `min <= p99 <= max` and `min <= average <= max`.
pub proof fn lemma_statistics_within_range(s: Seq<u128>, lo: nat, hi: nat)
    requires
        s.len() > 0,
        is_min_of(s, lo),
        is_max_of(s, hi),
    ensures
        lo <= p99_of(s) <= hi,
        lo <= seq_sum(s) / s.len() <= hi,
{
    broadcast use group_to_multiset_ensures;

    let n = s.len();
    let sorted = s.sort_by(nanos_leq());
    lemma_nanos_leq_total();
    s.lemma_sort_by_ensures(nanos_leq());
    let rank = p99_rank(n);
    assert(0 <= rank < n) by (nonlinear_arith)
        requires
            n > 0,
            rank == (99 * n + 99) / 100 - 1,
    ;
    assert(sorted.to_multiset().len() == sorted.len());
    assert(s.to_multiset().len() == s.len());
    let v = sorted[rank];
    assert(sorted.contains(v));
    assert(sorted.to_multiset().count(v) > 0);
    assert(s.to_multiset().count(v) > 0);
    assert(s.contains(v));
    let k = choose|k: int| 0 <= k < s.len() && s[k] == v;
    assert(lo <= s[k] <= hi);
    lemma_seq_sum_bound(s, hi);
    lemma_seq_sum_lower(s, lo);
    let total = seq_sum(s);
    assert(lo <= total / n <= hi) by (nonlinear_arith)
        requires
            n > 0,
            n * lo <= total,
            total <= n * hi,
    ;
}

/// An alert is raised once per streak: the check right after an alert
/// cannot raise another, and any later alert needs the streak to fall back
/// to zero and climb to the limit again.
pub proof fn lemma_alert_once_per_streak(run: nat, p1: int, p2: int, threshold: u128)
    ensures
        streak_alert(run, p1, threshold) ==> !streak_alert(streak_after(run, p1, threshold), p2, threshold),
        streak_alert(run, p1, threshold) ==> run + 1 == THRESHOLD_STREAK_LIMIT,
{
}

/// The critical streak never exceeds the warning streak: a P99 above the
/// critical threshold is also above the warning threshold.
pub proof fn lemma_critical_streak_within_warn(timings: &FrameTimings)
    requires
        timings.wf(),
    ensures
        timings.critical_run() <= timings.warn_run(),
{
}

/// No threshold check runs before the buffer has filled: both streaks stay
/// at zero while fewer than [`HISTORY_LEN`] frames have been recorded.
pub proof fn lemma_no_streak_before_full(timings: &FrameTimings)
    requires
        timings.wf(),
        timings.recorded().len() < HISTORY_LEN,
    ensures
        timings.warn_run() == 0,
        timings.critical_run() == 0,
{
}

impl Default for FrameTimings {
    /// An empty history, as [`FrameTimings::new`].
    fn default() -> (r: FrameTimings)
        ensures
            r.wf(),
            r.recorded() == Seq::<u128>::empty(),
            r.warn_run() == 0,
            r.critical_run() == 0,
    {
        FrameTimings::new()
    }
}

} // verus!
