//! Time-parameterized interpolation segments.
//!
//! A [`TimedSpline`] spans a start position through an ordered list of
//! keyframes, each reached a fixed number of nanoseconds after the previous
//! one, and interpolates linearly within each keyframe interval. Positions
//! are fixed-point values: the caller picks the unit (for example
//! thousandths of a joint angle) and the segment is exact in that unit.

use vstd::arithmetic::div_mod::{lemma_div_is_ordered, lemma_div_multiples_vanish};
use vstd::arithmetic::mul::lemma_mul_inequality;
use vstd::prelude::*;

verus! {

/// One keyframe of a motion group: a target position reached
/// `duration_ns` nanoseconds after the previous keyframe (or after the
/// segment start, for the first keyframe).
#[derive(Clone, Copy, Debug, PartialEq, Eq, Structural)]
pub struct Keyframe {
    pub positions: i64,
    pub duration_ns: u64,
}

/// Interpolation-mode selector shared by all segments of one motion.
#[derive(Clone, Copy, Debug, PartialEq, Eq, Structural)]
pub enum InterpolationMode {
    Linear,
}

/// Why a segment or a whole motion failed to build.
#[derive(Clone, Copy, Debug, PartialEq, Eq, Structural)]
pub enum InterpolatorError {
    /// The motion description holds no keyframe groups at all.
    EmptyMotion,
    /// A keyframe group holds no keyframes.
    EmptyKeyframes,
    /// A keyframe lasts zero nanoseconds.
    ZeroDuration,
    /// The group's keyframe durations sum to more than a `u64` holds.
    DurationOverflow,
}

/// Total duration of a keyframe list, in nanoseconds, as an unbounded sum.
pub open spec fn spec_total_duration(kfs: Seq<Keyframe>) -> int
    decreases kfs.len(),
{
    if kfs.len() == 0 {
        0
    } else {
        spec_total_duration(kfs.drop_last()) + kfs.last().duration_ns
    }
}

/// Whether a keyframe list makes a valid segment: at least one keyframe,
/// every keyframe strictly positive in duration, and a total duration that
/// a `u64` nanosecond counter can hold.
pub open spec fn spec_keyframes_valid(kfs: Seq<Keyframe>) -> bool {
    &&& kfs.len() > 0
    &&& forall|j: int| 0 <= j < kfs.len() ==> kfs[j].duration_ns > 0
    &&& spec_total_duration(kfs) <= u64::MAX
}

/// The error a keyframe list earns when it is not valid, by fixed
/// precedence: an empty list, then a zero duration, then overflow.
pub open spec fn spec_group_error(kfs: Seq<Keyframe>) -> InterpolatorError {
    if kfs.len() == 0 {
        InterpolatorError::EmptyKeyframes
    } else if exists|j: int| 0 <= j < kfs.len() && kfs[j].duration_ns == 0 {
        InterpolatorError::ZeroDuration
    } else {
        InterpolatorError::DurationOverflow
    }
}

/// Linear interpolation from `a` to `b`, `num / den` of the way, rounded
/// toward `a`.
pub open spec fn spec_lerp(a: int, b: int, num: int, den: int) -> int {
    if b >= a {
        a + (b - a) * num / den
    } else {
        a - (a - b) * num / den
    }
}

/// Position `elapsed_ns` nanoseconds into a piecewise-linear segment that
/// starts at `start` and passes through `kfs` in order. Past the last
/// keyframe the position holds at the last keyframe's target.
pub open spec fn spec_value_at(start: i64, kfs: Seq<Keyframe>, elapsed_ns: int) -> int
    decreases kfs.len(),
{
    if kfs.len() == 0 {
        start as int
    } else if elapsed_ns < kfs[0].duration_ns {
        spec_lerp(start as int, kfs[0].positions as int, elapsed_ns, kfs[0].duration_ns as int)
    } else {
        spec_value_at(
            kfs[0].positions,
            kfs.subrange(1, kfs.len() as int),
            elapsed_ns - kfs[0].duration_ns,
        )
    }
}

/// The sum of a prefix of a keyframe list never exceeds the full sum.
proof fn lemma_total_duration_prefix(kfs: Seq<Keyframe>, i: int)
    requires
        0 <= i <= kfs.len(),
    ensures
        spec_total_duration(kfs.subrange(0, i)) <= spec_total_duration(kfs),
    decreases kfs.len() - i,
{
    if i == kfs.len() {
        assert(kfs.subrange(0, i) =~= kfs);
    } else {
        lemma_total_duration_prefix(kfs, i + 1);
        assert(kfs.subrange(0, i + 1).drop_last() =~= kfs.subrange(0, i));
        assert(kfs.subrange(0, i + 1).last() == kfs[i]);
    }
}

/// A time-parameterized, piecewise-linear interpolation segment.
///
/// Exposes its start value, end value, value at any elapsed time, and
/// total duration; built only through [`TimedSpline::try_new_with_start`],
/// which validates the keyframes (see [`spec_keyframes_valid`]).
#[derive(Clone, Debug)]
pub struct TimedSpline {
    pub start: i64,
    pub keyframes: Vec<Keyframe>,
    pub mode: InterpolationMode,
}

/// Exact fixed-point linear interpolation; the result always lies between
/// `a` and `b`, so it fits an `i64`.
fn lerp(a: i64, b: i64, num: u64, den: u64) -> (r: i64)
    requires
        den > 0,
        num < den,
    ensures
        r as int == spec_lerp(a as int, b as int, num as int, den as int),
{
    if b >= a {
        let diff: u128 = (b as i128 - a as i128) as u128;
        proof {
            lemma_mul_inequality(num as int, den as int, diff as int);
            lemma_div_is_ordered(diff as int * num as int, diff as int * den as int, den as int);
            lemma_div_multiples_vanish(diff as int, den as int);
            assert(diff as int * num as int / den as int <= diff as int);
            assert(diff as int * num as int <= u128::MAX as int) by (nonlinear_arith)
                requires
                    0 <= diff as int <= u64::MAX as int,
                    0 <= num as int <= u64::MAX as int,
            ;
        }
        let q: u128 = diff * (num as u128) / (den as u128);
        (a as i128 + q as i128) as i64
    } else {
        let diff: u128 = (a as i128 - b as i128) as u128;
        proof {
            lemma_mul_inequality(num as int, den as int, diff as int);
            lemma_div_is_ordered(diff as int * num as int, diff as int * den as int, den as int);
            lemma_div_multiples_vanish(diff as int, den as int);
            assert(diff as int * num as int / den as int <= diff as int);
            assert(diff as int * num as int <= u128::MAX as int) by (nonlinear_arith)
                requires
                    0 <= diff as int <= u64::MAX as int,
                    0 <= num as int <= u64::MAX as int,
            ;
        }
        let q: u128 = diff * (num as u128) / (den as u128);
        (a as i128 - q as i128) as i64
    }
}

impl TimedSpline {
    /// Structural validity: established at construction, preserved by every
    /// method, and assumed by the position and duration queries.
    pub open spec fn wf(self) -> bool {
        spec_keyframes_valid(self.keyframes@)
    }

    /// Builds a segment from `start` through `keyframes`, validating the
    /// keyframes; fails without partial state on the first defect found.
    pub fn try_new_with_start(start: i64, keyframes: Vec<Keyframe>, mode: InterpolationMode) -> (result:
        Result<TimedSpline, InterpolatorError>)
        ensures
            result is Ok <==> spec_keyframes_valid(keyframes@),
            result is Ok ==> result->Ok_0 == (TimedSpline { start, keyframes, mode }),
            result is Err ==> result->Err_0 == spec_group_error(keyframes@),
    {
        let n = keyframes.len();
        if n == 0 {
            return Err(InterpolatorError::EmptyKeyframes);
        }
        let mut idx: usize = 0;
        while idx < n
            invariant
                n == keyframes.len(),
                0 <= idx <= n,
                forall|j: int| 0 <= j < idx ==> keyframes@[j].duration_ns > 0,
            decreases n - idx,
        {
            if keyframes[idx].duration_ns == 0 {
                return Err(InterpolatorError::ZeroDuration);
            }
            idx += 1;
        }
        let mut sum: u64 = 0;
        idx = 0;
        while idx < n
            invariant
                n == keyframes.len(),
                0 <= idx <= n,
                sum as int == spec_total_duration(keyframes@.subrange(0, idx as int)),
                forall|j: int| 0 <= j < n ==> keyframes@[j].duration_ns > 0,
            decreases n - idx,
        {
            let duration_ns = keyframes[idx].duration_ns;
            proof {
                assert(keyframes@.subrange(0, idx + 1).drop_last() =~= keyframes@.subrange(
                    0,
                    idx as int,
                ));
                assert(keyframes@.subrange(0, idx + 1).last() == keyframes@[idx as int]);
            }
            if duration_ns > u64::MAX - sum {
                proof {
                    lemma_total_duration_prefix(keyframes@, idx + 1);
                }
                return Err(InterpolatorError::DurationOverflow);
            }
            sum += duration_ns;
            idx += 1;
        }
        proof {
            assert(keyframes@.subrange(0, n as int) =~= keyframes@);
        }
        Ok(TimedSpline { start, keyframes, mode })
    }

    /// The position the segment starts from.
    pub fn start_position(&self) -> (r: i64)
        ensures
            r == self.start,
    {
        self.start
    }

    /// The position the segment ends at: its last keyframe's target.
    pub fn end_position(&self) -> (r: i64)
        requires
            self.wf(),
        ensures
            r == self.keyframes@.last().positions,
    {
        self.keyframes[self.keyframes.len() - 1].positions
    }

    /// Total duration of the segment in nanoseconds: the sum of its
    /// keyframe durations.
    pub fn total_duration(&self) -> (r: u64)
        requires
            self.wf(),
        ensures
            r as int == spec_total_duration(self.keyframes@),
    {
        let n = self.keyframes.len();
        let mut sum: u64 = 0;
        let mut idx: usize = 0;
        while idx < n
            invariant
                self.wf(),
                n == self.keyframes.len(),
                0 <= idx <= n,
                sum as int == spec_total_duration(self.keyframes@.subrange(0, idx as int)),
            decreases n - idx,
        {
            proof {
                assert(self.keyframes@.subrange(0, idx + 1).drop_last() =~= self.keyframes@
                    .subrange(0, idx as int));
                assert(self.keyframes@.subrange(0, idx + 1).last() == self.keyframes@[idx as int]);
                lemma_total_duration_prefix(self.keyframes@, idx + 1);
            }
            sum += self.keyframes[idx].duration_ns;
            idx += 1;
        }
        proof {
            assert(self.keyframes@.subrange(0, n as int) =~= self.keyframes@);
        }
        sum
    }

    /// Position `elapsed_ns` nanoseconds into the segment; holds at the
    /// end position once the total duration has passed.
    pub fn value_at(&self, elapsed_ns: u64) -> (r: i64)
        requires
            self.wf(),
        ensures
            r as int == spec_value_at(self.start, self.keyframes@, elapsed_ns as int),
    {
        let n = self.keyframes.len();
        proof {
            assert(self.keyframes@.subrange(0, n as int) =~= self.keyframes@);
        }
        let mut idx: usize = 0;
        let mut segment_start: i64 = self.start;
        let mut remaining_ns: u64 = elapsed_ns;
        while idx < n
            invariant
                self.wf(),
                n == self.keyframes.len(),
                0 <= idx <= n,
                spec_value_at(self.start, self.keyframes@, elapsed_ns as int) == spec_value_at(
                    segment_start,
                    self.keyframes@.subrange(idx as int, n as int),
                    remaining_ns as int,
                ),
            decreases n - idx,
        {
            let kf = self.keyframes[idx];
            proof {
                assert(self.keyframes@.subrange(idx as int, n as int)[0] == self.keyframes@[
                    idx as int]);
                assert(self.keyframes@.subrange(idx as int, n as int).subrange(
                    1,
                    (n - idx) as int,
                ) =~= self.keyframes@.subrange(idx + 1, n as int));
            }
            if remaining_ns < kf.duration_ns {
                return lerp(segment_start, kf.positions, remaining_ns, kf.duration_ns);
            }
            remaining_ns = remaining_ns - kf.duration_ns;
            segment_start = kf.positions;
            idx += 1;
        }
        proof {
            assert(self.keyframes@.subrange(n as int, n as int) =~= Seq::<Keyframe>::empty());
        }
        segment_start
    }

    /// Overrides the start position, leaving keyframes and mode untouched;
    /// used to rebase the first segment onto the robot's measured pose.
    pub fn set_initial_positions(&mut self, position: i64)
        ensures
            final(self).start == position,
            final(self).keyframes == old(self).keyframes,
            final(self).mode == old(self).mode,
    {
        self.start = position;
    }
}

} // verus!
