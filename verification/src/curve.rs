//! Keyframe curves and the governing-keyframe sampler.
//!
//! A curve pairs a strictly increasing sequence of keyframe timestamps with
//! one typed value per timestamp.  Sampling a curve at a query time yields
//! the governing keyframe: the latest keyframe at or before that time.

use crate::values::{Quat, Vec3};
use vstd::prelude::*;

verus! {

/// Outcome of looking up the governing keyframe of a curve.
#[derive(Clone, Copy, PartialEq, Eq, Structural, Debug)]
pub enum GoverningKeyframe {
    /// The query time precedes the first keyframe: the curve has not
    /// started, and the channel is skipped.
    Before,
    /// The query time lies beyond the last keyframe: the curve has
    /// finished, and the channel is skipped.
    After,
    /// The index of the latest keyframe at or before the query time.
    At(usize),
}

/// Timestamps are strictly increasing, so every prefix search has one answer.
pub open spec fn times_strictly_increasing(times: Seq<u64>) -> bool {
    forall|i: int, j: int| 0 <= i < j < times.len() ==> times[i] < times[j]
}

/// Index of the latest timestamp at or before `t`, assuming there is one.
pub open spec fn spec_governing_index(times: Seq<u64>, t: u64) -> int
    recommends
        times.len() > 0,
        times[0] <= t,
    decreases times.len(),
{
    if times.len() == 0 {
        0
    } else if times[times.len() - 1] <= t {
        times.len() - 1
    } else {
        spec_governing_index(times.drop_last(), t)
    }
}

/// What sampling a curve with timestamps `times` at time `t` yields.
pub open spec fn spec_governing(times: Seq<u64>, t: u64) -> GoverningKeyframe
    recommends
        times.len() > 0,
{
    if t < times[0] {
        GoverningKeyframe::Before
    } else if t > times[times.len() - 1] {
        GoverningKeyframe::After
    } else {
        GoverningKeyframe::At(spec_governing_index(times, t) as usize)
    }
}

/// The governing index points at a timestamp at or before `t`, and the next
/// timestamp, if any, is strictly after `t`.
pub proof fn lemma_governing_index_brackets(times: Seq<u64>, t: u64)
    requires
        times.len() > 0,
        times_strictly_increasing(times),
        times[0] <= t,
    ensures
        0 <= spec_governing_index(times, t) < times.len(),
        times[spec_governing_index(times, t)] <= t,
        spec_governing_index(times, t) + 1 < times.len() ==> t < times[spec_governing_index(
            times,
            t,
        ) + 1],
    decreases times.len(),
{
    if times[times.len() - 1] <= t {
    } else {
        assert(times.len() > 1);
        let shorter = times.drop_last();
        assert(times_strictly_increasing(shorter));
        lemma_governing_index_brackets(shorter, t);
        let i = spec_governing_index(shorter, t);
        assert(spec_governing_index(times, t) == i);
        if i + 1 < shorter.len() {
            assert(times[i + 1] == shorter[i + 1]);
        } else {
            assert(i + 1 == shorter.len());
            assert(times[i + 1] == times[times.len() - 1]);
        }
    }
}

/// Any index bracketing `t` the same way is the governing index.
pub proof fn lemma_governing_index_unique(times: Seq<u64>, t: u64, i: int)
    requires
        times.len() > 0,
        times_strictly_increasing(times),
        times[0] <= t,
        0 <= i < times.len(),
        times[i] <= t,
        i + 1 < times.len() ==> t < times[i + 1],
    ensures
        spec_governing_index(times, t) == i,
    decreases times.len(),
{
    if times[times.len() - 1] <= t {
        if i + 1 < times.len() {
            assert(times[i + 1] <= times[times.len() - 1]);
        }
    } else {
        assert(i + 1 < times.len() || times[i] > t);
        let shorter = times.drop_last();
        assert(times_strictly_increasing(shorter));
        if i + 1 < shorter.len() {
            assert(shorter[i + 1] == times[i + 1]);
        }
        lemma_governing_index_unique(shorter, t, i);
    }
}

/// Find the governing keyframe among `times` for query time `t` by binary
/// search over the strictly increasing timestamps.
pub fn sample_governing_keyframe(times: &Vec<u64>, t: u64) -> (r: GoverningKeyframe)
    requires
        times@.len() > 0,
        times_strictly_increasing(times@),
    ensures
        r == spec_governing(times@, t),
        r matches GoverningKeyframe::At(i) ==> (i as int) < times@.len() && i as int
            == spec_governing_index(times@, t),
{
    let n = times.len();
    if t < times[0] {
        return GoverningKeyframe::Before;
    }
    if t > times[n - 1] {
        return GoverningKeyframe::After;
    }
    // Invariant: every timestamp before `lo` is <= t, every one at or past
    // `hi` is > t; the governing index lies in lo - 1 .. hi.
    let mut lo: usize = 1;
    let mut hi: usize = n;
    while lo < hi
        invariant
            1 <= lo <= hi <= n,
            n == times@.len(),
            times_strictly_increasing(times@),
            forall|k: int| 0 <= k < lo ==> times@[k] <= t,
            forall|k: int| hi <= k < n ==> times@[k] > t,
        decreases hi - lo,
    {
        let mid = lo + (hi - lo) / 2;
        if times[mid] <= t {
            assert(forall|k: int| 0 <= k <= mid ==> times@[k] <= t) by {
                assert(forall|k: int| 0 <= k <= mid ==> times@[k] <= times@[mid as int]);
            }
            lo = mid + 1;
        } else {
            assert(forall|k: int| mid <= k < n ==> times@[k] > t) by {
                assert(forall|k: int| mid < k < n ==> times@[mid as int] < times@[k]);
            }
            hi = mid;
        }
    }
    let idx = lo - 1;
    proof {
        lemma_governing_index_unique(times@, t, idx as int);
    }
    GoverningKeyframe::At(idx)
}

/// A rotation curve: one quaternion keyframe per timestamp.
#[derive(Debug)]
pub struct RotationCurve {
    pub times: Vec<u64>,
    pub values: Vec<Quat>,
}

/// A translation or scale curve: one vector keyframe per timestamp.
#[derive(Debug)]
pub struct VectorCurve {
    pub times: Vec<u64>,
    pub values: Vec<Vec3>,
}

/// Why a curve could not be built from the given keyframes.
#[derive(Clone, Copy, PartialEq, Eq, Structural, Debug)]
pub enum CurveError {
    /// The curve has no keyframes at all.
    Empty,
    /// Timestamp and value counts differ.
    LengthMismatch,
    /// Timestamps are not strictly increasing.
    TimesNotIncreasing,
    /// A value component exceeds the fixed-point bound.
    ValueOutOfBounds,
}

impl RotationCurve {
    pub open spec fn wf(self) -> bool {
        &&& self.times@.len() == self.values@.len()
        &&& self.times@.len() > 0
        &&& times_strictly_increasing(self.times@)
        &&& forall|i: int| 0 <= i < self.values@.len() ==> (#[trigger] self.values@[i]).wf()
    }

    /// Build a rotation curve, checking every invariant of the keyframe
    /// data; each error names the first violated invariant, in the order
    /// empty, length mismatch, ordering, value bound.
    pub fn new(times: Vec<u64>, values: Vec<Quat>) -> (r: Result<RotationCurve, CurveError>)
        ensures
            match r {
                Ok(c) => {
                    &&& c.times@ == times@
                    &&& c.values@ == values@
                    &&& c.wf()
                },
                Err(CurveError::Empty) => times@.len() == 0,
                Err(CurveError::LengthMismatch) => times@.len() > 0 && times@.len()
                    != values@.len(),
                Err(CurveError::TimesNotIncreasing) => times@.len() == values@.len()
                    && !times_strictly_increasing(times@),
                Err(CurveError::ValueOutOfBounds) => times_strictly_increasing(times@) && exists|
                    i: int,
                |
                    0 <= i < values@.len() && !(#[trigger] values@[i]).wf(),
            },
    {
        if times.len() == 0 {
            return Err(CurveError::Empty);
        }
        if times.len() != values.len() {
            return Err(CurveError::LengthMismatch);
        }
        if !check_times_increasing(&times) {
            return Err(CurveError::TimesNotIncreasing);
        }
        let mut i: usize = 0;
        while i < values.len()
            invariant
                i <= values@.len(),
                times_strictly_increasing(times@),
                forall|k: int| 0 <= k < i ==> (#[trigger] values@[k]).wf(),
            decreases values@.len() - i,
        {
            let v = values[i];
            if v.x < -crate::fixed::COMPONENT_BOUND || v.x > crate::fixed::COMPONENT_BOUND
                || v.y < -crate::fixed::COMPONENT_BOUND || v.y > crate::fixed::COMPONENT_BOUND
                || v.z < -crate::fixed::COMPONENT_BOUND || v.z > crate::fixed::COMPONENT_BOUND
                || v.w < -crate::fixed::COMPONENT_BOUND || v.w > crate::fixed::COMPONENT_BOUND {
                assert(!(#[trigger] values@[i as int]).wf());
                return Err(CurveError::ValueOutOfBounds);
            }
            i = i + 1;
        }
        Ok(RotationCurve { times, values })
    }
}

impl VectorCurve {
    pub open spec fn wf(self) -> bool {
        &&& self.times@.len() == self.values@.len()
        &&& self.times@.len() > 0
        &&& times_strictly_increasing(self.times@)
        &&& forall|i: int| 0 <= i < self.values@.len() ==> (#[trigger] self.values@[i]).wf()
    }

    /// Build a vector curve, checking every invariant of the keyframe data;
    /// errors are reported as for rotation curves.
    pub fn new(times: Vec<u64>, values: Vec<Vec3>) -> (r: Result<VectorCurve, CurveError>)
        ensures
            match r {
                Ok(c) => {
                    &&& c.times@ == times@
                    &&& c.values@ == values@
                    &&& c.wf()
                },
                Err(CurveError::Empty) => times@.len() == 0,
                Err(CurveError::LengthMismatch) => times@.len() > 0 && times@.len()
                    != values@.len(),
                Err(CurveError::TimesNotIncreasing) => times@.len() == values@.len()
                    && !times_strictly_increasing(times@),
                Err(CurveError::ValueOutOfBounds) => times_strictly_increasing(times@) && exists|
                    i: int,
                |
                    0 <= i < values@.len() && !(#[trigger] values@[i]).wf(),
            },
    {
        if times.len() == 0 {
            return Err(CurveError::Empty);
        }
        if times.len() != values.len() {
            return Err(CurveError::LengthMismatch);
        }
        if !check_times_increasing(&times) {
            return Err(CurveError::TimesNotIncreasing);
        }
        let mut i: usize = 0;
        while i < values.len()
            invariant
                i <= values@.len(),
                times_strictly_increasing(times@),
                forall|k: int| 0 <= k < i ==> (#[trigger] values@[k]).wf(),
            decreases values@.len() - i,
        {
            let v = values[i];
            if v.x < -crate::fixed::COMPONENT_BOUND || v.x > crate::fixed::COMPONENT_BOUND
                || v.y < -crate::fixed::COMPONENT_BOUND || v.y > crate::fixed::COMPONENT_BOUND
                || v.z < -crate::fixed::COMPONENT_BOUND || v.z > crate::fixed::COMPONENT_BOUND {
                assert(!(#[trigger] values@[i as int]).wf());
                return Err(CurveError::ValueOutOfBounds);
            }
            i = i + 1;
        }
        Ok(VectorCurve { times, values })
    }
}

/// True exactly when the timestamps are strictly increasing.
fn check_times_increasing(times: &Vec<u64>) -> (r: bool)
    ensures
        r == times_strictly_increasing(times@),
{
    let mut i: usize = 1;
    while i < times.len()
        invariant
            1 <= i,
            i <= times@.len() || times@.len() == 0,
            forall|p: int, q: int| 0 <= p < q < i ==> times@[p] < times@[q],
        decreases times@.len() - i,
    {
        if times[i - 1] >= times[i] {
            return false;
        }
        assert(forall|p: int, q: int| 0 <= p < q <= i ==> times@[p] < times@[q]) by {
            assert(forall|p: int| 0 <= p < i ==> #[trigger] times@[p] <= times@[i - 1]);
        }
        i = i + 1;
    }
    true
}

} // verus!
