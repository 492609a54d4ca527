//! The state that the capture path writes and the display path reads: the
//! frame assembler with its clock, the pitch trace and the last good pitch.
use vstd::prelude::*;

use crate::fbits::{is_nan, nan, FloatBits};
use crate::filter::{display_value, frame_value, AcceptancePolicy, Prediction};
use crate::frames::{freshest, joined, latched, AnalysisFrame, FrameAssembler};
use crate::SAMPLES_PER_STEP;

verus! {

/// One displayed pitch value.
#[derive(Clone, Copy, Debug, PartialEq, Eq, Structural)]
pub struct PitchPoint {
    /// Time since the capture session's first sample, in nanoseconds.
    pub elapsed_nanos: u64,
    /// Pitch in Hz; NaN where no valid pitch was found.
    pub value: FloatBits,
}

/// The points from index `start` on are in order of time.
pub open spec fn ordered_from(points: Seq<PitchPoint>, start: int) -> bool {
    forall|i: int, j: int|
        start <= i < j < points.len() ==> (#[trigger] points[i]).elapsed_nanos
            <= (#[trigger] points[j]).elapsed_nanos
}

/// The last good pitch after showing `value`: a NaN leaves it as it was.
pub open spec fn good_after(last_good: Option<FloatBits>, value: FloatBits) -> Option<FloatBits> {
    if is_nan(value) {
        last_good
    } else {
        Some(value)
    }
}

/// The pitch trace and the capture state behind it.
///
/// The trace is append-only and outlives capture sessions; within one
/// session its times never decrease.
pub struct PitchSession {
    assembler: FrameAssembler,
    points: Vec<PitchPoint>,
    session_start: usize,
    last_good: Option<FloatBits>,
}

impl PitchSession {
    /// Every point shown so far, oldest first.
    pub closed spec fn trace(&self) -> Seq<PitchPoint> {
        self.points@
    }

    /// Index of the first point of the current capture session.
    pub closed spec fn session_start(&self) -> int {
        self.session_start as int
    }

    /// The most recent non-NaN value shown, if any.
    pub closed spec fn latest_good(&self) -> Option<FloatBits> {
        self.last_good
    }

    /// Samples waiting to complete a frame.
    pub closed spec fn pending(&self) -> Seq<i16> {
        self.assembler.pending()
    }

    /// Timestamp of the current session's first callback, if one came.
    pub closed spec fn origin(&self) -> Option<u64> {
        self.assembler.origin()
    }

    pub open spec fn wf(&self) -> bool {
        &&& self.pending().len() < SAMPLES_PER_STEP
        &&& 0 <= self.session_start() <= self.trace().len()
        &&& ordered_from(self.trace(), self.session_start())
    }

    /// A point at `elapsed_nanos` keeps the session's times in order.
    pub open spec fn in_order(&self, elapsed_nanos: u64) -> bool {
        self.trace().len() == self.session_start() || self.trace().last().elapsed_nanos
            <= elapsed_nanos
    }

    /// No samples, no clock, an empty trace.
    pub fn new() -> (r: PitchSession)
        ensures
            r.wf(),
            r.trace() == Seq::<PitchPoint>::empty(),
            r.session_start() == 0,
            r.latest_good() is None,
            r.pending() == Seq::<i16>::empty(),
            r.origin() is None,
    {
        PitchSession {
            assembler: FrameAssembler::new(),
            points: Vec::new(),
            session_start: 0,
            last_good: None,
        }
    }

    /// Feeds one capture callback to the frame assembler; see
    /// `FrameAssembler::push`.
    pub fn push_samples(&mut self, samples: &[i16], timestamp: u64) -> (r: Option<AnalysisFrame>)
        requires
            old(self).wf(),
        ensures
            final(self).wf(),
            final(self).origin() == latched(old(self).origin(), timestamp),
            joined(old(self).pending(), samples@).len() >= SAMPLES_PER_STEP ==> {
                &&& r is Some
                &&& r.unwrap()@ == freshest(joined(old(self).pending(), samples@))
                &&& final(self).pending() == Seq::<i16>::empty()
            },
            joined(old(self).pending(), samples@).len() < SAMPLES_PER_STEP ==> {
                &&& r is None
                &&& final(self).pending() == joined(old(self).pending(), samples@)
            },
            final(self).trace() == old(self).trace(),
            final(self).session_start() == old(self).session_start(),
            final(self).latest_good() == old(self).latest_good(),
    {
        self.assembler.push(samples, timestamp)
    }

    /// Time since the session's first callback; see `FrameAssembler::elapsed`.
    pub fn elapsed(&self, timestamp: u64) -> (r: Option<u64>)
        ensures
            r == match self.origin() {
                Some(t) => if t <= timestamp {
                    Some((timestamp - t) as u64)
                } else {
                    None
                },
                None => None,
            },
    {
        self.assembler.elapsed(timestamp)
    }

    /// Whether a point at `elapsed_nanos` may be recorded now.
    pub fn accepts_time(&self, elapsed_nanos: u64) -> (r: bool)
        requires
            self.wf(),
        ensures
            r == self.in_order(elapsed_nanos),
    {
        let n = self.points.len();
        n == self.session_start || self.points[n - 1].elapsed_nanos <= elapsed_nanos
    }

    /// Appends one point to the trace; a non-NaN value becomes the last good
    /// pitch.
    pub fn record(&mut self, elapsed_nanos: u64, value: FloatBits)
        requires
            old(self).wf(),
            old(self).in_order(elapsed_nanos),
        ensures
            final(self).wf(),
            final(self).trace() == old(self).trace().push(PitchPoint { elapsed_nanos, value }),
            final(self).latest_good() == good_after(old(self).latest_good(), value),
            final(self).session_start() == old(self).session_start(),
            final(self).pending() == old(self).pending(),
            final(self).origin() == old(self).origin(),
    {
        self.points.push(PitchPoint { elapsed_nanos, value });
        if !nan(value) {
            self.last_good = Some(value);
        }
    }

    /// Per-frame filtering: records the estimate's frequency if its
    /// confidence reaches the threshold, NaN otherwise.
    pub fn submit(&mut self, p: Prediction, elapsed_nanos: u64, policy: &AcceptancePolicy)
        requires
            old(self).wf(),
            old(self).in_order(elapsed_nanos),
        ensures
            final(self).wf(),
            final(self).trace() == old(self).trace().push(
                PitchPoint { elapsed_nanos, value: frame_value(p, *policy) },
            ),
            final(self).latest_good() == good_after(old(self).latest_good(), frame_value(p, *policy)),
            final(self).session_start() == old(self).session_start(),
            final(self).pending() == old(self).pending(),
            final(self).origin() == old(self).origin(),
    {
        let value = display_value(&p, policy);
        self.record(elapsed_nanos, value);
    }

    /// Ends the capture session: its clock and buffered samples are dropped,
    /// and the next point starts the next session's part of the trace.
    pub fn reset(&mut self)
        requires
            old(self).wf(),
        ensures
            final(self).wf(),
            final(self).pending() == Seq::<i16>::empty(),
            final(self).origin() is None,
            final(self).trace() == old(self).trace(),
            final(self).session_start() == old(self).trace().len(),
            final(self).latest_good() == old(self).latest_good(),
    {
        self.assembler.reset();
        self.session_start = self.points.len();
    }

    /// The trace, oldest point first.
    pub fn points(&self) -> (r: &[PitchPoint])
        ensures
            r@ == self.trace(),
    {
        self.points.as_slice()
    }

    /// The most recent non-NaN value shown, if any.
    pub fn last_good(&self) -> (r: Option<FloatBits>)
        ensures
            r == self.latest_good(),
    {
        self.last_good
    }
}

} // verus!
