//! Acceptance of per-frame estimates and grouping of frames into display
//! ticks.
use vstd::prelude::*;

use crate::fbits::{float_le, le, FloatBits, NAN_BITS};

verus! {

/// The estimate decoded from one analysis frame.
#[derive(Clone, Copy, Debug, PartialEq, Eq, Structural)]
pub struct Prediction {
    /// Frequency in Hz; NaN when the activation carried no weight.
    pub frequency: FloatBits,
    /// The peak activation weight.
    pub confidence: FloatBits,
}

/// Which estimates count as a pitch, as configured by the user.
#[derive(Clone, Copy, Debug, PartialEq, Eq, Structural)]
pub struct AcceptancePolicy {
    /// Least confidence of an accepted estimate.
    pub confidence_threshold: FloatBits,
    /// Lowest accepted frequency in Hz.
    pub min_hz: FloatBits,
    /// Highest accepted frequency in Hz.
    pub max_hz: FloatBits,
}

/// The confidence reaches the threshold (never so for a NaN on either side).
pub open spec fn is_confident(p: Prediction, policy: AcceptancePolicy) -> bool {
    float_le(policy.confidence_threshold, p.confidence)
}

/// The estimate is confident enough and its frequency lies in
/// `[min_hz, max_hz]`; a NaN frequency lies in no interval.
pub open spec fn is_accepted(p: Prediction, policy: AcceptancePolicy) -> bool {
    &&& is_confident(p, policy)
    &&& float_le(policy.min_hz, p.frequency)
    &&& float_le(p.frequency, policy.max_hz)
}

/// The value shown for a single frame: its frequency when confident,
/// NaN otherwise.
pub open spec fn frame_value(p: Prediction, policy: AcceptancePolicy) -> FloatBits {
    if is_confident(p, policy) {
        p.frequency
    } else {
        NAN_BITS
    }
}

/// Whether `p`'s confidence reaches the policy's threshold.
pub fn confident(p: &Prediction, policy: &AcceptancePolicy) -> (r: bool)
    ensures
        r == is_confident(*p, *policy),
{
    le(policy.confidence_threshold, p.confidence)
}

/// Whether `p` passes both the confidence and the frequency criteria.
pub fn accepts(p: &Prediction, policy: &AcceptancePolicy) -> (r: bool)
    ensures
        r == is_accepted(*p, *policy),
{
    confident(p, policy) && le(policy.min_hz, p.frequency) && le(p.frequency, policy.max_hz)
}

/// Per-frame filtering: the display value for one estimate.
pub fn display_value(p: &Prediction, policy: &AcceptancePolicy) -> (r: FloatBits)
    ensures
        r == frame_value(*p, *policy),
{
    if confident(p, policy) {
        p.frequency
    } else {
        NAN_BITS
    }
}

/// The frequencies kept of a batch after `p` joins it.
pub open spec fn kept_after(
    kept: Seq<FloatBits>,
    p: Prediction,
    policy: AcceptancePolicy,
) -> Seq<FloatBits> {
    if is_accepted(p, policy) {
        kept.push(p.frequency)
    } else {
        kept
    }
}

/// Groups consecutive estimates into batches of a fixed size, one batch per
/// display tick, keeping the frequencies of those that the policy accepts.
pub struct FrameAverager {
    frames_per_tick: usize,
    seen: usize,
    kept: Vec<FloatBits>,
}

impl FrameAverager {
    /// Estimates per display tick.
    pub closed spec fn frames_per_tick(&self) -> nat {
        self.frames_per_tick as nat
    }

    /// Estimates in the current, unfinished batch.
    pub closed spec fn seen(&self) -> nat {
        self.seen as nat
    }

    /// Accepted frequencies of the current batch, in arrival order.
    pub closed spec fn kept(&self) -> Seq<FloatBits> {
        self.kept@
    }

    pub open spec fn wf(&self) -> bool {
        &&& 0 < self.frames_per_tick()
        &&& self.seen() < self.frames_per_tick()
        &&& self.kept().len() <= self.seen()
    }

    /// An averager with an empty batch, emitting once per `frames_per_tick`
    /// estimates.
    pub fn new(frames_per_tick: usize) -> (r: FrameAverager)
        requires
            frames_per_tick > 0,
        ensures
            r.wf(),
            r.frames_per_tick() == frames_per_tick,
            r.seen() == 0,
            r.kept() == Seq::<FloatBits>::empty(),
    {
        FrameAverager { frames_per_tick, seen: 0, kept: Vec::new() }
    }

    /// Adds one estimate, judged by the policy of its own submission. When
    /// it completes the batch, returns the batch's accepted frequencies
    /// (possibly none) and starts a new batch.
    pub fn offer(&mut self, p: Prediction, policy: &AcceptancePolicy) -> (r: Option<Vec<FloatBits>>)
        requires
            old(self).wf(),
        ensures
            final(self).wf(),
            final(self).frames_per_tick() == old(self).frames_per_tick(),
            old(self).seen() + 1 == old(self).frames_per_tick() ==> {
                &&& r matches Some(v)
                &&& v@ == kept_after(old(self).kept(), p, *policy)
                &&& final(self).seen() == 0
                &&& final(self).kept() == Seq::<FloatBits>::empty()
            },
            old(self).seen() + 1 < old(self).frames_per_tick() ==> {
                &&& r is None
                &&& final(self).seen() == old(self).seen() + 1
                &&& final(self).kept() == kept_after(old(self).kept(), p, *policy)
            },
    {
        if accepts(&p, policy) {
            self.kept.push(p.frequency);
        }
        self.seen = self.seen + 1;
        if self.seen == self.frames_per_tick {
            let mut batch: Vec<FloatBits> = Vec::new();
            std::mem::swap(&mut batch, &mut self.kept);
            self.seen = 0;
            Some(batch)
        } else {
            None
        }
    }

    /// Drops the unfinished batch.
    pub fn clear(&mut self)
        requires
            old(self).wf(),
        ensures
            final(self).wf(),
            final(self).frames_per_tick() == old(self).frames_per_tick(),
            final(self).seen() == 0,
            final(self).kept() == Seq::<FloatBits>::empty(),
    {
        self.seen = 0;
        self.kept = Vec::new();
    }
}

} // verus!
