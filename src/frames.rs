//! Assembly of irregular sample chunks into fixed-size analysis frames.
use vstd::prelude::*;

use crate::SAMPLES_PER_STEP;

verus! {

/// Exactly `SAMPLES_PER_STEP` consecutive samples, consumed by one estimate.
pub struct AnalysisFrame {
    samples: Vec<i16>,
}

impl View for AnalysisFrame {
    type V = Seq<i16>;

    closed spec fn view(&self) -> Seq<i16> {
        self.samples@
    }
}

impl AnalysisFrame {
    #[verifier::type_invariant]
    spec fn full(self) -> bool {
        self.samples.len() == SAMPLES_PER_STEP
    }

    /// The frame's samples, oldest first.
    pub fn samples(&self) -> (r: &[i16])
        ensures
            r@ == self@,
            r@.len() == SAMPLES_PER_STEP,
    {
        proof {
            use_type_invariant(self);
        }
        self.samples.as_slice()
    }

    /// The frame's samples, as an owned vector.
    pub fn into_samples(self) -> (r: Vec<i16>)
        ensures
            r@ == self@,
            r@.len() == SAMPLES_PER_STEP,
    {
        proof {
            use_type_invariant(&self);
        }
        self.samples
    }
}

/// Appends `src[from..to]` to `dst`.
fn append_range(dst: &mut Vec<i16>, src: &[i16], from: usize, to: usize)
    requires
        from <= to <= src@.len(),
    ensures
        final(dst)@ == old(dst)@ + src@.subrange(from as int, to as int),
{
    let mut i: usize = from;
    while i < to
        invariant
            from <= i <= to <= src@.len(),
            dst@ == old(dst)@ + src@.subrange(from as int, i as int),
        decreases to - i,
    {
        dst.push(src[i]);
        assert(src@.subrange(from as int, i + 1) =~= src@.subrange(from as int, i as int).push(
            src@[i as int],
        ));
        i = i + 1;
    }
}

/// What the assembler does with the samples of one callback: the buffered
/// samples followed by the new ones.
pub open spec fn joined(pending: Seq<i16>, samples: Seq<i16>) -> Seq<i16> {
    pending + samples
}

/// The most recent `SAMPLES_PER_STEP` samples of `s`.
pub open spec fn freshest(s: Seq<i16>) -> Seq<i16>
    recommends
        s.len() >= SAMPLES_PER_STEP,
{
    s.subrange(s.len() - SAMPLES_PER_STEP, s.len() as int)
}

/// The clock origin after a callback at `timestamp`: the first timestamp of
/// the session is kept.
pub open spec fn latched(origin: Option<u64>, timestamp: u64) -> Option<u64> {
    match origin {
        Some(t) => Some(t),
        None => Some(timestamp),
    }
}

/// Collects samples into analysis frames and holds the session's clock
/// origin, the capture timestamp of its first callback.
///
/// Timestamps are capture instants in nanoseconds on a monotonic clock.
pub struct FrameAssembler {
    buffer: Vec<i16>,
    origin: Option<u64>,
}

impl FrameAssembler {
    /// Samples received and not yet part of a frame.
    pub closed spec fn pending(&self) -> Seq<i16> {
        self.buffer@
    }

    /// Timestamp of the session's first callback, if one came.
    pub closed spec fn origin(&self) -> Option<u64> {
        self.origin
    }

    /// Fewer than a frame's worth of samples is ever kept back.
    pub open spec fn wf(&self) -> bool {
        self.pending().len() < SAMPLES_PER_STEP
    }

    /// An assembler at the start of a session.
    pub fn new() -> (r: FrameAssembler)
        ensures
            r.wf(),
            r.pending() == Seq::<i16>::empty(),
            r.origin() is None,
    {
        FrameAssembler { buffer: Vec::new(), origin: None }
    }

    /// Takes one callback's samples. Once a frame's worth is buffered, the
    /// most recent `SAMPLES_PER_STEP` of them form the frame and the buffer is
    /// emptied, older samples included; otherwise all are kept for later.
    /// The first callback of a session sets the clock origin.
    pub fn push(&mut self, samples: &[i16], timestamp: u64) -> (r: Option<AnalysisFrame>)
        requires
            old(self).wf(),
        ensures
            final(self).wf(),
            final(self).origin() == latched(old(self).origin(), timestamp),
            joined(old(self).pending(), samples@).len() >= SAMPLES_PER_STEP ==> {
                &&& r is Some
                &&& r.unwrap()@ == freshest(joined(old(self).pending(), samples@))
                &&& final(self).pending() == Seq::<i16>::empty()
            },
            joined(old(self).pending(), samples@).len() < SAMPLES_PER_STEP ==> {
                &&& r is None
                &&& final(self).pending() == joined(old(self).pending(), samples@)
            },
    {
        if self.origin.is_none() {
            self.origin = Some(timestamp);
        }
        let held = self.buffer.len();
        let all = Ghost(joined(self.buffer@, samples@));
        if samples.len() >= SAMPLES_PER_STEP - held {
            let mut frame: Vec<i16> = Vec::new();
            if samples.len() >= SAMPLES_PER_STEP {
                append_range(&mut frame, samples, samples.len() - SAMPLES_PER_STEP, samples.len());
                assert(frame@ =~= freshest(all@));
            } else {
                let older = SAMPLES_PER_STEP - samples.len();
                append_range(&mut frame, self.buffer.as_slice(), held - older, held);
                append_range(&mut frame, samples, 0, samples.len());
                assert(frame@ =~= freshest(all@));
            }
            self.buffer = Vec::new();
            Some(AnalysisFrame { samples: frame })
        } else {
            append_range(&mut self.buffer, samples, 0, samples.len());
            assert(self.buffer@ =~= all@);
            None
        }
    }

    /// Time since the session's clock origin, or `None` before the first
    /// callback or for a timestamp earlier than the origin.
    pub fn elapsed(&self, timestamp: u64) -> (r: Option<u64>)
        ensures
            r == match self.origin() {
                Some(t) => if t <= timestamp {
                    Some((timestamp - t) as u64)
                } else {
                    None
                },
                None => None,
            },
    {
        match self.origin {
            Some(t) => if t <= timestamp {
                Some(timestamp - t)
            } else {
                None
            },
            None => None,
        }
    }

    /// Ends the session: the clock origin and any buffered samples are dropped.
    pub fn reset(&mut self)
        ensures
            final(self).wf(),
            final(self).pending() == Seq::<i16>::empty(),
            final(self).origin() is None,
    {
        self.buffer = Vec::new();
        self.origin = None;
    }
}

} // verus!
