//! Locating the peak of an activation vector and the window of bins that
//! the local-average decoding reads around it.
use vstd::prelude::*;

use crate::fbits::{is_zero, order_key, total_order_key, FloatBits, SIGN_MASK};
use crate::ACTIVATION_BINS;

verus! {

/// How far the decoding window reaches on each side of the peak.
pub const WINDOW_RADIUS: usize = 4;

/// Bin `i` holds a greatest value of `s` under `f32::total_cmp`, and no bin
/// before it does.
pub open spec fn is_peak(s: Seq<FloatBits>, i: int) -> bool {
    &&& 0 <= i < s.len()
    &&& forall|j: int| 0 <= j < s.len() ==> order_key(#[trigger] s[j]) <= order_key(s[i])
    &&& forall|j: int| 0 <= j < i ==> order_key(#[trigger] s[j]) < order_key(s[i])
}

/// First bin of the window around `center`, clipped at the lowest bin.
pub open spec fn window_start(center: int) -> int {
    if center >= WINDOW_RADIUS {
        center - WINDOW_RADIUS
    } else {
        0
    }
}

/// One past the last bin of the window around `center`, clipped at the
/// highest bin.
pub open spec fn window_end(center: int) -> int {
    if center + WINDOW_RADIUS + 1 <= ACTIVATION_BINS {
        center + WINDOW_RADIUS + 1
    } else {
        ACTIVATION_BINS as int
    }
}

/// A vector has at most one peak bin: the bin that decoding centers on is
/// fixed by the weights alone.
pub proof fn lemma_peak_unique(s: Seq<FloatBits>, i: int, j: int)
    requires
        is_peak(s, i),
        is_peak(s, j),
    ensures
        i == j,
{
    if i < j {
        assert(order_key(s[i]) < order_key(s[j]));
    } else if j < i {
        assert(order_key(s[j]) < order_key(s[i]));
    }
}

/// When the greatest weight occurs at exactly two bins, the lower of the
/// two is the peak and the higher is not.
pub proof fn lemma_tie_goes_to_lower_bin(s: Seq<FloatBits>, i: int, j: int)
    requires
        0 <= i < j < s.len(),
        s[i] == s[j],
        forall|k: int|
            0 <= k < s.len() && k != i && k != j ==> order_key(#[trigger] s[k]) < order_key(s[i]),
    ensures
        is_peak(s, i),
        !is_peak(s, j),
{
    assert(order_key(s[j]) == order_key(s[i]));
}

/// A weight that is `+0.0` or `-0.0` sits below every positive weight.
proof fn lemma_zero_key(b: FloatBits)
    requires
        is_zero(b),
    ensures
        order_key(b) <= 0,
{
    assert(b & 0x7fff_ffffu32 == 0 ==> b == 0 || b == 0x8000_0000u32) by (bit_vector);
}

/// With one nonzero weight of positive sign at bin `k` and zeros at every
/// other bin, `k` is the peak, and every other bin of its window weighs zero:
/// the window's weighted sum and the total weight each reduce to that one
/// weight's term.
pub proof fn lemma_single_bin_peak(s: Seq<FloatBits>, k: int)
    requires
        s.len() == ACTIVATION_BINS,
        0 <= k < s.len(),
        s[k] != 0,
        s[k] < SIGN_MASK,
        forall|j: int| 0 <= j < s.len() && j != k ==> is_zero(#[trigger] s[j]),
    ensures
        is_peak(s, k),
        forall|i: int| is_peak(s, i) ==> i == k,
        forall|j: int|
            window_start(k) <= j < window_end(k) && j != k ==> is_zero(#[trigger] s[j]),
{
    assert forall|j: int| 0 <= j < s.len() && j != k implies order_key(#[trigger] s[j]) < order_key(
        s[k],
    ) by {
        lemma_zero_key(s[j]);
    }
    assert forall|i: int| is_peak(s, i) implies i == k by {
        lemma_peak_unique(s, i, k);
    }
}

/// Every window lies inside the vector and holds its center; it spans
/// `2 * WINDOW_RADIUS + 1` bins unless the center is within
/// `WINDOW_RADIUS` bins of either end, where it is cut short on that side.
pub proof fn lemma_window_in_bounds(center: int)
    requires
        0 <= center < ACTIVATION_BINS,
    ensures
        0 <= window_start(center) <= center < window_end(center) <= ACTIVATION_BINS,
        window_end(center) - window_start(center) <= 2 * WINDOW_RADIUS + 1,
        WINDOW_RADIUS <= center < ACTIVATION_BINS - WINDOW_RADIUS ==> window_end(center)
            - window_start(center) == 2 * WINDOW_RADIUS + 1,
        center < WINDOW_RADIUS ==> window_start(center) == 0,
        center >= ACTIVATION_BINS - WINDOW_RADIUS ==> window_end(center) == ACTIVATION_BINS,
{
}

/// Index of the greatest value, ties going to the lowest index; `None` for
/// an empty slice. Values are ordered as `f32::total_cmp` orders them.
pub fn argmax(values: &[FloatBits]) -> (r: Option<usize>)
    ensures
        r is None <==> values@.len() == 0,
        r matches Some(i) ==> is_peak(values@, i as int),
{
    if values.len() == 0 {
        return None;
    }
    let mut best: usize = 0;
    let mut best_key: i64 = total_order_key(values[0]);
    let mut i: usize = 1;
    while i < values.len()
        invariant
            0 <= best < i <= values@.len(),
            best_key == order_key(values@[best as int]),
            forall|j: int| 0 <= j < i ==> order_key(#[trigger] values@[j]) <= best_key,
            forall|j: int| 0 <= j < best ==> order_key(#[trigger] values@[j]) < best_key,
        decreases values@.len() - i,
    {
        let key = total_order_key(values[i]);
        if key > best_key {
            best = i;
            best_key = key;
        }
        i = i + 1;
    }
    Some(best)
}

/// The window `[start, end)` of bins around `center`: up to
/// `WINDOW_RADIUS` bins on each side, narrower at either end of the vector.
pub fn local_window(center: usize) -> (r: (usize, usize))
    requires
        center < ACTIVATION_BINS,
    ensures
        r.0 == window_start(center as int),
        r.1 == window_end(center as int),
        r.0 <= center < r.1 <= ACTIVATION_BINS,
{
    let start = center.saturating_sub(WINDOW_RADIUS);
    let end = if center + WINDOW_RADIUS + 1 <= ACTIVATION_BINS {
        center + WINDOW_RADIUS + 1
    } else {
        ACTIVATION_BINS
    };
    (start, end)
}

/// Why no activation vector came out of the inference engine for a frame.
#[derive(Debug)]
pub enum InferenceError {
    /// The engine's output does not hold `ACTIVATION_BINS` values.
    WrongLength { len: usize },
    /// The engine reported a failure.
    Engine { message: String },
}

/// One weight per pitch bin, as produced by the model for one frame.
pub struct ActivationVector {
    bins: Vec<FloatBits>,
}

impl View for ActivationVector {
    type V = Seq<FloatBits>;

    closed spec fn view(&self) -> Seq<FloatBits> {
        self.bins@
    }
}

/// Where the weight of an activation vector peaks, and which bins the
/// decoding reads.
#[derive(Clone, Copy, Debug, PartialEq, Eq, Structural)]
pub struct Peak {
    /// The peak bin.
    pub center: usize,
    /// First bin of the window.
    pub start: usize,
    /// One past the last bin of the window.
    pub end: usize,
    /// The weight at the peak, the estimate's confidence.
    pub confidence: FloatBits,
}

impl ActivationVector {
    #[verifier::type_invariant]
    spec fn complete(self) -> bool {
        self.bins.len() == ACTIVATION_BINS
    }

    /// Takes the engine's output, refusing it unless it has exactly one value
    /// per pitch bin.
    pub fn new(bins: Vec<FloatBits>) -> (r: Result<ActivationVector, InferenceError>)
        ensures
            bins@.len() == ACTIVATION_BINS ==> (r matches Ok(a) && a@ == bins@),
            bins@.len() != ACTIVATION_BINS ==> (r matches Err(InferenceError::WrongLength { len })
                && len == bins@.len()),
    {
        if bins.len() == ACTIVATION_BINS {
            Ok(ActivationVector { bins })
        } else {
            let len = bins.len();
            Err(InferenceError::WrongLength { len })
        }
    }

    /// The weights, lowest bin first.
    pub fn bins(&self) -> (r: &[FloatBits])
        ensures
            r@ == self@,
            r@.len() == ACTIVATION_BINS,
    {
        proof {
            use_type_invariant(self);
        }
        self.bins.as_slice()
    }

    /// The peak bin (the first greatest weight), its window and its weight.
    pub fn peak(&self) -> (r: Peak)
        ensures
            self@.len() == ACTIVATION_BINS,
            is_peak(self@, r.center as int),
            r.start == window_start(r.center as int),
            r.end == window_end(r.center as int),
            r.start <= r.center < r.end <= ACTIVATION_BINS,
            r.confidence == self@[r.center as int],
    {
        proof {
            use_type_invariant(self);
        }
        let center = match argmax(self.bins.as_slice()) {
            Some(c) => c,
            None => 0,
        };
        let (start, end) = local_window(center);
        Peak { center, start, end, confidence: self.bins[center] }
    }
}

} // verus!
