//! Real-time pitch tracking: frame assembly, peak decoding and the
//! confidence-filtered pitch trace, with the numeric work on floats and the
//! inference engine left to the host program.
use vstd::prelude::*;

pub mod fbits;
pub mod frames;
pub mod decoder;
pub mod filter;
pub mod session;

verus! {

/// The audio sample rate that the pitch model expects.
pub const SAMPLE_RATE: u32 = 16_000;

/// The number of samples that one pitch estimate is computed from.
pub const SAMPLES_PER_STEP: usize = 1024;

/// The number of pitch bins in one activation vector.
pub const ACTIVATION_BINS: usize = 360;

} // verus!
