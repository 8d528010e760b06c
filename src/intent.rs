//! Reduction of a motion-sample series to a labelled intent, and the size
//! accounting of the compact descriptor.
use vstd::prelude::*;

verus! {

/// Bytes one sample takes before compression: three 8-byte coordinates.
pub const BYTES_PER_SAMPLE: u64 = 24;

/// Bytes of the compact descriptor.
pub const DESCRIPTOR_BYTES: u64 = 8;

/// The coarse label of a motion.
#[derive(PartialEq, Eq, Structural, Clone, Copy, Debug)]
pub enum Intent {
    Idle,
    Grasp,
    Release,
    Traverse,
    Reach,
}

/// What the classification reads of a motion, each fact measured against its
/// threshold: the net displacement is below the idle floor; it is short; the
/// average speed is low; the rise along z dominates the displacement; the
/// displacement is long.
#[derive(Clone, Copy, Debug)]
pub struct MotionTraits {
    pub nearly_still: bool,
    pub short: bool,
    pub slow: bool,
    pub rising: bool,
    pub long: bool,
}

/// The intent of a motion: the first rule that applies, in priority order.
pub open spec fn intent_of(t: MotionTraits) -> Intent {
    if t.nearly_still {
        Intent::Idle
    } else if t.short && t.slow {
        Intent::Grasp
    } else if t.rising {
        Intent::Release
    } else if t.long {
        Intent::Traverse
    } else {
        Intent::Reach
    }
}

/// The label under which an intent is reported.
pub open spec fn label_of(i: Intent) -> Seq<char> {
    match i {
        Intent::Idle => "idle"@,
        Intent::Grasp => "grasp"@,
        Intent::Release => "release"@,
        Intent::Traverse => "traverse"@,
        Intent::Reach => "reach"@,
    }
}

/// Classifies a motion by its traits.
pub fn classify(t: &MotionTraits) -> (r: Intent)
    ensures
        r == intent_of(*t),
{
    if t.nearly_still {
        Intent::Idle
    } else if t.short && t.slow {
        Intent::Grasp
    } else if t.rising {
        Intent::Release
    } else if t.long {
        Intent::Traverse
    } else {
        Intent::Reach
    }
}

impl Intent {
    /// The label of this intent.
    pub fn label(&self) -> (r: String)
        ensures
            r@ == label_of(*self),
    {
        match self {
            Intent::Idle => "idle".to_string(),
            Intent::Grasp => "grasp".to_string(),
            Intent::Release => "release".to_string(),
            Intent::Traverse => "traverse".to_string(),
            Intent::Reach => "reach".to_string(),
        }
    }
}

/// A motion with no net displacement is idle, whatever its other traits.
pub proof fn lemma_still_motion_is_idle(t: MotionTraits)
    requires
        t.nearly_still,
    ensures
        intent_of(t) == Intent::Idle,
        label_of(intent_of(t)) == "idle"@,
{
}

/// Size accounting of one compression.
#[derive(Clone, Copy, Debug)]
pub struct Compression {
    pub original_samples: usize,
    pub original_bytes: u128,
    pub compressed_bytes: u64,
    /// Original bytes per compressed byte; zero when nothing was compressed.
    pub ratio: u128,
}

/// The accounting of a series of `n` samples: `24n` bytes in, a fixed 8-byte
/// descriptor out, and a ratio of exactly `3n`; an empty series has no
/// descriptor and a ratio of zero.
pub fn compression_for(n: usize) -> (r: Compression)
    ensures
        r.original_samples == n,
        r.original_bytes == BYTES_PER_SAMPLE * n,
        n == 0 ==> r.compressed_bytes == 0 && r.ratio == 0,
        n > 0 ==> r.compressed_bytes == DESCRIPTOR_BYTES && r.ratio == 3 * n,
        n > 0 ==> r.ratio * r.compressed_bytes == r.original_bytes,
{
    let samples: u128 = n as u128;
    let original_bytes: u128 = samples * (BYTES_PER_SAMPLE as u128);
    assert(original_bytes == 24 * n) by (nonlinear_arith)
        requires
            original_bytes == samples * 24,
            samples == n,
    ;
    assert((24 * n) / 8 == 3 * n) by (nonlinear_arith);
    if n == 0 {
        Compression { original_samples: 0, original_bytes, compressed_bytes: 0, ratio: 0 }
    } else {
        Compression {
            original_samples: n,
            original_bytes,
            compressed_bytes: DESCRIPTOR_BYTES,
            ratio: original_bytes / (DESCRIPTOR_BYTES as u128),
        }
    }
}

} // verus!
