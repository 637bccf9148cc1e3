//! The two playback rates and what follows from them: how long a frame
//! stays on screen, and which decoded frames are kept.
use vstd::prelude::*;

verus! {

/// Nanoseconds in one second.
pub const NANOS_PER_SECOND: u64 = 1_000_000_000;

/// The rate at which frames are shown.
///
/// Sources are taken to be recorded at sixty frames per second, so the
/// lower rate is reached by dropping every other decoded frame.
#[derive(Debug, Clone, Copy, PartialEq, Eq, Structural)]
pub enum FrameRate {
    Fps30,
    Fps60,
}

impl FrameRate {
    /// Frames shown per second.
    pub open spec fn fps(self) -> nat {
        match self {
            FrameRate::Fps30 => 30,
            FrameRate::Fps60 => 60,
        }
    }

    /// The time one frame stays on screen, in nanoseconds: the
    /// single-precision reciprocal of the rate, to the nearest nanosecond.
    pub open spec fn period_nanos(self) -> nat {
        match self {
            FrameRate::Fps30 => 33_333_335,
            FrameRate::Fps60 => 16_666_668,
        }
    }

    /// Whether the decoded frame at 1-based `position` is kept.
    ///
    /// The higher rate keeps every frame; the lower rate skips the odd
    /// positions.
    pub open spec fn keeps(self, position: nat) -> bool {
        match self {
            FrameRate::Fps30 => position % 2 == 0,
            FrameRate::Fps60 => true,
        }
    }

    /// How many of the first `decoded` frames are kept.
    pub open spec fn kept(self, decoded: nat) -> nat {
        match self {
            FrameRate::Fps30 => decoded / 2,
            FrameRate::Fps60 => decoded,
        }
    }

    /// Frames shown per second.
    pub fn frames_per_second(&self) -> (fps: u8)
        ensures
            fps == self.fps(),
    {
        match self {
            FrameRate::Fps30 => 30,
            FrameRate::Fps60 => 60,
        }
    }

    /// The time one frame stays on screen, in nanoseconds.
    pub fn period(&self) -> (nanos: u64)
        ensures
            nanos == self.period_nanos(),
            nanos * self.fps() >= NANOS_PER_SECOND,
    {
        match self {
            FrameRate::Fps30 => 33_333_335,
            FrameRate::Fps60 => 16_666_668,
        }
    }
}

/// `kept` counts the positions that `keeps` holds of: none of no frames, and
/// one more for each further position that is kept.
pub proof fn lemma_kept_counts_keeps(rate: FrameRate, decoded: nat)
    ensures
        rate.kept(0) == 0,
        rate.kept(decoded + 1) == rate.kept(decoded) + if rate.keeps(decoded + 1) {
            1nat
        } else {
            0nat
        },
{
}

/// A period is never shorter than the time a frame is due at the rate, and
/// longer by less than two nanoseconds.
pub proof fn lemma_period_covers_frame(rate: FrameRate)
    ensures
        rate.period_nanos() * rate.fps() >= NANOS_PER_SECOND,
        (rate.period_nanos() - 2) * rate.fps() < NANOS_PER_SECOND,
{
}

} // verus!
