//! The playback driver: which frame is shown next, what is written for it,
//! and how long it stays.
//!
//! The driver renders nothing and never sleeps. It names the frame to
//! render, takes the glyph grid that the renderer made of it, and answers
//! with a [`Beat`]: the text to write and the pause to make after it. The
//! pause is always the full period of the rate; time spent rendering is not
//! taken off, so playback runs late by what rendering costs.
use vstd::prelude::*;
use crate::rate::{FrameRate, NANOS_PER_SECOND};
use crate::screen::{rectangular, rows, screen, screen_text};

verus! {

/// What a [`Playback`] holds.
pub struct PlaybackView {
    pub rate: FrameRate,
    /// Frames in the sequence.
    pub total: nat,
    /// Frames shown so far.
    pub shown: nat,
}

impl PlaybackView {
    /// A playback of `total` frames of which none is shown yet.
    pub open spec fn init(total: nat, rate: FrameRate) -> PlaybackView {
        PlaybackView { rate, total, shown: 0 }
    }

    /// Frames remain; otherwise the playback is done.
    pub open spec fn playing(self) -> bool {
        self.shown < self.total
    }

    /// The index of the frame to render next, if one remains.
    pub open spec fn pending(self) -> Option<nat> {
        if self.playing() {
            Some(self.shown)
        } else {
            None
        }
    }

    /// The playback after the pending frame is shown. A playback that is
    /// done stays as it is.
    pub open spec fn advance(self) -> PlaybackView {
        if self.playing() {
            PlaybackView { shown: self.shown + 1, ..self }
        } else {
            self
        }
    }

    /// The playback after `beats` frames were presented to it.
    pub open spec fn after(self, beats: nat) -> PlaybackView
        decreases beats,
    {
        if beats == 0 {
            self
        } else {
            self.after((beats - 1) as nat).advance()
        }
    }
}

/// What to do for one frame.
pub struct Beat {
    /// Index of the frame that is shown.
    pub frame: usize,
    /// The text to write to the terminal.
    pub text: Vec<char>,
    /// How long to block after writing, in nanoseconds.
    pub pause: u64,
}

/// A playback under way.
pub struct Playback {
    rate: FrameRate,
    total: usize,
    shown: usize,
}

impl View for Playback {
    type V = PlaybackView;

    closed spec fn view(&self) -> PlaybackView {
        PlaybackView { rate: self.rate, total: self.total as nat, shown: self.shown as nat }
    }
}

impl Playback {
    #[verifier::type_invariant]
    spec fn well_formed(self) -> bool {
        self.shown <= self.total
    }

    /// Begins the playback of `total` frames at `rate`.
    pub fn new(total: usize, rate: FrameRate) -> (playback: Playback)
        ensures
            playback@ == PlaybackView::init(total as nat, rate),
    {
        Playback { rate, total, shown: 0 }
    }

    /// The index of the frame to render next, or `None` when the playback
    /// is done.
    pub fn pending(&self) -> (frame: Option<usize>)
        ensures
            frame.is_some() == self@.playing(),
            frame matches Some(index) ==> self@.pending() == Some(index as nat),
            self@.shown <= self@.total,
    {
        proof {
            use_type_invariant(self);
        }
        if self.shown < self.total {
            Some(self.shown)
        } else {
            None
        }
    }

    /// Takes the rendering of the pending frame and moves on to the next.
    ///
    /// The answer says what to write and how long to block afterwards. A
    /// playback that is done answers `None` and stays as it is.
    pub fn present(&mut self, grid: &Vec<Vec<char>>) -> (beat: Option<Beat>)
        requires
            rectangular(rows(grid@)),
        ensures
            final(self)@ == old(self)@.advance(),
            beat.is_some() == old(self)@.playing(),
            beat matches Some(b) ==> {
                &&& b.frame == old(self)@.shown
                &&& b.text@ == screen(rows(grid@))
                &&& b.pause == old(self)@.rate.period_nanos()
                &&& b.pause * old(self)@.rate.fps() >= NANOS_PER_SECOND
            },
    {
        proof {
            use_type_invariant(&*self);
        }
        if self.shown < self.total {
            let frame = self.shown;
            self.shown = self.shown + 1;
            Some(Beat { frame, text: screen_text(grid), pause: self.rate.period() })
        } else {
            None
        }
    }
}

/// Frames are shown strictly in the order of the sequence, one per beat:
/// the beat after `beats` earlier ones shows frame `beats`, and after
/// `total` beats the playback is done. So a playback of `total` frames makes
/// `total` pauses, each of the full period, which is never shorter than the
/// time a frame is due at the rate.
pub proof fn lemma_playback_in_order(total: nat, rate: FrameRate, beats: nat)
    ensures
        PlaybackView::init(total, rate).after(beats).rate == rate,
        PlaybackView::init(total, rate).after(beats).total == total,
        beats <= total ==> PlaybackView::init(total, rate).after(beats).shown == beats,
        beats < total ==> PlaybackView::init(total, rate).after(beats).pending() == Some(beats),
        beats >= total ==> PlaybackView::init(total, rate).after(beats).pending() is None,
        rate.period_nanos() * rate.fps() >= NANOS_PER_SECOND,
    decreases beats,
{
    if beats > 0 {
        lemma_playback_in_order(total, rate, (beats - 1) as nat);
    }
}

} // verus!
