//! The frame source: from an opened container to a sequence of frames.
//!
//! The source never touches the decoding library itself. It is a state
//! machine that tells its caller what to do next ([`Request`]) and is told
//! what came of it ([`Event`]). The caller holds the container, the decoder
//! and the scaler; the machine holds the order of the steps, the choice of
//! packets and frames, and the frames collected so far.
use vstd::prelude::*;
use crate::error::ExtractError;
use crate::frame::{holds_lines, lemma_packed_len, packed, rgb_len, Frame, FrameView};
use crate::rate::FrameRate;

verus! {

/// Where an extraction stands: which request is pending.
#[derive(Debug, Clone, Copy, PartialEq, Eq, Structural)]
pub enum Phase {
    Init,
    Open,
    Select,
    Decoder,
    Scaler,
    Read,
    Send,
    Receive,
    Convert,
    Flush,
}

/// What the caller is asked to do.
#[derive(Debug, Clone, Copy, PartialEq, Eq, Structural)]
pub enum Request {
    /// Set up the decoding library and silence its informational output.
    InitLibrary,
    /// Open the container.
    OpenContainer,
    /// Look for the best video stream of the container.
    FindVideoStream,
    /// Set up a decoder from the parameters of stream `stream`.
    OpenDecoder { stream: usize },
    /// Set up a bilinear scaler from the decoder's pixel format to packed
    /// RGB, with `width` x `height` on both sides.
    OpenScaler { width: u32, height: u32 },
    /// Read the next packet of the container.
    ReadPacket,
    /// Send the packet just read to the decoder.
    SendPacket,
    /// Ask the decoder for its next frame.
    ReceiveFrame,
    /// Run the scaler on the frame just received.
    ConvertFrame,
    /// Tell the decoder that the stream has ended.
    SendEof,
}

/// What came of a request.
pub enum Event {
    /// The request succeeded and has nothing to report.
    Done,
    /// The request failed.
    Failed,
    /// The index of the best video stream, if there is one.
    Stream(Option<usize>),
    /// The decoder is set up; its frames are `width` x `height`.
    Decoder { width: u32, height: u32 },
    /// The stream index of the packet read, or `None` after the last packet.
    Packet(Option<usize>),
    /// The scaler's output: its size, the distance in bytes from one line of
    /// its first plane to the next, and the bytes of that plane.
    Converted { width: u32, height: u32, stride: usize, data: Vec<u8> },
}

/// All of `frames` are `width` x `height` and hold three bytes for each of
/// their pixels, and no others.
pub open spec fn uniform(frames: Seq<FrameView>, width: nat, height: nat) -> bool {
    forall|i: int|
        0 <= i < frames.len() ==> {
            &&& (#[trigger] frames[i]).wf()
            &&& frames[i].width == width
            &&& frames[i].height == height
            &&& frames[i].data.len() == rgb_len(width, height)
        }
}

/// The views of `frames`, in order.
pub open spec fn frame_views(frames: Seq<Frame>) -> Seq<FrameView> {
    frames.map_values(|f: Frame| f@)
}

/// What an [`Extraction`] holds.
pub struct ExtractionView {
    pub rate: FrameRate,
    pub phase: Phase,
    /// Index of the selected video stream, once one is selected.
    pub stream: usize,
    /// Frame width, once the decoder is set up.
    pub width: u32,
    /// Frame height, once the decoder is set up.
    pub height: u32,
    /// Frames received from the decoder so far; the last one received is at
    /// position `decoded`, counting from one.
    pub decoded: nat,
    /// Frames collected so far.
    pub frames: Seq<FrameView>,
}

/// What one step of an extraction leads to.
pub enum StepView {
    Continue(ExtractionView),
    Finished(Seq<FrameView>),
    Failed(ExtractError),
}

impl ExtractionView {
    /// An extraction that has not begun.
    pub open spec fn init(rate: FrameRate) -> ExtractionView {
        ExtractionView {
            rate,
            phase: Phase::Init,
            stream: 0,
            width: 0,
            height: 0,
            decoded: 0,
            frames: Seq::empty(),
        }
    }

    /// The same extraction in another phase.
    pub open spec fn at(self, phase: Phase) -> ExtractionView {
        ExtractionView { phase, ..self }
    }

    /// The request that is pending.
    pub open spec fn request(self) -> Request {
        match self.phase {
            Phase::Init => Request::InitLibrary,
            Phase::Open => Request::OpenContainer,
            Phase::Select => Request::FindVideoStream,
            Phase::Decoder => Request::OpenDecoder { stream: self.stream },
            Phase::Scaler => Request::OpenScaler { width: self.width, height: self.height },
            Phase::Read => Request::ReadPacket,
            Phase::Send => Request::SendPacket,
            Phase::Receive => Request::ReceiveFrame,
            Phase::Convert => Request::ConvertFrame,
            Phase::Flush => Request::SendEof,
        }
    }

    /// Whether a converted frame of this size is taken, given the distance
    /// between the lines of its plane and the length of the plane: it has
    /// the size the scaler was set up with, and the plane holds its lines.
    pub open spec fn accepts(self, width: u32, height: u32, stride: usize, len: nat) -> bool {
        &&& width == self.width
        &&& height == self.height
        &&& holds_lines(width as nat, height as nat, stride as nat, len)
    }

    /// The step that `event` leads to.
    ///
    /// Setup runs in a fixed order and stops at the first failure. Packets
    /// of other streams are passed over. After each packet sent, the decoder
    /// is drained: every frame received is counted, and the ones the rate
    /// keeps are converted and collected, each as the pixels of its plane
    /// without the padding of the lines. When the container is exhausted
    /// the decoder is told so, and the frames collected are the result; what
    /// the decoder still holds then is not asked for.
    pub open spec fn next(self, event: Event) -> StepView {
        match (self.phase, event) {
            (Phase::Init, Event::Done) => StepView::Continue(self.at(Phase::Open)),
            (Phase::Init, Event::Failed) => StepView::Failed(ExtractError::Init),
            (Phase::Open, Event::Done) => StepView::Continue(self.at(Phase::Select)),
            (Phase::Open, Event::Failed) => StepView::Failed(ExtractError::Container),
            (Phase::Select, Event::Stream(Some(index))) => StepView::Continue(
                ExtractionView { phase: Phase::Decoder, stream: index, ..self },
            ),
            (Phase::Select, Event::Stream(None)) => StepView::Failed(
                ExtractError::NoVideoStream,
            ),
            (Phase::Decoder, Event::Decoder { width, height }) => StepView::Continue(
                ExtractionView { phase: Phase::Scaler, width, height, ..self },
            ),
            (Phase::Decoder, Event::Failed) => StepView::Failed(ExtractError::Codec),
            (Phase::Scaler, Event::Done) => StepView::Continue(self.at(Phase::Read)),
            (Phase::Scaler, Event::Failed) => StepView::Failed(ExtractError::Scale),
            (Phase::Read, Event::Packet(Some(index))) => StepView::Continue(
                self.at(
                    if index == self.stream {
                        Phase::Send
                    } else {
                        Phase::Read
                    },
                ),
            ),
            (Phase::Read, Event::Packet(None)) => StepView::Continue(self.at(Phase::Flush)),
            (Phase::Send, Event::Done) => StepView::Continue(self.at(Phase::Receive)),
            (Phase::Send, Event::Failed) => StepView::Failed(ExtractError::Decode),
            (Phase::Receive, Event::Done) => StepView::Continue(
                ExtractionView {
                    phase: if self.rate.keeps(self.decoded + 1) {
                        Phase::Convert
                    } else {
                        Phase::Receive
                    },
                    decoded: self.decoded + 1,
                    ..self
                },
            ),
            (Phase::Receive, Event::Failed) => StepView::Continue(self.at(Phase::Read)),
            (Phase::Convert, Event::Converted { width, height, stride, data }) => if self.accepts(
                width,
                height,
                stride,
                data@.len(),
            ) {
                StepView::Continue(
                    ExtractionView {
                        phase: Phase::Receive,
                        frames: self.frames.push(
                            FrameView {
                                width: width as nat,
                                height: height as nat,
                                data: packed(
                                    width as nat,
                                    height as nat,
                                    stride as nat,
                                    data@,
                                ),
                            },
                        ),
                        ..self
                    },
                )
            } else {
                StepView::Failed(ExtractError::PixelBuffer)
            },
            (Phase::Convert, Event::Failed) => StepView::Failed(ExtractError::Scale),
            (Phase::Flush, Event::Done) => StepView::Finished(self.frames),
            (Phase::Flush, Event::Failed) => StepView::Failed(ExtractError::Decode),
            _ => StepView::Failed(ExtractError::OutOfOrder),
        }
    }

    /// What holds of every extraction: the frames collected are of one
    /// size, and there are as many of them as the rate keeps of the frames
    /// received.
    pub open spec fn inv(self) -> bool {
        &&& uniform(self.frames, self.width as nat, self.height as nat)
        &&& match self.phase {
            Phase::Init | Phase::Open | Phase::Select | Phase::Decoder | Phase::Scaler => {
                &&& self.decoded == 0
                &&& self.frames.len() == 0
            },
            Phase::Convert => {
                &&& self.rate.keeps(self.decoded)
                &&& self.frames.len() + 1 == self.rate.kept(self.decoded)
            },
            Phase::Read | Phase::Send | Phase::Receive | Phase::Flush => {
                self.frames.len() == self.rate.kept(self.decoded)
            },
        }
    }
}

/// Every step keeps [`ExtractionView::inv`].
pub proof fn lemma_next_keeps_inv(s: ExtractionView, event: Event)
    requires
        s.inv(),
    ensures
        s.next(event) matches StepView::Continue(t) ==> t.inv() && t.rate == s.rate,
        s.next(event) matches StepView::Finished(frames) ==> frames == s.frames,
{
    if let Event::Converted { width, height, stride, data } = event {
        if s.accepts(width, height, stride, data@.len()) {
            lemma_packed_len(width as nat, height as nat, stride as nat, data@);
        }
    }
}

/// An extraction under way.
pub struct Extraction {
    rate: FrameRate,
    phase: Phase,
    stream: usize,
    width: u32,
    height: u32,
    /// Whether the number of frames received so far is odd.
    odd: bool,
    decoded: Ghost<nat>,
    frames: Vec<Frame>,
}

impl View for Extraction {
    type V = ExtractionView;

    closed spec fn view(&self) -> ExtractionView {
        ExtractionView {
            rate: self.rate,
            phase: self.phase,
            stream: self.stream,
            width: self.width,
            height: self.height,
            decoded: self.decoded@,
            frames: frame_views(self.frames@),
        }
    }
}

/// What one step of an extraction leads to.
pub enum Step {
    /// The extraction goes on: perform its pending request.
    Continue(Extraction),
    /// The extraction is complete: these are its frames.
    Finished(Vec<Frame>),
    /// The extraction failed and its frames are gone.
    Failed(ExtractError),
}

impl View for Step {
    type V = StepView;

    open spec fn view(&self) -> StepView {
        match self {
            Step::Continue(extraction) => StepView::Continue(extraction@),
            Step::Finished(frames) => StepView::Finished(frame_views(frames@)),
            Step::Failed(error) => StepView::Failed(*error),
        }
    }
}

impl Extraction {
    #[verifier::type_invariant]
    spec fn well_formed(self) -> bool {
        &&& self@.inv()
        &&& self.odd <==> self.decoded@ % 2 == 1
    }

    /// Begins an extraction at `rate`. Nothing has been asked of the caller
    /// yet; the first request is to set up the decoding library.
    pub fn new(rate: FrameRate) -> (extraction: Extraction)
        ensures
            extraction@ == ExtractionView::init(rate),
    {
        let extraction = Extraction {
            rate,
            phase: Phase::Init,
            stream: 0,
            width: 0,
            height: 0,
            odd: false,
            decoded: Ghost(0),
            frames: Vec::new(),
        };
        assert(frame_views(extraction.frames@) =~= Seq::empty());
        extraction
    }

    /// The rate the extraction samples at.
    pub fn rate(&self) -> (rate: FrameRate)
        ensures
            rate == self@.rate,
    {
        self.rate
    }

    /// The request that is pending.
    pub fn request(&self) -> (request: Request)
        ensures
            request == self@.request(),
    {
        match self.phase {
            Phase::Init => Request::InitLibrary,
            Phase::Open => Request::OpenContainer,
            Phase::Select => Request::FindVideoStream,
            Phase::Decoder => Request::OpenDecoder { stream: self.stream },
            Phase::Scaler => Request::OpenScaler { width: self.width, height: self.height },
            Phase::Read => Request::ReadPacket,
            Phase::Send => Request::SendPacket,
            Phase::Receive => Request::ReceiveFrame,
            Phase::Convert => Request::ConvertFrame,
            Phase::Flush => Request::SendEof,
        }
    }

    /// The same extraction in another phase.
    fn at(self, phase: Phase) -> (moved: Extraction)
        requires
            self@.at(phase).inv(),
        ensures
            moved@ == self@.at(phase),
    {
        proof {
            use_type_invariant(&self);
        }
        Extraction { phase, ..self }
    }

    /// Takes the outcome of the pending request and decides how the
    /// extraction goes on.
    ///
    /// The frames of a finished extraction are all of the size the decoder
    /// announced, each holds exactly three bytes for each of its pixels, and
    /// there is one for each received frame that the rate keeps.
    pub fn step(self, event: Event) -> (step: Step)
        ensures
            step@ == self@.next(event),
            self@.inv(),
            step matches Step::Finished(frames) ==> {
                &&& uniform(frame_views(frames@), self@.width as nat, self@.height as nat)
                &&& frames@.len() == self@.rate.kept(self@.decoded)
            },
    {
        proof {
            use_type_invariant(&self);
            lemma_next_keeps_inv(self@, event);
        }
        match (self.phase, event) {
            (Phase::Init, Event::Done) => Step::Continue(self.at(Phase::Open)),
            (Phase::Init, Event::Failed) => Step::Failed(ExtractError::Init),
            (Phase::Open, Event::Done) => Step::Continue(self.at(Phase::Select)),
            (Phase::Open, Event::Failed) => Step::Failed(ExtractError::Container),
            (Phase::Select, Event::Stream(Some(index))) => Step::Continue(
                Extraction { phase: Phase::Decoder, stream: index, ..self },
            ),
            (Phase::Select, Event::Stream(None)) => Step::Failed(ExtractError::NoVideoStream),
            (Phase::Decoder, Event::Decoder { width, height }) => {
                assert(frame_views(self.frames@) =~= Seq::empty());
                Step::Continue(Extraction { phase: Phase::Scaler, width, height, ..self })
            },
            (Phase::Decoder, Event::Failed) => Step::Failed(ExtractError::Codec),
            (Phase::Scaler, Event::Done) => Step::Continue(self.at(Phase::Read)),
            (Phase::Scaler, Event::Failed) => Step::Failed(ExtractError::Scale),
            (Phase::Read, Event::Packet(Some(index))) => {
                if index == self.stream {
                    Step::Continue(self.at(Phase::Send))
                } else {
                    Step::Continue(self.at(Phase::Read))
                }
            },
            (Phase::Read, Event::Packet(None)) => Step::Continue(self.at(Phase::Flush)),
            (Phase::Send, Event::Done) => Step::Continue(self.at(Phase::Receive)),
            (Phase::Send, Event::Failed) => Step::Failed(ExtractError::Decode),
            (Phase::Receive, Event::Done) => {
                let keep = match self.rate {
                    FrameRate::Fps30 => self.odd,
                    FrameRate::Fps60 => true,
                };
                Step::Continue(
                    Extraction {
                        phase: if keep {
                            Phase::Convert
                        } else {
                            Phase::Receive
                        },
                        odd: !self.odd,
                        decoded: Ghost(self.decoded@ + 1),
                        ..self
                    },
                )
            },
            (Phase::Receive, Event::Failed) => Step::Continue(self.at(Phase::Read)),
            (Phase::Convert, Event::Converted { width, height, stride, data }) => {
                if width == self.width && height == self.height {
                    match Frame::from_plane(width, height, stride, &data) {
                        Some(frame) => {
                            let Extraction { rate, stream, odd, decoded, mut frames, .. } = self;
                            let ghost before = frames@;
                            frames.push(frame);
                            assert(frame_views(frames@) =~= frame_views(before).push(frame@));
                            Step::Continue(
                                Extraction {
                                    rate,
                                    phase: Phase::Receive,
                                    stream,
                                    width,
                                    height,
                                    odd,
                                    decoded,
                                    frames,
                                },
                            )
                        },
                        None => Step::Failed(ExtractError::PixelBuffer),
                    }
                } else {
                    Step::Failed(ExtractError::PixelBuffer)
                }
            },
            (Phase::Convert, Event::Failed) => Step::Failed(ExtractError::Scale),
            (Phase::Flush, Event::Done) => Step::Finished(self.frames),
            (Phase::Flush, Event::Failed) => Step::Failed(ExtractError::Decode),
            _ => Step::Failed(ExtractError::OutOfOrder),
        }
    }
}

} // verus!
