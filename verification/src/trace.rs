//! Whole runs of the frame source, and what holds of every one of them.
use vstd::prelude::*;
use crate::error::ExtractError;
use crate::frame::{lemma_offset_in_bounds, rgb_len, FrameView};
use crate::rate::FrameRate;
use crate::source::{
    lemma_next_keeps_inv, uniform, Event, Extraction, ExtractionView, Phase, Step, StepView,
};

verus! {

/// Where a run of the frame source has got to.
pub struct Run {
    /// The extraction as it stood when it last asked for something.
    pub last: ExtractionView,
    /// How the run ended, if it has: with the frames or with an error.
    pub outcome: Option<Result<Seq<FrameView>, ExtractError>>,
}

impl Run {
    /// The run as the step that led to where it stands.
    pub open spec fn step(self) -> StepView {
        match self.outcome {
            None => StepView::Continue(self.last),
            Some(Ok(frames)) => StepView::Finished(frames),
            Some(Err(error)) => StepView::Failed(error),
        }
    }
}

/// The run of a fresh extraction at `rate` that is told `events`, one after
/// the other. Once the run has ended, further events change nothing.
pub open spec fn run(rate: FrameRate, events: Seq<Event>) -> Run
    decreases events.len(),
{
    if events.len() == 0 {
        Run { last: ExtractionView::init(rate), outcome: None }
    } else {
        let before = run(rate, events.drop_last());
        match before.outcome {
            Some(_) => before,
            None => match before.last.next(events.last()) {
                StepView::Continue(extraction) => Run { last: extraction, outcome: None },
                StepView::Finished(frames) => Run { last: before.last, outcome: Some(Ok(frames)) },
                StepView::Failed(error) => Run { last: before.last, outcome: Some(Err(error)) },
            },
        }
    }
}

/// Runs a fresh extraction at `rate` over a recorded list of events.
pub fn replay(rate: FrameRate, events: Vec<Event>) -> (step: Step)
    ensures
        step@ == run(rate, events@).step(),
{
    let mut step = Step::Continue(Extraction::new(rate));
    let ghost all = events@;
    for event in it: events
        invariant
            it.seq() == all,
            step@ == run(rate, all.take(it.index() as int)).step(),
    {
        proof {
            let done = all.take(it.index() as int);
            let more = all.take(it.index() + 1);
            assert(more.drop_last() =~= done);
            assert(more.last() == event);
        }
        step =
        match step {
            Step::Continue(extraction) => extraction.step(event),
            ended => ended,
        };
    }
    assert(all.take(all.len() as int) =~= all);
    step
}

/// Throughout a run the extraction keeps its rate and its invariant.
pub proof fn lemma_run_keeps_inv(rate: FrameRate, events: Seq<Event>)
    ensures
        run(rate, events).last.inv(),
        run(rate, events).last.rate == rate,
    decreases events.len(),
{
    if events.len() > 0 {
        lemma_run_keeps_inv(rate, events.drop_last());
        lemma_next_keeps_inv(run(rate, events.drop_last()).last, events.last());
    }
}

/// The frames of a finished run are the frames that the extraction held
/// when it was told that the decoder had taken the end-of-stream signal.
pub proof fn lemma_run_finishes_with_collected(rate: FrameRate, events: Seq<Event>)
    ensures
        run(rate, events).outcome matches Some(Ok(frames)) ==> {
            &&& frames == run(rate, events).last.frames
            &&& run(rate, events).last.phase == Phase::Flush
        },
    decreases events.len(),
{
    if events.len() > 0 {
        lemma_run_finishes_with_collected(rate, events.drop_last());
    }
}

/// All frames of a finished run have the same width and height, those the
/// decoder announced, and each holds exactly three bytes for every one of
/// its pixels, laid out alike.
pub proof fn lemma_frames_alike(rate: FrameRate, events: Seq<Event>, i: int, j: int)
    requires
        run(rate, events).outcome matches Some(Ok(frames)) && 0 <= i < frames.len() && 0 <= j
            < frames.len(),
    ensures
        run(rate, events).outcome matches Some(Ok(frames)) && {
            &&& uniform(
                frames,
                run(rate, events).last.width as nat,
                run(rate, events).last.height as nat,
            )
            &&& frames[i].width == frames[j].width
            &&& frames[i].height == frames[j].height
            &&& frames[i].data.len() == rgb_len(frames[i].width, frames[i].height)
            &&& frames[j].data.len() == frames[i].data.len()
            &&& forall|x: nat, y: nat, c: nat|
                frames[i].offset(x, y, c) == frames[j].offset(x, y, c)
        },
{
    lemma_run_keeps_inv(rate, events);
    lemma_run_finishes_with_collected(rate, events);
}

/// Every frame of a finished run holds all three channels of every pixel
/// of its size.
pub proof fn lemma_frames_hold_every_pixel(
    rate: FrameRate,
    events: Seq<Event>,
    i: int,
    x: nat,
    y: nat,
    c: nat,
)
    requires
        run(rate, events).outcome matches Some(Ok(frames)) && 0 <= i < frames.len() && x
            < frames[i].width && y < frames[i].height,
        c < 3,
    ensures
        run(rate, events).outcome matches Some(Ok(frames)) && frames[i].offset(x, y, c)
            < frames[i].data.len(),
{
    lemma_run_keeps_inv(rate, events);
    lemma_run_finishes_with_collected(rate, events);
    let frames = run(rate, events).outcome->Some_0->Ok_0;
    lemma_offset_in_bounds(frames[i], x, y, c);
}

/// Each frame that the decoder hands out is counted, and it is converted
/// exactly when the rate keeps its position: at the lower rate the frames
/// at odd positions are passed over, at the higher rate none is.
pub proof fn lemma_kept_positions_are_converted(rate: FrameRate, events: Seq<Event>)
    requires
        run(rate, events).outcome is None,
        run(rate, events).last.phase == Phase::Receive,
    ensures
        run(rate, events.push(Event::Done)).outcome is None,
        run(rate, events.push(Event::Done)).last.decoded == run(rate, events).last.decoded + 1,
        run(rate, events.push(Event::Done)).last.frames == run(rate, events).last.frames,
        run(rate, events.push(Event::Done)).last.phase == if rate.keeps(
            run(rate, events).last.decoded + 1,
        ) {
            Phase::Convert
        } else {
            Phase::Receive
        },
{
    lemma_run_keeps_inv(rate, events);
    assert(events.push(Event::Done).drop_last() =~= events);
}

/// A finished run returns one frame for each received frame that the rate
/// keeps: all of them at the higher rate, every second one at the lower.
pub proof fn lemma_length_kept(rate: FrameRate, events: Seq<Event>)
    requires
        run(rate, events).outcome matches Some(Ok(_)),
    ensures
        run(rate, events).outcome matches Some(Ok(frames)) && {
            &&& frames.len() == rate.kept(run(rate, events).last.decoded)
            &&& rate == FrameRate::Fps60 ==> frames.len() == run(rate, events).last.decoded
            &&& rate == FrameRate::Fps30 ==> frames.len() == run(rate, events).last.decoded / 2
        },
{
    lemma_run_keeps_inv(rate, events);
    lemma_run_finishes_with_collected(rate, events);
}

/// At the lower rate, a finished run over an even number of received frames
/// returns half of them, rounded up; at the higher rate it returns as many
/// frames as were received.
pub proof fn lemma_length_halved(rate: FrameRate, events: Seq<Event>)
    requires
        run(rate, events).outcome matches Some(Ok(_)),
        rate == FrameRate::Fps30 ==> run(rate, events).last.decoded % 2 == 0,
    ensures
        run(rate, events).outcome matches Some(Ok(frames)) && {
            &&& rate == FrameRate::Fps30 ==> frames.len() == (run(rate, events).last.decoded + 1)
                / 2
            &&& rate == FrameRate::Fps60 ==> frames.len() == run(rate, events).last.decoded
        },
{
    lemma_length_kept(rate, events);
}

/// A run that finds no video stream fails with
/// [`ExtractError::NoVideoStream`]. No frame was received or collected
/// before, and none is returned.
pub proof fn lemma_no_video_stream(rate: FrameRate, events: Seq<Event>)
    requires
        run(rate, events).outcome is None,
        run(rate, events).last.phase == Phase::Select,
    ensures
        run(rate, events.push(Event::Stream(None))).outcome == Some(
            Err::<Seq<FrameView>, ExtractError>(ExtractError::NoVideoStream),
        ),
        run(rate, events).last.decoded == 0,
        run(rate, events).last.frames.len() == 0,
{
    lemma_run_keeps_inv(rate, events);
    assert(events.push(Event::Stream(None)).drop_last() =~= events);
}

/// A run whose container cannot be opened fails with
/// [`ExtractError::Container`]. No frame was received or collected before,
/// and none is returned.
pub proof fn lemma_unreadable_container(rate: FrameRate, events: Seq<Event>)
    requires
        run(rate, events).outcome is None,
        run(rate, events).last.phase == Phase::Open,
    ensures
        run(rate, events.push(Event::Failed)).outcome == Some(
            Err::<Seq<FrameView>, ExtractError>(ExtractError::Container),
        ),
        run(rate, events).last.decoded == 0,
        run(rate, events).last.frames.len() == 0,
{
    lemma_run_keeps_inv(rate, events);
    assert(events.push(Event::Failed).drop_last() =~= events);
}

/// The container is opened second and searched third: a run told
/// `Done, Failed` ends with [`ExtractError::Container`], and a run told
/// `Done, Done, Stream(None)` with [`ExtractError::NoVideoStream`].
pub proof fn lemma_early_failures(rate: FrameRate)
    ensures
        run(rate, seq![Event::Done, Event::Failed]).outcome == Some(
            Err::<Seq<FrameView>, ExtractError>(ExtractError::Container),
        ),
        run(rate, seq![Event::Done, Event::Done, Event::Stream(None)]).outcome == Some(
            Err::<Seq<FrameView>, ExtractError>(ExtractError::NoVideoStream),
        ),
{
    let one = seq![Event::Done];
    let two = seq![Event::Done, Event::Done];
    assert(one.drop_last() =~= Seq::<Event>::empty());
    assert(run(rate, one).last.phase == Phase::Open && run(rate, one).outcome is None) by {
        reveal_with_fuel(run, 2);
    }
    assert(two.drop_last() =~= one);
    assert(run(rate, two).last.phase == Phase::Select && run(rate, two).outcome is None);
    lemma_unreadable_container(rate, one);
    lemma_no_video_stream(rate, two);
    assert(one.push(Event::Failed) =~= seq![Event::Done, Event::Failed]);
    assert(two.push(Event::Stream(None)) =~= seq![Event::Done, Event::Done, Event::Stream(None)]);
}

/// A run that has failed holds no frames for the caller: it ended in the
/// step that failed, and what it had collected went with it.
pub proof fn lemma_failure_is_final(rate: FrameRate, events: Seq<Event>, more: Event)
    requires
        run(rate, events).outcome matches Some(Err(_)),
    ensures
        run(rate, events.push(more)) == run(rate, events),
        run(rate, events).step() is Failed,
{
    assert(events.push(more).drop_last() =~= events);
}

} // verus!
