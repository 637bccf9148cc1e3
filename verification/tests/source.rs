use ascii_video::source::{Event, Extraction, Request, Step};
use ascii_video::trace::replay;
use ascii_video::{ExtractError, Frame, FrameRate};

/// A scripted container: which stream is the best video stream, the size the
/// decoder announces, and for each packet its stream and the number of
/// frames that the decoder hands out after it.
struct Script {
    stream: Option<usize>,
    width: u32,
    height: u32,
    packets: Vec<(usize, usize)>,
}

/// The bytes of the `n`-th decoded frame, so that frames can be told apart.
fn pixels(width: u32, height: u32, n: usize) -> Vec<u8> {
    vec![n as u8; 3 * width as usize * height as usize]
}

/// Performs the requests of an extraction against a script and records them.
fn drive(rate: FrameRate, script: &Script) -> (Result<Vec<Frame>, ExtractError>, Vec<Request>) {
    let mut extraction = Extraction::new(rate);
    let mut requests = Vec::new();
    let mut packets = script.packets.iter();
    let mut buffered = 0;
    let mut decoded = 0;
    loop {
        let request = extraction.request();
        requests.push(request);
        let event = match request {
            Request::InitLibrary | Request::OpenContainer | Request::OpenScaler { .. } => {
                Event::Done
            }
            Request::FindVideoStream => Event::Stream(script.stream),
            Request::OpenDecoder { .. } => {
                Event::Decoder { width: script.width, height: script.height }
            }
            Request::ReadPacket => match packets.next() {
                Some(&(stream, frames)) => {
                    buffered = frames;
                    Event::Packet(Some(stream))
                }
                None => Event::Packet(None),
            },
            Request::SendPacket | Request::SendEof => Event::Done,
            Request::ReceiveFrame => {
                if buffered > 0 {
                    buffered -= 1;
                    decoded += 1;
                    Event::Done
                } else {
                    Event::Failed
                }
            }
            Request::ConvertFrame => Event::Converted {
                width: script.width,
                height: script.height,
                stride: 3 * script.width as usize,
                data: pixels(script.width, script.height, decoded),
            },
        };
        match extraction.step(event) {
            Step::Continue(next) => extraction = next,
            Step::Finished(frames) => return (Ok(frames), requests),
            Step::Failed(error) => return (Err(error), requests),
        }
    }
}

fn clip(frames: usize) -> Script {
    Script { stream: Some(0), width: 4, height: 2, packets: vec![(0, 1); frames] }
}

/// Steps an extraction through its setup until it asks for the first packet.
fn ready(rate: FrameRate, width: u32, height: u32) -> Extraction {
    let mut extraction = Extraction::new(rate);
    for event in [
        Event::Done,
        Event::Done,
        Event::Stream(Some(0)),
        Event::Decoder { width, height },
        Event::Done,
    ] {
        match extraction.step(event) {
            Step::Continue(next) => extraction = next,
            _ => panic!("setup does not end the extraction"),
        }
    }
    assert_eq!(extraction.request(), Request::ReadPacket);
    extraction
}

fn fail_of(step: Step) -> Option<ExtractError> {
    match step {
        Step::Failed(error) => Some(error),
        _ => None,
    }
}

fn after(extraction: Extraction, event: Event) -> Extraction {
    match extraction.step(event) {
        Step::Continue(next) => next,
        _ => panic!("the extraction goes on"),
    }
}

#[test]
fn sixty_decoded_frames_at_the_lower_rate_give_thirty() {
    let (frames, _) = drive(FrameRate::Fps30, &clip(60));
    let frames = frames.expect("the clip decodes");
    assert_eq!(frames.len(), 30);
    for (i, frame) in frames.iter().enumerate() {
        assert_eq!(frame.data()[0] as usize, 2 * (i + 1));
    }
}

#[test]
fn higher_rate_keeps_every_frame() {
    let (frames, _) = drive(FrameRate::Fps60, &clip(60));
    let frames = frames.unwrap();
    assert_eq!(frames.len(), 60);
    for (i, frame) in frames.iter().enumerate() {
        assert_eq!(frame.data()[0] as usize, i + 1);
    }
}

#[test]
fn lower_rate_skips_the_odd_positions() {
    for decoded in 0..9 {
        let (frames, _) = drive(FrameRate::Fps30, &clip(decoded));
        let frames = frames.unwrap();
        assert_eq!(frames.len(), decoded / 2);
        let kept: Vec<usize> = frames.iter().map(|f| f.data()[0] as usize).collect();
        let expected: Vec<usize> = (1..=decoded).filter(|p| p % 2 == 0).collect();
        assert_eq!(kept, expected);
    }
}

#[test]
fn a_single_decoded_frame_is_skipped_at_the_lower_rate() {
    let (frames, _) = drive(FrameRate::Fps30, &clip(1));
    assert_eq!(frames.unwrap().len(), 0);
    let (frames, _) = drive(FrameRate::Fps60, &clip(1));
    assert_eq!(frames.unwrap().len(), 1);
}

#[test]
fn all_frames_have_the_size_of_the_decoder() {
    let script = Script { stream: Some(2), width: 5, height: 3, packets: vec![(2, 2); 4] };
    let (frames, _) = drive(FrameRate::Fps60, &script);
    let frames = frames.unwrap();
    assert_eq!(frames.len(), 8);
    for frame in &frames {
        assert_eq!((frame.width(), frame.height()), (5, 3));
        assert_eq!(frame.data().len(), 45);
    }
}

#[test]
fn packets_of_other_streams_are_passed_over() {
    let script = Script {
        stream: Some(1),
        width: 2,
        height: 2,
        packets: vec![(0, 1), (1, 1), (2, 1), (1, 1), (0, 1)],
    };
    let (frames, requests) = drive(FrameRate::Fps60, &script);
    assert_eq!(frames.unwrap().len(), 2);
    let sent = requests.iter().filter(|r| **r == Request::SendPacket).count();
    assert_eq!(sent, 2);
    let read = requests.iter().filter(|r| **r == Request::ReadPacket).count();
    assert_eq!(read, 6);
}

#[test]
fn a_packet_may_yield_no_frame_or_several() {
    let script = Script {
        stream: Some(0),
        width: 1,
        height: 1,
        packets: vec![(0, 0), (0, 3), (0, 0), (0, 1)],
    };
    let (frames, requests) = drive(FrameRate::Fps60, &script);
    assert_eq!(frames.unwrap().len(), 4);
    let received = requests.iter().filter(|r| **r == Request::ReceiveFrame).count();
    assert_eq!(received, 8);
    let (frames, _) = drive(FrameRate::Fps30, &script);
    assert_eq!(frames.unwrap().len(), 2);
}

#[test]
fn requests_follow_the_order_of_the_steps() {
    let script = Script { stream: Some(3), width: 6, height: 4, packets: vec![(3, 2), (1, 0)] };
    let (frames, requests) = drive(FrameRate::Fps30, &script);
    assert_eq!(frames.unwrap().len(), 1);
    assert_eq!(
        requests,
        vec![
            Request::InitLibrary,
            Request::OpenContainer,
            Request::FindVideoStream,
            Request::OpenDecoder { stream: 3 },
            Request::OpenScaler { width: 6, height: 4 },
            Request::ReadPacket,
            Request::SendPacket,
            Request::ReceiveFrame,
            Request::ReceiveFrame,
            Request::ConvertFrame,
            Request::ReceiveFrame,
            Request::ReadPacket,
            Request::ReadPacket,
            Request::SendEof,
        ]
    );
}

#[test]
fn empty_container_gives_no_frames() {
    let (frames, requests) = drive(FrameRate::Fps60, &clip(0));
    assert_eq!(frames.unwrap().len(), 0);
    assert_eq!(requests.last(), Some(&Request::SendEof));
}

#[test]
fn fresh_extraction_asks_for_the_library() {
    let extraction = Extraction::new(FrameRate::Fps30);
    assert_eq!(extraction.request(), Request::InitLibrary);
    assert_eq!(extraction.rate(), FrameRate::Fps30);
}

#[test]
fn no_video_stream_fails_the_extraction() {
    let script = Script { stream: None, width: 4, height: 2, packets: vec![(0, 1); 3] };
    let (frames, requests) = drive(FrameRate::Fps30, &script);
    assert_eq!(frames.err(), Some(ExtractError::NoVideoStream));
    assert_eq!(
        requests,
        vec![Request::InitLibrary, Request::OpenContainer, Request::FindVideoStream]
    );
    assert_eq!(ExtractError::NoVideoStream.message(), "No video stream");
}

#[test]
fn unreadable_container_fails_before_any_frame() {
    let extraction = after(Extraction::new(FrameRate::Fps60), Event::Done);
    assert_eq!(extraction.request(), Request::OpenContainer);
    assert_eq!(fail_of(extraction.step(Event::Failed)), Some(ExtractError::Container));
}

#[test]
fn library_that_cannot_be_set_up_fails_the_extraction() {
    let extraction = Extraction::new(FrameRate::Fps60);
    assert_eq!(fail_of(extraction.step(Event::Failed)), Some(ExtractError::Init));
}

#[test]
fn unsupported_codec_fails_the_extraction() {
    let mut extraction = Extraction::new(FrameRate::Fps60);
    for event in [Event::Done, Event::Done, Event::Stream(Some(0))] {
        extraction = after(extraction, event);
    }
    assert_eq!(extraction.request(), Request::OpenDecoder { stream: 0 });
    assert_eq!(fail_of(extraction.step(Event::Failed)), Some(ExtractError::Codec));
}

#[test]
fn scaler_that_cannot_be_set_up_fails_the_extraction() {
    let mut extraction = Extraction::new(FrameRate::Fps60);
    for event in
        [Event::Done, Event::Done, Event::Stream(Some(0)), Event::Decoder { width: 2, height: 2 }]
    {
        extraction = after(extraction, event);
    }
    assert_eq!(extraction.request(), Request::OpenScaler { width: 2, height: 2 });
    assert_eq!(fail_of(extraction.step(Event::Failed)), Some(ExtractError::Scale));
}

#[test]
fn refused_packet_fails_the_extraction() {
    let extraction = after(ready(FrameRate::Fps60, 2, 2), Event::Packet(Some(0)));
    assert_eq!(extraction.request(), Request::SendPacket);
    assert_eq!(fail_of(extraction.step(Event::Failed)), Some(ExtractError::Decode));
}

#[test]
fn refused_end_of_stream_fails_the_extraction() {
    let extraction = after(ready(FrameRate::Fps60, 2, 2), Event::Packet(None));
    assert_eq!(extraction.request(), Request::SendEof);
    assert_eq!(fail_of(extraction.step(Event::Failed)), Some(ExtractError::Decode));
}

fn converting(rate: FrameRate, width: u32, height: u32) -> Extraction {
    let mut extraction = ready(rate, width, height);
    for event in [Event::Packet(Some(0)), Event::Done, Event::Done] {
        extraction = after(extraction, event);
    }
    assert_eq!(extraction.request(), Request::ConvertFrame);
    extraction
}

#[test]
fn failed_scaler_fails_the_extraction() {
    let extraction = converting(FrameRate::Fps60, 2, 2);
    assert_eq!(fail_of(extraction.step(Event::Failed)), Some(ExtractError::Scale));
}

#[test]
fn short_pixel_buffer_fails_the_extraction() {
    let extraction = converting(FrameRate::Fps60, 2, 2);
    let event = Event::Converted { width: 2, height: 2, stride: 6, data: vec![0; 11] };
    assert_eq!(fail_of(extraction.step(event)), Some(ExtractError::PixelBuffer));
    let extraction = converting(FrameRate::Fps60, 2, 2);
    let event = Event::Converted { width: 2, height: 2, stride: 8, data: vec![0; 15] };
    assert_eq!(fail_of(extraction.step(event)), Some(ExtractError::PixelBuffer));
}

#[test]
fn line_without_room_for_its_pixels_fails_the_extraction() {
    let extraction = converting(FrameRate::Fps60, 2, 2);
    let event = Event::Converted { width: 2, height: 2, stride: 5, data: vec![0; 12] };
    assert_eq!(fail_of(extraction.step(event)), Some(ExtractError::PixelBuffer));
}

#[test]
fn frame_of_another_size_fails_the_extraction() {
    let extraction = converting(FrameRate::Fps60, 2, 2);
    let event = Event::Converted { width: 2, height: 1, stride: 6, data: vec![0; 12] };
    assert_eq!(fail_of(extraction.step(event)), Some(ExtractError::PixelBuffer));
    let extraction = converting(FrameRate::Fps60, 2, 2);
    let event = Event::Converted { width: 1, height: 2, stride: 6, data: vec![0; 12] };
    assert_eq!(fail_of(extraction.step(event)), Some(ExtractError::PixelBuffer));
}

#[test]
fn padding_of_the_lines_is_left_out() {
    let extraction = converting(FrameRate::Fps60, 2, 2);
    let plane = vec![1, 1, 1, 2, 2, 2, 0, 0, 3, 3, 3, 4, 4, 4, 0, 0];
    let event = Event::Converted { width: 2, height: 2, stride: 8, data: plane };
    let mut extraction = after(extraction, event);
    for event in [Event::Failed, Event::Packet(None)] {
        extraction = after(extraction, event);
    }
    match extraction.step(Event::Done) {
        Step::Finished(frames) => {
            assert_eq!(frames.len(), 1);
            assert_eq!(frames[0].data(), &vec![1, 1, 1, 2, 2, 2, 3, 3, 3, 4, 4, 4]);
            assert_eq!(frames[0].pixel(0, 1), (3, 3, 3));
            assert_eq!(frames[0].pixel(1, 1), (4, 4, 4));
        }
        _ => panic!("the extraction finishes"),
    }
}

#[test]
fn report_that_was_not_asked_for_fails_the_extraction() {
    let extraction = Extraction::new(FrameRate::Fps30);
    assert_eq!(fail_of(extraction.step(Event::Packet(None))), Some(ExtractError::OutOfOrder));
    let extraction = ready(FrameRate::Fps30, 2, 2);
    assert_eq!(fail_of(extraction.step(Event::Done)), Some(ExtractError::OutOfOrder));
    let extraction = converting(FrameRate::Fps60, 2, 2);
    assert_eq!(fail_of(extraction.step(Event::Done)), Some(ExtractError::OutOfOrder));
    let extraction = after(Extraction::new(FrameRate::Fps60), Event::Done);
    let extraction = after(extraction, Event::Done);
    assert_eq!(fail_of(extraction.step(Event::Failed)), Some(ExtractError::OutOfOrder));
}

#[test]
fn decoder_that_runs_dry_is_no_failure() {
    let extraction = after(ready(FrameRate::Fps60, 2, 2), Event::Packet(Some(0)));
    let extraction = after(extraction, Event::Done);
    assert_eq!(extraction.request(), Request::ReceiveFrame);
    let extraction = after(extraction, Event::Failed);
    assert_eq!(extraction.request(), Request::ReadPacket);
}

#[test]
fn replay_runs_a_recorded_extraction() {
    let events = vec![
        Event::Done,
        Event::Done,
        Event::Stream(Some(0)),
        Event::Decoder { width: 1, height: 1 },
        Event::Done,
        Event::Packet(Some(0)),
        Event::Done,
        Event::Done,
        Event::Converted { width: 1, height: 1, stride: 4, data: vec![1, 2, 3, 9] },
        Event::Failed,
        Event::Packet(None),
        Event::Done,
    ];
    match replay(FrameRate::Fps60, events) {
        Step::Finished(frames) => {
            assert_eq!(frames.len(), 1);
            assert_eq!(frames[0].pixel(0, 0), (1, 2, 3));
            assert_eq!(frames[0].data().len(), 3);
        }
        _ => panic!("the recorded extraction finishes"),
    }
}

#[test]
fn replay_stops_at_the_first_failure() {
    let events = vec![Event::Done, Event::Failed, Event::Done, Event::Stream(Some(0))];
    assert_eq!(fail_of(replay(FrameRate::Fps30, events)), Some(ExtractError::Container));
    let events = vec![Event::Done, Event::Done, Event::Stream(None)];
    assert_eq!(fail_of(replay(FrameRate::Fps30, events)), Some(ExtractError::NoVideoStream));
}

#[test]
fn replay_of_an_unfinished_extraction_goes_on() {
    match replay(FrameRate::Fps30, vec![Event::Done, Event::Done]) {
        Step::Continue(extraction) => assert_eq!(extraction.request(), Request::FindVideoStream),
        _ => panic!("the extraction is not over"),
    }
    match replay(FrameRate::Fps30, Vec::new()) {
        Step::Continue(extraction) => assert_eq!(extraction.request(), Request::InitLibrary),
        _ => panic!("the extraction has not begun"),
    }
}
