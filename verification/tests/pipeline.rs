use sckit_recorder::capturer::{deliver, OutputType};
use sckit_recorder::channel::{Received, TransferChannel};
use sckit_recorder::encoder::{
    AVAssetWriterEncoder, Codec, ColorStandard, Container, Disposition, EncodeError, Preparation,
    SinkSettings, SinkState, Stage,
};
use sckit_recorder::frame::{Frame, FrameStatus};
use sckit_recorder::recorder::{next_turn, StopSignal, Turn};
use sckit_recorder::session::Session;
use sckit_recorder::time::{Bracket, Time};

fn tick(n: i64) -> Time {
    Time::new(n, 1)
}

fn frame(n: i64, status: FrameStatus) -> Frame {
    Frame { presentation_timestamp: tick(n), status, width: 1280, height: 720 }
}

/// Everything a recording left behind at the sink.
#[derive(Debug, Default)]
struct Sink {
    opened: Vec<(SinkSettings, Time)>,
    appended: Vec<usize>,
    ended: Option<Time>,
}

/// Sends `frames` through a channel and runs the receive loop over them, as a
/// driver would. `stop_at` is the index of the frame on whose arrival the stop
/// signal is found raised; `ready` says whether the sink takes frame `i`.
fn record(frames: &[Frame], stop_at: Option<usize>, ready: &dyn Fn(usize) -> bool) -> (
    AVAssetWriterEncoder,
    Sink,
    Bracket,
) {
    let mut channel: TransferChannel<(usize, Frame)> = TransferChannel::new();
    for (i, f) in frames.iter().enumerate() {
        assert!(deliver(&mut channel, OutputType::Screen, (i, *f)).is_ok());
    }
    channel.close();

    let stop = StopSignal::new();
    let mut encoder = AVAssetWriterEncoder::init();
    let mut sink = Sink::default();
    loop {
        let received = channel.receive();
        if let Received::Frame((i, _)) = &received {
            if stop_at == Some(*i) {
                stop.share().raise();
            }
        }
        match next_turn(&received, stop.is_raised()) {
            Turn::Wait => unreachable!("the sender is gone"),
            Turn::Shutdown => break,
            Turn::Process => {}
        }
        let (i, f) = match received {
            Received::Frame(item) => item,
            _ => unreachable!("only a frame is processed"),
        };
        match encoder.prepare(&f) {
            Preparation::Skip => {
                assert_eq!(encoder.append_buf(&f, SinkState::NotReady), Ok(Disposition::Filtered));
                continue;
            }
            Preparation::Open { settings, at } => sink.opened.push((settings, at)),
            Preparation::Gate => {}
        }
        let state = if ready(i) { SinkState::Ready } else { SinkState::NotReady };
        if encoder.append_buf(&f, state) == Ok(Disposition::Append) {
            sink.appended.push(i);
        }
    }
    let bracket = encoder.finish();
    if !sink.opened.is_empty() {
        sink.ended = Some(bracket.end);
    }
    (encoder, sink, bracket)
}

#[test]
fn ten_complete_frames_are_all_appended() {
    let frames: Vec<Frame> = (0..10).map(|n| frame(n, FrameStatus::Complete)).collect();
    let (encoder, sink, bracket) = record(&frames, None, &|_| true);
    assert_eq!(sink.opened, vec![(SinkSettings::for_dimensions(1280, 720), tick(0))]);
    assert_eq!(sink.appended, vec![0, 1, 2, 3, 4, 5, 6, 7, 8, 9]);
    assert_eq!(bracket, Bracket { start: tick(0), end: tick(9) });
    assert_eq!(sink.ended, Some(tick(9)));
    assert_eq!(encoder.session().first_timestamp, Some(tick(0)));
    assert_eq!(encoder.session().last_timestamp, Some(tick(9)));
    assert_eq!(encoder.stage(), Stage::Finalized);
}

#[test]
fn incomplete_frames_in_the_middle_are_not_appended() {
    let frames = vec![
        frame(0, FrameStatus::Complete),
        frame(1, FrameStatus::Complete),
        frame(2, FrameStatus::Incomplete),
        frame(3, FrameStatus::Incomplete),
        frame(4, FrameStatus::Complete),
    ];
    let (_, sink, bracket) = record(&frames, None, &|_| true);
    assert_eq!(sink.appended, vec![0, 1, 4]);
    assert_eq!(sink.appended.len(), 3);
    assert_eq!(bracket, Bracket { start: tick(0), end: tick(4) });
}

#[test]
fn stop_before_any_frame_gives_an_empty_session() {
    let frames = vec![frame(3, FrameStatus::Complete), frame(4, FrameStatus::Complete)];
    let (encoder, sink, bracket) = record(&frames, Some(0), &|_| true);
    assert!(sink.opened.is_empty());
    assert!(sink.appended.is_empty());
    assert_eq!(sink.ended, None);
    assert_eq!(bracket, Bracket { start: Time::zero(), end: Time::zero() });
    assert_eq!(encoder.session(), Session::new());
    assert_eq!(encoder.stage(), Stage::Finalized);
}

#[test]
fn stop_without_any_frame_delivered_gives_an_empty_session() {
    let (encoder, sink, bracket) = record(&[], None, &|_| true);
    assert!(sink.appended.is_empty());
    assert_eq!(bracket.start, Time::new(0, 1));
    assert_eq!(bracket.end, Time::new(0, 1));
    assert!(!encoder.session().started);
}

#[test]
fn stop_in_the_middle_lets_later_frames_go() {
    let frames: Vec<Frame> = (0..6).map(|n| frame(n, FrameStatus::Complete)).collect();
    let (_, sink, bracket) = record(&frames, Some(4), &|_| true);
    assert_eq!(sink.appended, vec![0, 1, 2, 3]);
    assert_eq!(bracket, Bracket { start: tick(0), end: tick(3) });
}

#[test]
fn incomplete_frame_changes_nothing() {
    let mut encoder = AVAssetWriterEncoder::init();
    for status in [FrameStatus::Incomplete, FrameStatus::Other] {
        let f = frame(5, status);
        assert_eq!(encoder.prepare(&f), Preparation::Skip);
        for sink in [SinkState::Unavailable, SinkState::NotReady, SinkState::Ready] {
            assert_eq!(encoder.append_buf(&f, sink), Ok(Disposition::Filtered));
            assert_eq!(encoder.session(), Session::new());
            assert_eq!(encoder.stage(), Stage::Idle);
        }
    }
    // and nothing of a running session either
    assert_eq!(encoder.append_buf(&frame(6, FrameStatus::Complete), SinkState::Ready), Ok(Disposition::Append));
    let before = encoder.session();
    assert_eq!(encoder.append_buf(&frame(7, FrameStatus::Incomplete), SinkState::Ready), Ok(Disposition::Filtered));
    assert_eq!(encoder.session(), before);
    assert_eq!(encoder.stage(), Stage::Started);
}

#[test]
fn all_incomplete_stream_leaves_the_pipeline_idle() {
    let frames: Vec<Frame> = (0..20)
        .map(|n| frame(n, if n % 2 == 0 { FrameStatus::Incomplete } else { FrameStatus::Other }))
        .collect();
    let (encoder, sink, bracket) = record(&frames, None, &|_| true);
    assert!(sink.opened.is_empty());
    assert!(sink.appended.is_empty());
    assert!(!encoder.session().started);
    assert_eq!(encoder.session().first_timestamp, None);
    assert_eq!(encoder.session().last_timestamp, None);
    assert_eq!(bracket, Bracket { start: Time::zero(), end: Time::zero() });
}

#[test]
fn session_starts_on_the_first_complete_frame_only() {
    let mut encoder = AVAssetWriterEncoder::init();
    assert_eq!(encoder.stage(), Stage::Idle);
    assert_eq!(encoder.append_buf(&frame(10, FrameStatus::Incomplete), SinkState::Ready), Ok(Disposition::Filtered));
    assert_eq!(encoder.stage(), Stage::Idle);

    let first = frame(11, FrameStatus::Complete);
    assert_eq!(
        encoder.prepare(&first),
        Preparation::Open { settings: SinkSettings::for_dimensions(1280, 720), at: tick(11) }
    );
    assert_eq!(encoder.append_buf(&first, SinkState::Ready), Ok(Disposition::Append));
    assert_eq!(encoder.stage(), Stage::Started);
    assert!(encoder.session().started);
    assert_eq!(encoder.session().first_timestamp, Some(tick(11)));

    for n in 12..20 {
        let f = frame(n, FrameStatus::Complete);
        assert_eq!(encoder.prepare(&f), Preparation::Gate);
        assert_eq!(encoder.append_buf(&f, SinkState::Ready), Ok(Disposition::Append));
        assert_eq!(encoder.session().first_timestamp, Some(tick(11)));
        assert_eq!(encoder.session().last_timestamp, Some(tick(n)));
    }
}

#[test]
fn session_starts_even_if_the_sink_is_not_ready() {
    let mut encoder = AVAssetWriterEncoder::init();
    assert_eq!(encoder.append_buf(&frame(2, FrameStatus::Complete), SinkState::NotReady), Ok(Disposition::Dropped));
    assert_eq!(
        encoder.session(),
        Session { started: true, first_timestamp: Some(tick(2)), last_timestamp: None }
    );
    // nothing was handed over, so the session ends at the zero time
    assert_eq!(encoder.finish(), Bracket { start: tick(2), end: Time::zero() });
}

#[test]
fn frame_is_dropped_when_the_sink_is_not_ready() {
    let mut encoder = AVAssetWriterEncoder::init();
    assert_eq!(encoder.append_buf(&frame(0, FrameStatus::Complete), SinkState::Ready), Ok(Disposition::Append));
    let before = encoder.session();
    let result = encoder.append_buf(&frame(1, FrameStatus::Complete), SinkState::NotReady);
    assert_eq!(result, Ok(Disposition::Dropped));
    assert_eq!(encoder.session(), before);
    assert_eq!(encoder.session().last_timestamp, Some(tick(0)));
}

#[test]
fn not_ready_frames_are_dropped_not_retried() {
    let frames: Vec<Frame> = (0..6).map(|n| frame(n, FrameStatus::Complete)).collect();
    let (_, sink, bracket) = record(&frames, None, &|i| i % 2 == 0);
    assert_eq!(sink.appended, vec![0, 2, 4]);
    assert_eq!(bracket, Bracket { start: tick(0), end: tick(4) });
}

#[test]
fn finish_ends_at_the_last_forwarded_frame() {
    let frames: Vec<Frame> = (0..8).map(|n| frame(n * 100, FrameStatus::Complete)).collect();
    // the sink refuses the last three frames
    let (_, sink, bracket) = record(&frames, None, &|i| i < 5);
    assert_eq!(sink.appended, vec![0, 1, 2, 3, 4]);
    assert_eq!(bracket.end, tick(400));
    assert_eq!(sink.ended, Some(tick(400)));
}

#[test]
fn finish_without_forwarded_frames_ends_at_zero() {
    let mut encoder = AVAssetWriterEncoder::init();
    let bracket = encoder.finish();
    assert_eq!(bracket, Bracket { start: Time { value: 0, scale: 1 }, end: Time { value: 0, scale: 1 } });
    assert!(encoder.is_finalized());
    assert_eq!(encoder.stage(), Stage::Finalized);
}

#[test]
fn complete_frame_without_a_sink_is_an_error() {
    let mut encoder = AVAssetWriterEncoder::init();
    let f = frame(1, FrameStatus::Complete);
    assert_eq!(encoder.append_buf(&f, SinkState::Unavailable), Err(EncodeError::SinkUnavailable));
    assert_eq!(encoder.session(), Session::new());
    assert_eq!(encoder.stage(), Stage::Idle);
    // the next complete frame asks for the sink again
    assert!(matches!(encoder.prepare(&f), Preparation::Open { .. }));
}

#[test]
fn append_failure_is_not_reported_back() {
    // The pipeline counts a frame as the session's last once it says `Append`,
    // whatever the sink then makes of it.
    let mut encoder = AVAssetWriterEncoder::init();
    assert_eq!(encoder.append_buf(&frame(1, FrameStatus::Complete), SinkState::Ready), Ok(Disposition::Append));
    assert_eq!(encoder.append_buf(&frame(2, FrameStatus::Complete), SinkState::Ready), Ok(Disposition::Append));
    assert_eq!(encoder.finish().end, tick(2));
}

#[test]
fn sink_settings_are_the_fixed_profile() {
    let s = SinkSettings::for_dimensions(3840, 2160);
    assert_eq!(s.width, 3840);
    assert_eq!(s.height, 2160);
    assert_eq!(s.container, Container::Mp4);
    assert_eq!(s.codec, Codec::H264);
    assert_eq!(s.color.primaries, ColorStandard::ItuR709_2);
    assert_eq!(s.color.transfer_function, ColorStandard::ItuR709_2);
    assert_eq!(s.color.ycbcr_matrix, ColorStandard::ItuR709_2);
    assert!(s.expects_real_time_data);
}

#[test]
fn sink_is_opened_for_the_first_complete_frames_dimensions() {
    let mut encoder = AVAssetWriterEncoder::init();
    let small = Frame { presentation_timestamp: Time::new(1, 60), status: FrameStatus::Incomplete, width: 2, height: 2 };
    let big = Frame { presentation_timestamp: Time::new(2, 60), status: FrameStatus::Complete, width: 2880, height: 1800 };
    assert_eq!(encoder.prepare(&small), Preparation::Skip);
    assert_eq!(
        encoder.prepare(&big),
        Preparation::Open { settings: SinkSettings::for_dimensions(2880, 1800), at: Time::new(2, 60) }
    );
}

#[test]
fn session_records_start_and_last_frame() {
    let mut s = Session::new();
    assert_eq!(s, Session { started: false, first_timestamp: None, last_timestamp: None });
    assert_eq!(s.bounds(), Bracket { start: Time::zero(), end: Time::zero() });
    s.forward(tick(3));
    assert_eq!(s, Session::new());
    s.start(tick(4));
    assert_eq!(s, Session { started: true, first_timestamp: Some(tick(4)), last_timestamp: None });
    s.start(tick(9));
    assert_eq!(s.first_timestamp, Some(tick(4)));
    s.forward(tick(5));
    s.forward(tick(6));
    assert_eq!(s.last_timestamp, Some(tick(6)));
    assert_eq!(s.bounds(), Bracket { start: tick(4), end: tick(6) });
}

#[test]
fn frame_status_from_raw_numbers() {
    assert_eq!(FrameStatus::from_raw(0), FrameStatus::Complete);
    for raw in 1..=5 {
        assert_eq!(FrameStatus::from_raw(raw), FrameStatus::Incomplete);
    }
    assert_eq!(FrameStatus::from_raw(6), FrameStatus::Other);
    assert_eq!(FrameStatus::from_raw(-1), FrameStatus::Other);
    assert_eq!(FrameStatus::from_raw(isize::MAX), FrameStatus::Other);
    assert_eq!(FrameStatus::from_raw(isize::MIN), FrameStatus::Other);
    assert!(FrameStatus::Complete.is_complete());
    assert!(!FrameStatus::Incomplete.is_complete());
    assert!(!FrameStatus::Other.is_complete());
}

#[test]
fn zero_time_is_zero_ticks_at_one_per_second() {
    assert_eq!(Time::zero(), Time { value: 0, scale: 1 });
    assert_eq!(Time::new(-3, 600), Time { value: -3, scale: 600 });
}
