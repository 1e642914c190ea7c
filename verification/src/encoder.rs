use vstd::prelude::*;
use crate::frame::{Frame, FrameStatus};
use crate::session::Session;
use crate::time::{Bracket, Time};

verus! {

/// The container format of the output file.
#[derive(Clone, Copy, Debug, PartialEq, Eq, Structural)]
pub enum Container {
    Mp4,
}

/// The video codec of the single track.
#[derive(Clone, Copy, Debug, PartialEq, Eq, Structural)]
pub enum Codec {
    H264,
}

/// The standard that a colour property of the track follows.
#[derive(Clone, Copy, Debug, PartialEq, Eq, Structural)]
pub enum ColorStandard {
    ItuR709_2,
}

/// The colour description written into the track.
#[derive(Clone, Copy, Debug, PartialEq, Eq, Structural)]
pub struct ColorProperties {
    pub primaries: ColorStandard,
    pub transfer_function: ColorStandard,
    pub ycbcr_matrix: ColorStandard,
}

/// Everything the sink is constructed with, but for the output path.
#[derive(Clone, Copy, Debug, PartialEq, Eq, Structural)]
pub struct SinkSettings {
    /// Width of the encoded picture in pixels.
    pub width: u32,
    /// Height of the encoded picture in pixels.
    pub height: u32,
    pub container: Container,
    pub codec: Codec,
    pub color: ColorProperties,
    /// Whether the sink is told that its input arrives in real time.
    pub expects_real_time_data: bool,
}

impl SinkSettings {
    /// The one profile this recorder encodes with: H.264 in an MP4 file,
    /// ITU-R BT.709 colour throughout, real-time input.
    pub open spec fn profile(width: u32, height: u32) -> SinkSettings {
        SinkSettings {
            width,
            height,
            container: Container::Mp4,
            codec: Codec::H264,
            color: ColorProperties {
                primaries: ColorStandard::ItuR709_2,
                transfer_function: ColorStandard::ItuR709_2,
                ycbcr_matrix: ColorStandard::ItuR709_2,
            },
            expects_real_time_data: true,
        }
    }

    /// The settings for a picture of `width` by `height` pixels.
    pub fn for_dimensions(width: u32, height: u32) -> (settings: SinkSettings)
        ensures
            settings == SinkSettings::profile(width, height),
    {
        SinkSettings {
            width,
            height,
            container: Container::Mp4,
            codec: Codec::H264,
            color: ColorProperties {
                primaries: ColorStandard::ItuR709_2,
                transfer_function: ColorStandard::ItuR709_2,
                ycbcr_matrix: ColorStandard::ItuR709_2,
            },
            expects_real_time_data: true,
        }
    }
}

/// What has to happen at the sink before a frame can be appended.
#[derive(Clone, Copy, Debug, PartialEq, Eq, Structural)]
pub enum Preparation {
    /// The frame is not complete: the sink is left alone.
    Skip,
    /// No session is running: construct the sink with `settings`, open it for
    /// writing and start its session at `at`, then ask it whether it is ready.
    Open { settings: SinkSettings, at: Time },
    /// The session is running: ask the sink whether it is ready.
    Gate,
}

/// What the driver found at the sink after doing what `prepare` asked for.
#[derive(Clone, Copy, Debug, PartialEq, Eq, Structural)]
pub enum SinkState {
    /// The sink could not be constructed or opened.
    Unavailable,
    /// The sink is open and cannot take more data now.
    NotReady,
    /// The sink is open and ready for more data.
    Ready,
}

/// What becomes of a frame.
#[derive(Clone, Copy, Debug, PartialEq, Eq, Structural)]
pub enum Disposition {
    /// The frame was not complete and is discarded.
    Filtered,
    /// The sink was not ready: the frame is discarded, not queued.
    Dropped,
    /// The frame is to be appended to the sink. A failure of that append is
    /// the driver's to log; the recording goes on.
    Append,
}

/// Why a frame could not be processed.
#[derive(Clone, Copy, Debug, PartialEq, Eq, Structural)]
pub enum EncodeError {
    /// A complete frame arrived and there is no sink to take it.
    SinkUnavailable,
}

/// Where the pipeline stands in its life.
#[derive(Clone, Copy, Debug, PartialEq, Eq, Structural)]
pub enum Stage {
    Idle,
    Started,
    Finalized,
}

impl Stage {
    /// The stage's place in the order in which a pipeline passes through
    /// them.
    pub open spec fn rank(self) -> nat {
        match self {
            Stage::Idle => 0,
            Stage::Started => 1,
            Stage::Finalized => 2,
        }
    }
}

/// The pipeline as contracts see it.
pub struct EncoderState {
    pub session: Session,
    pub finalized: bool,
}

impl EncoderState {
    /// The state of a new pipeline.
    pub open spec fn initial() -> EncoderState {
        EncoderState { session: Session::idle(), finalized: false }
    }

    pub open spec fn wf(self) -> bool {
        self.session.wf()
    }

    pub open spec fn stage(self) -> Stage {
        if self.finalized {
            Stage::Finalized
        } else if self.session.started {
            Stage::Started
        } else {
            Stage::Idle
        }
    }

    /// What a frame needs of the sink before it is processed.
    pub open spec fn prepare(self, frame: Frame) -> Preparation {
        if frame.status != FrameStatus::Complete {
            Preparation::Skip
        } else if self.session.started {
            Preparation::Gate
        } else {
            Preparation::Open {
                settings: SinkSettings::profile(frame.width, frame.height),
                at: frame.presentation_timestamp,
            }
        }
    }

    /// What becomes of a frame, given what the sink answered.
    pub open spec fn outcome(frame: Frame, sink: SinkState) -> Result<Disposition, EncodeError> {
        if frame.status != FrameStatus::Complete {
            Ok(Disposition::Filtered)
        } else {
            match sink {
                SinkState::Unavailable => Err(EncodeError::SinkUnavailable),
                SinkState::NotReady => Ok(Disposition::Dropped),
                SinkState::Ready => Ok(Disposition::Append),
            }
        }
    }

    /// The state after a frame was processed: only a complete frame that found
    /// a sink changes it. Such a frame starts the session if none is running,
    /// and becomes the session's last frame if the sink is ready for it.
    pub open spec fn process(self, frame: Frame, sink: SinkState) -> EncoderState {
        if frame.status != FrameStatus::Complete {
            self
        } else {
            match sink {
                SinkState::Unavailable => self,
                SinkState::NotReady => EncoderState {
                    session: self.session.start_at(frame.presentation_timestamp),
                    finalized: self.finalized,
                },
                SinkState::Ready => EncoderState {
                    session: self.session.start_at(frame.presentation_timestamp).forward_at(
                        frame.presentation_timestamp,
                    ),
                    finalized: self.finalized,
                },
            }
        }
    }

    /// The state after the session was finalized.
    pub open spec fn finish(self) -> EncoderState {
        EncoderState { session: self.session, finalized: true }
    }
}

/// The encoding pipeline: it filters the frames it is shown, starts the
/// session on the first complete one, drops what the sink is not ready for and
/// closes the session when recording stops.
pub struct AVAssetWriterEncoder {
    session: Session,
    finalized: bool,
}

impl View for AVAssetWriterEncoder {
    type V = EncoderState;

    closed spec fn view(&self) -> EncoderState {
        EncoderState { session: self.session, finalized: self.finalized }
    }
}

impl AVAssetWriterEncoder {
    #[verifier::type_invariant]
    spec fn inv(&self) -> bool {
        self.session.wf()
    }

    /// A pipeline with no session and no sink yet.
    pub fn init() -> (encoder: AVAssetWriterEncoder)
        ensures
            encoder@ == EncoderState::initial(),
            encoder@.wf(),
    {
        AVAssetWriterEncoder { session: Session::new(), finalized: false }
    }

    /// The session as it stands.
    pub fn session(&self) -> (session: Session)
        ensures
            session == self@.session,
            session.wf(),
    {
        proof {
            use_type_invariant(self);
        }
        self.session
    }

    /// Whether `finish` has been called.
    pub fn is_finalized(&self) -> (finalized: bool)
        ensures
            finalized == self@.finalized,
    {
        self.finalized
    }

    /// Where the pipeline stands in its life.
    pub fn stage(&self) -> (stage: Stage)
        ensures
            stage == self@.stage(),
    {
        if self.finalized {
            Stage::Finalized
        } else if self.session.started {
            Stage::Started
        } else {
            Stage::Idle
        }
    }

    /// Says what `frame` needs of the sink before `append_buf` can decide on
    /// it. An incomplete frame needs nothing; the first complete frame needs
    /// the sink constructed for its dimensions and the session started at its
    /// timestamp; every later one needs only the readiness query.
    pub fn prepare(&self, frame: &Frame) -> (preparation: Preparation)
        requires
            !self@.finalized,
        ensures
            preparation == self@.prepare(*frame),
            frame.status != FrameStatus::Complete ==> preparation == Preparation::Skip,
    {
        if !frame.status.is_complete() {
            Preparation::Skip
        } else if self.session.started {
            Preparation::Gate
        } else {
            Preparation::Open {
                settings: SinkSettings::for_dimensions(frame.width, frame.height),
                at: frame.presentation_timestamp,
            }
        }
    }

    /// Processes one frame, given what the driver found at the sink.
    ///
    /// A frame that is not complete changes nothing and is filtered out,
    /// whatever the sink says. A complete frame fails without any change if
    /// there is no sink. Otherwise it starts the session at its timestamp
    /// unless one is running; then it is dropped if the sink is not ready, and
    /// else becomes the session's last frame and is to be appended.
    pub fn append_buf(&mut self, frame: &Frame, sink: SinkState) -> (result: Result<
        Disposition,
        EncodeError,
    >)
        requires
            !old(self)@.finalized,
        ensures
            final(self)@ == old(self)@.process(*frame, sink),
            result == EncoderState::outcome(*frame, sink),
            final(self)@.wf(),
            !final(self)@.finalized,
            frame.status != FrameStatus::Complete ==> final(self)@ == old(self)@,
            frame.status != FrameStatus::Complete ==> result matches Ok(Disposition::Filtered),
            frame.status == FrameStatus::Complete && sink == SinkState::NotReady
                ==> result matches Ok(Disposition::Dropped),
            frame.status == FrameStatus::Complete && sink == SinkState::NotReady
                ==> final(self)@.session.last_timestamp == old(self)@.session.last_timestamp,
            frame.status == FrameStatus::Complete && sink == SinkState::Ready
                ==> result matches Ok(Disposition::Append),
            frame.status == FrameStatus::Complete && sink == SinkState::Ready
                ==> final(self)@.session.last_timestamp == Some(frame.presentation_timestamp),
            final(self)@.session.started <==> old(self)@.session.started || (frame.status
                == FrameStatus::Complete && sink != SinkState::Unavailable),
            old(self)@.session.started
                ==> final(self)@.session.first_timestamp == old(self)@.session.first_timestamp,
            !old(self)@.session.started && final(self)@.session.started
                ==> final(self)@.session.first_timestamp == Some(frame.presentation_timestamp),
    {
        proof {
            use_type_invariant(&*self);
        }
        if !frame.status.is_complete() {
            return Ok(Disposition::Filtered);
        }
        match sink {
            SinkState::Unavailable => Err(EncodeError::SinkUnavailable),
            SinkState::NotReady => {
                let mut session = self.session;
                session.start(frame.presentation_timestamp);
                self.session = session;
                Ok(Disposition::Dropped)
            },
            SinkState::Ready => {
                let mut session = self.session;
                session.start(frame.presentation_timestamp);
                session.forward(frame.presentation_timestamp);
                self.session = session;
                Ok(Disposition::Append)
            },
        }
    }

    /// Closes the session and says which time range encloses it: from the
    /// first timestamp to that of the last frame handed to the sink, with the
    /// zero time in place of one that was never set. Where a sink was opened,
    /// the driver ends its session at the range's end, marks its input as
    /// finished and has it complete the file.
    pub fn finish(&mut self) -> (bracket: Bracket)
        requires
            !old(self)@.finalized,
        ensures
            final(self)@ == old(self)@.finish(),
            bracket == old(self)@.session.bracket(),
            bracket.end == old(self)@.session.end_bound(),
            final(self)@.stage() == Stage::Finalized,
    {
        proof {
            use_type_invariant(&*self);
        }
        self.finalized = true;
        self.session.bounds()
    }
}

} // verus!
