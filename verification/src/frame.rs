use vstd::prelude::*;
use crate::time::Time;

verus! {

/// How complete the capture of a frame was.
#[derive(Clone, Copy, Debug, PartialEq, Eq, Structural)]
pub enum FrameStatus {
    /// The frame holds a fully captured image.
    Complete,
    /// The capture was idle, blank, suspended, starting or stopping.
    Incomplete,
    /// A status number that the capture source does not document.
    Other,
}

impl FrameStatus {
    /// The status that a capture source's raw status number stands for:
    /// 0 is a complete frame, 1 to 5 are the incomplete states, the rest is
    /// unknown.
    pub open spec fn of_raw(raw: int) -> FrameStatus {
        if raw == 0 {
            FrameStatus::Complete
        } else if 1 <= raw <= 5 {
            FrameStatus::Incomplete
        } else {
            FrameStatus::Other
        }
    }

    /// Decodes the status number attached to a frame.
    pub fn from_raw(raw: isize) -> (status: FrameStatus)
        ensures
            status == FrameStatus::of_raw(raw as int),
    {
        if raw == 0 {
            FrameStatus::Complete
        } else if 1 <= raw && raw <= 5 {
            FrameStatus::Incomplete
        } else {
            FrameStatus::Other
        }
    }

    /// Whether a frame of this status may be encoded.
    pub fn is_complete(&self) -> (complete: bool)
        ensures
            complete == (*self == FrameStatus::Complete),
    {
        match self {
            FrameStatus::Complete => true,
            FrameStatus::Incomplete => false,
            FrameStatus::Other => false,
        }
    }
}

/// What the pipeline reads of one captured image. The pixel payload stays with
/// whoever drives the pipeline.
#[derive(Clone, Copy, Debug, PartialEq, Eq, Structural)]
pub struct Frame {
    /// When the image is to be presented.
    pub presentation_timestamp: Time,
    /// Whether the image was captured completely.
    pub status: FrameStatus,
    /// Width of the image in pixels.
    pub width: u32,
    /// Height of the image in pixels.
    pub height: u32,
}

} // verus!
