use vstd::prelude::*;
use crate::channel::TransferChannel;
use crate::time::Time;

verus! {

/// Capture runs at this multiple of the display's reported size.
pub const SCALE_FACTOR: u32 = 2;

/// The layout of a captured pixel.
#[derive(Clone, Copy, Debug, PartialEq, Eq, Structural)]
pub enum PixelFormat {
    /// 32 bits per pixel: blue, green, red, alpha.
    Bgra32,
}

/// The colour space that captured frames are delivered in.
#[derive(Clone, Copy, Debug, PartialEq, Eq, Structural)]
pub enum ColorSpace {
    Srgb,
}

/// What the system reports of a display that can be captured.
#[derive(Clone, Copy, Debug, PartialEq, Eq, Structural)]
pub struct DisplaySize {
    pub width: isize,
    pub height: isize,
}

/// The parameters a capture stream is configured with.
#[derive(Clone, Copy, Debug, PartialEq, Eq, Structural)]
pub struct StreamConfig {
    /// Width of the captured frames in pixels.
    pub width: u32,
    /// Height of the captured frames in pixels.
    pub height: u32,
    pub pixel_format: PixelFormat,
    pub color_space: ColorSpace,
    /// The shortest time between two frames.
    pub minimum_frame_interval: Time,
}

/// Why no capture source could be set up.
#[derive(Clone, Copy, Debug, PartialEq, Eq, Structural)]
pub enum CaptureError {
    /// There is no display to capture.
    NoDisplay,
    /// The display's size is negative, or its scaled size does not fit the
    /// stream's 32-bit dimensions.
    UnsupportedDisplay,
}

/// The kind of sample a capture stream hands to its output.
#[derive(Clone, Copy, Debug, PartialEq, Eq, Structural)]
pub enum OutputType {
    /// A video frame of the captured screen.
    Screen,
    /// System audio.
    Audio,
    /// Microphone audio.
    Mic,
}

/// The capture source's configuration: which display it captures and with
/// which parameters.
pub struct Capturer {
    config: StreamConfig,
}

impl View for Capturer {
    type V = StreamConfig;

    closed spec fn view(&self) -> StreamConfig {
        self.config
    }
}

impl Capturer {
    /// Whether a stream can be configured for `display`: both sides are
    /// non-negative and still fit 32 bits once scaled.
    pub open spec fn supports(display: DisplaySize) -> bool {
        &&& 0 <= display.width
        &&& display.width * SCALE_FACTOR <= u32::MAX
        &&& 0 <= display.height
        &&& display.height * SCALE_FACTOR <= u32::MAX
    }

    /// The configuration for capturing `display`: its size scaled up, BGRA
    /// pixels in sRGB, at most sixty frames a second.
    pub open spec fn config_for(display: DisplaySize) -> StreamConfig {
        StreamConfig {
            width: (display.width * SCALE_FACTOR) as u32,
            height: (display.height * SCALE_FACTOR) as u32,
            pixel_format: PixelFormat::Bgra32,
            color_space: ColorSpace::Srgb,
            minimum_frame_interval: Time { value: 1, scale: 60 },
        }
    }

    /// Selects the first of `displays` as the capture target and fixes the
    /// stream's parameters for it.
    pub fn init(displays: &Vec<DisplaySize>) -> (result: Result<Capturer, CaptureError>)
        ensures
            displays@.len() == 0 <==> result matches Err(CaptureError::NoDisplay),
            displays@.len() > 0 && !Capturer::supports(displays@[0])
                <==> result matches Err(CaptureError::UnsupportedDisplay),
            displays@.len() > 0 && Capturer::supports(displays@[0]) <==> result is Ok,
            result matches Ok(capturer) ==> capturer@ == Capturer::config_for(displays@[0]),
    {
        if displays.len() == 0 {
            return Err(CaptureError::NoDisplay);
        }
        let display = displays[0];
        let limit: isize = 0x7fff_ffff;
        if display.width < 0 || display.width > limit || display.height < 0 || display.height
            > limit {
            return Err(CaptureError::UnsupportedDisplay);
        }
        let width: u32 = (display.width as u32) * SCALE_FACTOR;
        let height: u32 = (display.height as u32) * SCALE_FACTOR;
        Ok(
            Capturer {
                config: StreamConfig {
                    width,
                    height,
                    pixel_format: PixelFormat::Bgra32,
                    color_space: ColorSpace::Srgb,
                    minimum_frame_interval: Time::new(1, 60),
                },
            },
        )
    }

    /// The size of the frames that the stream is configured to deliver.
    pub fn get_dimensions(&self) -> (dimensions: (u32, u32))
        ensures
            dimensions == (self@.width, self@.height),
    {
        (self.config.width, self.config.height)
    }

    /// The parameters that the stream is configured with.
    pub fn config(&self) -> (config: StreamConfig)
        ensures
            config == self@,
    {
        self.config
    }
}

/// The stream's output handler: a video frame of the screen goes into the
/// channel, behind all earlier ones; audio samples are let go. The frame comes
/// back as the error if the channel no longer takes it.
pub fn deliver<T>(channel: &mut TransferChannel<T>, kind: OutputType, sample: T) -> (result: Result<
    (),
    T,
>)
    ensures
        final(channel).sender_alive() == old(channel).sender_alive(),
        final(channel).receiver_alive() == old(channel).receiver_alive(),
        kind == OutputType::Screen && old(channel).connected() ==> result is Ok && final(channel)@
            == old(channel)@.push(sample),
        kind == OutputType::Screen && !old(channel).connected() ==> result == Err::<(), T>(sample)
            && final(channel)@ == old(channel)@,
        kind != OutputType::Screen ==> result is Ok && final(channel)@ == old(channel)@,
{
    match kind {
        OutputType::Screen => channel.send(sample),
        OutputType::Audio => Ok(()),
        OutputType::Mic => Ok(()),
    }
}

} // verus!
