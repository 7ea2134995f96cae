//! Static stream parameters used to build an encoding session.

use vstd::prelude::*;

verus! {

/// Source pixel layouts the video pipeline accepts.
#[derive(Debug, Clone, Copy, PartialEq, Eq, Structural)]
pub enum PixelFormat {
    Bgra,
    Rgb555,
    Rgb32,
    Rgb565,
}

/// Parameters of the video stream: immutable once a session is built.
#[derive(Debug, Clone, Copy, PartialEq, Eq, Structural)]
pub struct VideoArgs {
    pub pixel_format: PixelFormat,
    pub fps: u32,
    pub width: u32,
    pub height: u32,
}

impl VideoArgs {
    /// A frame rate of zero would make the video time base degenerate.
    pub open spec fn wf(self) -> bool {
        self.fps >= 1
    }
}

/// Parameters of the audio stream: immutable once a session is built.
#[derive(Debug, Clone, Copy, PartialEq, Eq, Structural)]
pub struct AudioArgs {
    pub sample_rate: u32,
}

impl AudioArgs {
    pub open spec fn wf(self) -> bool {
        self.sample_rate >= 1
    }
}

/// Which streams a session carries, with their static parameters.
#[derive(Debug, Clone, Copy, PartialEq, Eq, Structural)]
pub enum OutputArgs {
    AudioVideo(AudioArgs, VideoArgs),
    Video(VideoArgs),
    Audio(AudioArgs),
}

impl OutputArgs {
    pub open spec fn spec_has_video(self) -> bool {
        self is Video || self is AudioVideo
    }

    pub open spec fn spec_has_audio(self) -> bool {
        self is Audio || self is AudioVideo
    }

    pub open spec fn wf(self) -> bool {
        match self {
            OutputArgs::AudioVideo(a, v) => a.wf() && v.wf(),
            OutputArgs::Video(v) => v.wf(),
            OutputArgs::Audio(a) => a.wf(),
        }
    }

    /// True when the session described by these arguments has a video stream.
    pub fn has_video(&self) -> (b: bool)
        ensures
            b == self.spec_has_video(),
    {
        match self {
            OutputArgs::Video(_) => true,
            OutputArgs::AudioVideo(_, _) => true,
            OutputArgs::Audio(_) => false,
        }
    }

    /// True when the session described by these arguments has an audio stream.
    pub fn has_audio(&self) -> (b: bool)
        ensures
            b == self.spec_has_audio(),
    {
        match self {
            OutputArgs::Audio(_) => true,
            OutputArgs::AudioVideo(_, _) => true,
            OutputArgs::Video(_) => false,
        }
    }
}

} // verus!
