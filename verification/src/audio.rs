//! The input device as the capture logic sees it: its layout and the format
//! of the frames that its callback delivers.

use crate::capture::{CaptureMode, CaptureModel, SampleFormat, WavSpec};
use vstd::prelude::*;
use vstd::string::*;

verus! {

/// The format of the samples that a device delivers.
#[derive(Clone, Copy, Debug, PartialEq, Eq, Structural)]
pub enum DeviceSampleFormat {
    F32,
    I16,
    /// Any other format.
    Other,
}

/// The callback to register with the device.
#[derive(Clone, Copy, Debug, PartialEq, Eq, Structural)]
pub enum FrameKind {
    /// Frames of `f32`: each sample is clipped to [-1, 1] and scaled to the
    /// full range of `i16` before it is recorded.
    Float,
    /// Frames of `i16`, recorded as they come.
    Int,
}

/// Why no stream can be built.
#[derive(Clone, Copy, Debug, PartialEq, Eq, Structural)]
pub enum StreamError {
    UnsupportedFormat,
}

impl StreamError {
    /// The message for the user.
    pub fn message(&self) -> (r: String)
        ensures
            r@ == "Unsupported audio sample format. Only F32 and I16 are currently supported."@,
    {
        String::from_str(
            "Unsupported audio sample format. Only F32 and I16 are currently supported.",
        )
    }
}

/// The default configuration of the default input device.
#[derive(Clone, Copy, Debug, PartialEq, Eq, Structural)]
pub struct AudioSystem {
    pub channels: u16,
    pub sample_rate: u32,
    pub sample_format: DeviceSampleFormat,
}

impl AudioSystem {
    /// A device with the given stream configuration.
    pub fn new(channels: u16, sample_rate: u32, sample_format: DeviceSampleFormat) -> (r:
        AudioSystem)
        ensures
            r == (AudioSystem { channels, sample_rate, sample_format }),
    {
        AudioSystem { channels, sample_rate, sample_format }
    }

    /// The shape of what is recorded from this device: 16-bit signed PCM
    /// with the device's channel count and sample rate.
    pub fn get_wav_spec(&self) -> (r: WavSpec)
        ensures
            r == (WavSpec {
                channels: self.channels,
                sample_rate: self.sample_rate,
                bits_per_sample: 16,
                sample_format: SampleFormat::Int,
            }),
    {
        WavSpec::pcm16(self.channels, self.sample_rate)
    }

    /// Chooses the callback for the device's sample format, and fails for a
    /// format that cannot be recorded.
    pub fn build_stream(&self) -> (r: Result<FrameKind, StreamError>)
        ensures
            r == (match self.sample_format {
                DeviceSampleFormat::F32 => Ok::<FrameKind, StreamError>(FrameKind::Float),
                DeviceSampleFormat::I16 => Ok::<FrameKind, StreamError>(FrameKind::Int),
                DeviceSampleFormat::Other => Err::<FrameKind, StreamError>(
                    StreamError::UnsupportedFormat,
                ),
            }),
    {
        match self.sample_format {
            DeviceSampleFormat::F32 => Ok(FrameKind::Float),
            DeviceSampleFormat::I16 => Ok(FrameKind::Int),
            DeviceSampleFormat::Other => Err(StreamError::UnsupportedFormat),
        }
    }
}

/// The primary back-end of `device` before the first press.
pub open spec fn idle_primary(device: AudioSystem) -> CaptureModel {
    CaptureModel::Primary {
        audio_buffer: Seq::empty(),
        is_recording: false,
        wav_spec: WavSpec {
            channels: device.channels,
            sample_rate: device.sample_rate,
            bits_per_sample: 16,
            sample_format: SampleFormat::Int,
        },
    }
}

/// The fallback back-end before the first press.
pub open spec fn idle_fallback() -> CaptureModel {
    CaptureModel::Fallback { current_file: None }
}

/// The back-end to capture with, given the default input device, if there is
/// one: the primary back-end where the device delivers frames that can be
/// recorded, with the callback to register; the fallback back-end otherwise.
pub fn select_capture(device: Option<AudioSystem>) -> (r: (CaptureMode, Option<FrameKind>))
    ensures
        match device {
            Some(d) => match d.sample_format {
                DeviceSampleFormat::F32 => r.0@ == idle_primary(d) && r.1 == Some(FrameKind::Float),
                DeviceSampleFormat::I16 => r.0@ == idle_primary(d) && r.1 == Some(FrameKind::Int),
                DeviceSampleFormat::Other => r.0@ == idle_fallback() && r.1 is None,
            },
            None => r.0@ == idle_fallback() && r.1 is None,
        },
{
    match device {
        Some(d) => match d.build_stream() {
            Ok(kind) => (CaptureMode::primary(d.get_wav_spec()), Some(kind)),
            Err(_) => (CaptureMode::fallback(), None),
        },
        None => (CaptureMode::fallback(), None),
    }
}

} // verus!
