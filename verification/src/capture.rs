//! The capture back-ends and the push-to-talk state machine that drives them.
//!
//! The primary back-end accumulates samples in a buffer while it is recording;
//! the fallback back-end records into a file through a helper process. The
//! state machine sees two kinds of event, a keyboard poll and an audio frame,
//! and answers each poll with what the caller has to do next.

use crate::text::{decimal, decimal_string, lemma_decimal_injective, push_arg};
use vstd::prelude::*;
use vstd::string::*;

verus! {

/// Milliseconds between two polls of the keyboard.
pub const POLL_INTERVAL_MS: u64 = 20;

/// Files of at most this many bytes hold a header and no audio.
pub const WAV_HEADER_BYTES: u64 = 44;

/// Encoding of one sample in a WAV file.
#[derive(Clone, Copy, Debug, PartialEq, Eq, Structural)]
pub enum SampleFormat {
    Float,
    Int,
}

/// Shape of the audio handed to the transcriber.
#[derive(Clone, Copy, Debug, PartialEq, Eq, Structural)]
pub struct WavSpec {
    pub channels: u16,
    pub sample_rate: u32,
    pub bits_per_sample: u16,
    pub sample_format: SampleFormat,
}

impl WavSpec {
    /// 16-bit signed integer PCM with the given layout.
    pub fn pcm16(channels: u16, sample_rate: u32) -> (r: WavSpec)
        ensures
            r == (WavSpec {
                channels,
                sample_rate,
                bits_per_sample: 16,
                sample_format: SampleFormat::Int,
            }),
    {
        WavSpec { channels, sample_rate, bits_per_sample: 16, sample_format: SampleFormat::Int }
    }

    /// What the fallback recorder is told to produce: 16 kHz mono, 16 bits.
    pub fn fallback() -> (r: WavSpec)
        ensures
            r == (WavSpec {
                channels: 1,
                sample_rate: 16000,
                bits_per_sample: 16,
                sample_format: SampleFormat::Int,
            }),
    {
        WavSpec::pcm16(1, 16000)
    }
}

/// The audio of one key press, owned by the job that transcribes it.
#[derive(Debug, PartialEq, Eq)]
pub enum TranscriptionJob {
    /// A copy of the samples captured by the primary back-end.
    Samples { samples: Vec<i16>, wav_spec: WavSpec },
    /// The file written by the fallback recorder.
    File { path: String },
}

/// Mathematical value of a [`TranscriptionJob`].
pub enum JobModel {
    Samples { samples: Seq<i16>, wav_spec: WavSpec },
    File { path: Seq<char> },
}

impl View for TranscriptionJob {
    type V = JobModel;

    open spec fn view(&self) -> JobModel {
        match self {
            TranscriptionJob::Samples { samples, wav_spec } => JobModel::Samples {
                samples: samples@,
                wav_spec: *wav_spec,
            },
            TranscriptionJob::File { path } => JobModel::File { path: path@ },
        }
    }
}

/// What the caller does after a keyboard poll.
#[derive(Debug, PartialEq, Eq)]
pub enum PollAction {
    /// No edge: nothing to do.
    Nothing,
    /// Primary back-end, key went down: the buffer is empty and recording is on;
    /// play the start cue.
    CaptureStarted,
    /// Fallback back-end, key went down: play the start cue and spawn the
    /// recorder, then report its file with `recorder_started`.
    SpawnRecorder,
    /// Primary back-end, key went up: recording is off; play the end cue and
    /// run the job, if there is one.
    CaptureFinished { job: Option<TranscriptionJob> },
    /// Fallback back-end, key went up: stop the recorder, play the end cue,
    /// then decide with `fallback_job` whether `path` is worth sending.
    StopRecorder { path: String },
}

/// Mathematical value of a [`PollAction`].
pub enum ActionModel {
    Nothing,
    CaptureStarted,
    SpawnRecorder,
    CaptureFinished { job: Option<JobModel> },
    StopRecorder { path: Seq<char> },
}

impl View for PollAction {
    type V = ActionModel;

    open spec fn view(&self) -> ActionModel {
        match self {
            PollAction::Nothing => ActionModel::Nothing,
            PollAction::CaptureStarted => ActionModel::CaptureStarted,
            PollAction::SpawnRecorder => ActionModel::SpawnRecorder,
            PollAction::CaptureFinished { job } => ActionModel::CaptureFinished {
                job: match job {
                    Some(j) => Some(j@),
                    None => None,
                },
            },
            PollAction::StopRecorder { path } => ActionModel::StopRecorder { path: path@ },
        }
    }
}

/// State of the active capture back-end.
#[derive(Debug, PartialEq, Eq)]
pub enum CaptureMode {
    /// In-process capture: the samples of the current press and the flag that
    /// lets the audio callback append to them.
    Primary { audio_buffer: Vec<i16>, is_recording: bool, wav_spec: WavSpec },
    /// Capture by a recorder process: the file it writes while it runs.
    Fallback { current_file: Option<String> },
}

/// Mathematical value of a [`CaptureMode`].
pub enum CaptureModel {
    Primary { audio_buffer: Seq<i16>, is_recording: bool, wav_spec: WavSpec },
    Fallback { current_file: Option<Seq<char>> },
}

impl View for CaptureMode {
    type V = CaptureModel;

    open spec fn view(&self) -> CaptureModel {
        match self {
            CaptureMode::Primary { audio_buffer, is_recording, wav_spec } => CaptureModel::Primary {
                audio_buffer: audio_buffer@,
                is_recording: *is_recording,
                wav_spec: *wav_spec,
            },
            CaptureMode::Fallback { current_file } => CaptureModel::Fallback {
                current_file: match current_file {
                    Some(p) => Some(p@),
                    None => None,
                },
            },
        }
    }
}

impl CaptureModel {
    /// Whether a recording is in progress.
    pub open spec fn recording(self) -> bool {
        match self {
            CaptureModel::Primary { is_recording, .. } => is_recording,
            CaptureModel::Fallback { current_file } => current_file is Some,
        }
    }

    /// The state after the audio callback delivered `frame`.
    pub open spec fn on_frame(self, frame: Seq<i16>) -> CaptureModel {
        match self {
            CaptureModel::Primary { audio_buffer, is_recording, wav_spec } => if is_recording {
                CaptureModel::Primary { audio_buffer: audio_buffer + frame, is_recording, wav_spec }
            } else {
                self
            },
            CaptureModel::Fallback { .. } => self,
        }
    }

    /// The state after a keyboard poll that found the key held or not.
    pub open spec fn after_poll(self, held: bool) -> CaptureModel {
        match self {
            CaptureModel::Primary { audio_buffer, is_recording, wav_spec } => if held
                && !is_recording {
                CaptureModel::Primary { audio_buffer: Seq::empty(), is_recording: true, wav_spec }
            } else if !held && is_recording {
                CaptureModel::Primary { audio_buffer, is_recording: false, wav_spec }
            } else {
                self
            },
            CaptureModel::Fallback { current_file } => if held {
                self
            } else {
                CaptureModel::Fallback { current_file: None }
            },
        }
    }

    /// What a keyboard poll asks of the caller.
    pub open spec fn poll_action(self, held: bool) -> ActionModel {
        match self {
            CaptureModel::Primary { audio_buffer, is_recording, wav_spec } => if held
                && !is_recording {
                ActionModel::CaptureStarted
            } else if !held && is_recording {
                ActionModel::CaptureFinished {
                    job: if audio_buffer.len() > 0 {
                        Some(JobModel::Samples { samples: audio_buffer, wav_spec })
                    } else {
                        None
                    },
                }
            } else {
                ActionModel::Nothing
            },
            CaptureModel::Fallback { current_file } => match current_file {
                None => if held {
                    ActionModel::SpawnRecorder
                } else {
                    ActionModel::Nothing
                },
                Some(path) => if held {
                    ActionModel::Nothing
                } else {
                    ActionModel::StopRecorder { path }
                },
            },
        }
    }

    /// The state after the recorder process was spawned writing to `path`.
    pub open spec fn recorder_started(self, path: Seq<char>) -> CaptureModel {
        match self {
            CaptureModel::Primary { .. } => self,
            CaptureModel::Fallback { .. } => CaptureModel::Fallback { current_file: Some(path) },
        }
    }
}

impl CaptureMode {
    /// An idle primary back-end for a device with the given layout.
    pub fn primary(wav_spec: WavSpec) -> (r: CaptureMode)
        ensures
            r@ == (CaptureModel::Primary {
                audio_buffer: Seq::empty(),
                is_recording: false,
                wav_spec,
            }),
    {
        CaptureMode::Primary { audio_buffer: Vec::new(), is_recording: false, wav_spec }
    }

    /// An idle fallback back-end.
    pub fn fallback() -> (r: CaptureMode)
        ensures
            r@ == (CaptureModel::Fallback { current_file: None }),
    {
        CaptureMode::Fallback { current_file: None }
    }

    /// Whether a recording is in progress.
    pub fn is_recording(&self) -> (r: bool)
        ensures
            r == self@.recording(),
    {
        match self {
            CaptureMode::Primary { is_recording, .. } => *is_recording,
            CaptureMode::Fallback { current_file } => current_file.is_some(),
        }
    }

    /// The audio callback: appends `frame` while recording is on and drops it
    /// otherwise.
    pub fn on_frame(&mut self, frame: &[i16])
        ensures
            final(self)@ == old(self)@.on_frame(frame@),
    {
        match self {
            CaptureMode::Primary { audio_buffer, is_recording, .. } => {
                if *is_recording {
                    let ghost before = audio_buffer@;
                    audio_buffer.extend_from_slice(frame);
                    assert(audio_buffer@ =~= before + frame@);
                }
            },
            CaptureMode::Fallback { .. } => {},
        }
    }

    /// One keyboard poll. On a down edge the primary back-end empties its
    /// buffer and turns recording on; on an up edge it turns it off and hands
    /// out a copy of the buffer, unless nothing was captured. The fallback
    /// back-end gives up its file on an up edge.
    pub fn poll(&mut self, held: bool) -> (action: PollAction)
        ensures
            final(self)@ == old(self)@.after_poll(held),
            action@ == old(self)@.poll_action(held),
    {
        match self {
            CaptureMode::Primary { audio_buffer, is_recording, wav_spec } => {
                if held && !*is_recording {
                    audio_buffer.clear();
                    *is_recording = true;
                    PollAction::CaptureStarted
                } else if !held && *is_recording {
                    *is_recording = false;
                    if audio_buffer.len() > 0 {
                        let samples = audio_buffer.clone();
                        assert(samples@ =~= audio_buffer@);
                        PollAction::CaptureFinished {
                            job: Some(TranscriptionJob::Samples { samples, wav_spec: *wav_spec }),
                        }
                    } else {
                        PollAction::CaptureFinished { job: None }
                    }
                } else {
                    PollAction::Nothing
                }
            },
            CaptureMode::Fallback { current_file } => {
                if held {
                    if current_file.is_none() {
                        PollAction::SpawnRecorder
                    } else {
                        PollAction::Nothing
                    }
                } else {
                    match current_file.take() {
                        Some(path) => PollAction::StopRecorder { path },
                        None => PollAction::Nothing,
                    }
                }
            },
        }
    }

    /// Records that the recorder process runs and writes to `path`. The
    /// primary back-end has no recorder and stays as it is.
    pub fn recorder_started(&mut self, path: String)
        ensures
            final(self)@ == old(self)@.recorder_started(path@),
    {
        match self {
            CaptureMode::Primary { .. } => {},
            CaptureMode::Fallback { current_file } => {
                *current_file = Some(path);
            },
        }
    }
}

/// Whether a recording of `file_size` bytes holds audio; `None` stands for a
/// file whose size could not be read.
pub open spec fn holds_audio(file_size: Option<u64>) -> bool {
    match file_size {
        Some(n) => n > WAV_HEADER_BYTES,
        None => false,
    }
}

/// The job for a file left by the fallback recorder: none unless the file is
/// longer than a WAV header.
pub fn fallback_job(path: String, file_size: Option<u64>) -> (job: Option<TranscriptionJob>)
    ensures
        holds_audio(file_size) ==> job is Some && job->0@ == (JobModel::File { path: path@ }),
        !holds_audio(file_size) ==> job is None,
{
    match file_size {
        Some(n) => {
            if n > WAV_HEADER_BYTES {
                Some(TranscriptionJob::File { path })
            } else {
                None
            }
        },
        None => None,
    }
}

/// The file that a recording started at `epoch_ms` milliseconds after the
/// epoch is written to.
pub open spec fn recording_path(epoch_ms: nat) -> Seq<char> {
    "/tmp/voice-ptt-"@ + decimal(epoch_ms) + ".wav"@
}

/// Recordings started at different milliseconds are written to different
/// files.
pub proof fn lemma_recording_paths_differ(a: nat, b: nat)
    requires
        a != b,
    ensures
        recording_path(a) != recording_path(b),
{
    let head = "/tmp/voice-ptt-"@;
    let tail = ".wav"@;
    let pa = recording_path(a);
    let pb = recording_path(b);
    if pa == pb {
        let n = head.len() as int;
        let la = decimal(a).len() as int;
        let lb = decimal(b).len() as int;
        assert(pa.len() == n + la + tail.len());
        assert(pb.len() == n + lb + tail.len());
        assert(pa.subrange(n, n + la) =~= decimal(a));
        assert(pb.subrange(n, n + lb) =~= decimal(b));
        lemma_decimal_injective(a, b);
    }
}

/// The command that records 16 kHz mono 16-bit audio into `path` until it is
/// killed.
pub open spec fn recorder_command(path: Seq<char>) -> Seq<Seq<char>> {
    seq!["pw-record"@, "--rate"@, "16000"@, "--channels"@, "1"@, "--format"@, "s16"@, path]
}

/// Prepares a recording by the fallback back-end at the time `epoch_ms`:
/// the command to spawn and the file that it writes.
pub fn start_pw_recording(epoch_ms: u128) -> (r: (Vec<String>, String))
    ensures
        r.1@ == recording_path(epoch_ms as nat),
        r.0.deep_view() == recorder_command(recording_path(epoch_ms as nat)),
{
    let stamp = decimal_string(epoch_ms);
    let mut path = String::from_str("/tmp/voice-ptt-");
    path.append(stamp.as_str());
    path.append(".wav");
    let mut argv: Vec<String> = Vec::new();
    assert(argv.deep_view() =~= Seq::empty());
    push_arg(&mut argv, "pw-record");
    push_arg(&mut argv, "--rate");
    push_arg(&mut argv, "16000");
    push_arg(&mut argv, "--channels");
    push_arg(&mut argv, "1");
    push_arg(&mut argv, "--format");
    push_arg(&mut argv, "s16");
    push_arg(&mut argv, path.as_str());
    assert(argv.deep_view() =~= recorder_command(path@));
    (argv, path)
}

impl TranscriptionJob {
    /// The file to delete once the transcription was tried: the recording
    /// of the fallback back-end. A job that holds samples leaves none.
    pub fn cleanup_path(&self) -> (r: Option<String>)
        ensures
            match self@ {
                JobModel::Samples { .. } => r is None,
                JobModel::File { path } => r is Some && r->0@ == path,
            },
    {
        match self {
            TranscriptionJob::Samples { .. } => None,
            TranscriptionJob::File { path } => Some(path.clone()),
        }
    }
}

} // verus!
