use voice_ptt::audio::{AudioSystem, DeviceSampleFormat, FrameKind, StreamError};
use voice_ptt::capture::{
    fallback_job, start_pw_recording, CaptureMode, PollAction, SampleFormat, TranscriptionJob,
    WavSpec,
};

fn spec() -> WavSpec {
    WavSpec::pcm16(2, 48000)
}

fn samples_job(samples: Vec<i16>) -> PollAction {
    PollAction::CaptureFinished {
        job: Some(TranscriptionJob::Samples { samples, wav_spec: spec() }),
    }
}

#[test]
fn wav_spec_is_sixteen_bit_pcm() {
    let s = WavSpec::pcm16(2, 44100);
    assert_eq!(s.channels, 2);
    assert_eq!(s.sample_rate, 44100);
    assert_eq!(s.bits_per_sample, 16);
    assert_eq!(s.sample_format, SampleFormat::Int);
    assert_eq!(WavSpec::fallback(), WavSpec::pcm16(1, 16000));
}

#[test]
fn device_layout_becomes_the_wav_spec() {
    let device = AudioSystem::new(1, 22050, DeviceSampleFormat::F32);
    assert_eq!(device.get_wav_spec(), WavSpec::pcm16(1, 22050));
}

#[test]
fn stream_is_built_for_float_and_int_frames_only() {
    assert_eq!(
        AudioSystem::new(2, 48000, DeviceSampleFormat::F32).build_stream(),
        Ok(FrameKind::Float)
    );
    assert_eq!(
        AudioSystem::new(2, 48000, DeviceSampleFormat::I16).build_stream(),
        Ok(FrameKind::Int)
    );
    assert_eq!(
        AudioSystem::new(2, 48000, DeviceSampleFormat::Other).build_stream(),
        Err(StreamError::UnsupportedFormat)
    );
    assert_eq!(
        StreamError::UnsupportedFormat.message(),
        "Unsupported audio sample format. Only F32 and I16 are currently supported."
    );
}

#[test]
fn primary_starts_idle() {
    let mode = CaptureMode::primary(spec());
    assert!(!mode.is_recording());
    assert_eq!(
        mode,
        CaptureMode::Primary { audio_buffer: vec![], is_recording: false, wav_spec: spec() }
    );
}

#[test]
fn recording_is_on_between_down_and_up_edge() {
    let mut mode = CaptureMode::primary(spec());
    assert_eq!(mode.poll(false), PollAction::Nothing);
    assert!(!mode.is_recording());
    assert_eq!(mode.poll(true), PollAction::CaptureStarted);
    assert!(mode.is_recording());
    assert_eq!(mode.poll(true), PollAction::Nothing);
    assert!(mode.is_recording());
    mode.on_frame(&[1]);
    assert!(mode.is_recording());
    assert_eq!(mode.poll(false), samples_job(vec![1]));
    assert!(!mode.is_recording());
    assert_eq!(mode.poll(false), PollAction::Nothing);
    assert!(!mode.is_recording());
}

#[test]
fn snapshot_holds_the_frames_of_the_press_in_order() {
    let mut mode = CaptureMode::primary(spec());
    mode.on_frame(&[9, 9, 9]);
    assert_eq!(mode.poll(true), PollAction::CaptureStarted);
    mode.on_frame(&[1, 2]);
    assert_eq!(mode.poll(true), PollAction::Nothing);
    mode.on_frame(&[]);
    mode.on_frame(&[-3]);
    mode.on_frame(&[i16::MAX, i16::MIN]);
    assert_eq!(mode.poll(false), samples_job(vec![1, 2, -3, i16::MAX, i16::MIN]));
    mode.on_frame(&[7]);
    assert_eq!(mode.poll(false), PollAction::Nothing);
}

#[test]
fn buffer_is_empty_at_each_start() {
    let mut mode = CaptureMode::primary(spec());
    mode.poll(true);
    mode.on_frame(&[1, 2, 3]);
    mode.poll(false);
    assert_eq!(mode.poll(true), PollAction::CaptureStarted);
    assert_eq!(
        mode,
        CaptureMode::Primary { audio_buffer: vec![], is_recording: true, wav_spec: spec() }
    );
}

#[test]
fn empty_capture_gives_no_job() {
    let mut mode = CaptureMode::primary(spec());
    assert_eq!(mode.poll(true), PollAction::CaptureStarted);
    assert_eq!(mode.poll(false), PollAction::CaptureFinished { job: None });
    assert!(!mode.is_recording());
}

#[test]
fn jobs_of_two_presses_are_independent() {
    let mut mode = CaptureMode::primary(spec());
    mode.poll(true);
    mode.on_frame(&[1, 2]);
    let first = mode.poll(false);
    mode.on_frame(&[5]);
    mode.poll(true);
    mode.on_frame(&[3]);
    let second = mode.poll(false);
    assert_eq!(first, samples_job(vec![1, 2]));
    assert_eq!(second, samples_job(vec![3]));
}

#[test]
fn fallback_cycle_spawns_and_stops_the_recorder() {
    let mut mode = CaptureMode::fallback();
    assert!(!mode.is_recording());
    assert_eq!(mode.poll(false), PollAction::Nothing);
    assert_eq!(mode.poll(true), PollAction::SpawnRecorder);
    assert!(!mode.is_recording());
    mode.recorder_started("/tmp/voice-ptt-1.wav".to_string());
    assert!(mode.is_recording());
    assert_eq!(mode.poll(true), PollAction::Nothing);
    mode.on_frame(&[1, 2, 3]);
    assert_eq!(
        mode.poll(false),
        PollAction::StopRecorder { path: "/tmp/voice-ptt-1.wav".to_string() }
    );
    assert!(!mode.is_recording());
    assert_eq!(mode, CaptureMode::fallback());
}

#[test]
fn fallback_stays_idle_when_the_recorder_does_not_start() {
    let mut mode = CaptureMode::fallback();
    assert_eq!(mode.poll(true), PollAction::SpawnRecorder);
    assert_eq!(mode.poll(true), PollAction::SpawnRecorder);
    assert_eq!(mode.poll(false), PollAction::Nothing);
    assert_eq!(mode, CaptureMode::fallback());
}

#[test]
fn primary_has_no_recorder() {
    let mut mode = CaptureMode::primary(spec());
    mode.recorder_started("/tmp/x.wav".to_string());
    assert_eq!(mode, CaptureMode::primary(spec()));
}

#[test]
fn header_only_files_are_not_sent() {
    assert_eq!(fallback_job("/tmp/a.wav".to_string(), Some(0)), None);
    assert_eq!(fallback_job("/tmp/a.wav".to_string(), Some(44)), None);
    assert_eq!(fallback_job("/tmp/a.wav".to_string(), None), None);
    assert_eq!(
        fallback_job("/tmp/a.wav".to_string(), Some(45)),
        Some(TranscriptionJob::File { path: "/tmp/a.wav".to_string() })
    );
    assert_eq!(
        fallback_job("/tmp/a.wav".to_string(), Some(u64::MAX)),
        Some(TranscriptionJob::File { path: "/tmp/a.wav".to_string() })
    );
}

#[test]
fn recorder_writes_a_time_stamped_file() {
    let (argv, path) = start_pw_recording(1761593000123);
    assert_eq!(path, "/tmp/voice-ptt-1761593000123.wav");
    assert_eq!(
        argv,
        vec![
            "pw-record",
            "--rate",
            "16000",
            "--channels",
            "1",
            "--format",
            "s16",
            "/tmp/voice-ptt-1761593000123.wav"
        ]
    );
    let (_, first) = start_pw_recording(0);
    assert_eq!(first, "/tmp/voice-ptt-0.wav");
}

#[test]
fn only_file_jobs_leave_a_file_to_delete() {
    let file = TranscriptionJob::File { path: "/tmp/voice-ptt-5.wav".to_string() };
    assert_eq!(file.cleanup_path(), Some("/tmp/voice-ptt-5.wav".to_string()));
    let samples = TranscriptionJob::Samples { samples: vec![1], wav_spec: spec() };
    assert_eq!(samples.cleanup_path(), None);
}

#[test]
fn usable_device_selects_the_primary_back_end() {
    let device = AudioSystem::new(2, 48000, DeviceSampleFormat::F32);
    let (mode, kind) = voice_ptt::audio::select_capture(Some(device));
    assert_eq!(mode, CaptureMode::primary(WavSpec::pcm16(2, 48000)));
    assert_eq!(kind, Some(FrameKind::Float));
    let device = AudioSystem::new(1, 16000, DeviceSampleFormat::I16);
    let (mode, kind) = voice_ptt::audio::select_capture(Some(device));
    assert_eq!(mode, CaptureMode::primary(WavSpec::pcm16(1, 16000)));
    assert_eq!(kind, Some(FrameKind::Int));
}

#[test]
fn missing_or_unusable_device_selects_the_fallback_back_end() {
    let (mode, kind) = voice_ptt::audio::select_capture(None);
    assert_eq!(mode, CaptureMode::fallback());
    assert_eq!(kind, None);
    let device = AudioSystem::new(2, 48000, DeviceSampleFormat::Other);
    let (mode, kind) = voice_ptt::audio::select_capture(Some(device));
    assert_eq!(mode, CaptureMode::fallback());
    assert_eq!(kind, None);
}

#[test]
fn start_cue_is_played_on_a_down_edge() {
    let config = voice_ptt::config::AppConfig::default();
    let linux = voice_ptt::config::Platform::Linux;
    let start = Some(vec![
        "paplay".to_string(),
        "/usr/share/sounds/freedesktop/stereo/audio-volume-change.oga".to_string(),
    ]);
    assert_eq!(voice_ptt::cues::cue_for(&PollAction::CaptureStarted, &config, linux), start);
    assert_eq!(voice_ptt::cues::cue_for(&PollAction::SpawnRecorder, &config, linux), start);
    assert_eq!(voice_ptt::cues::cue_for(&PollAction::Nothing, &config, linux), None);
}

#[test]
fn end_cue_is_played_on_an_up_edge_even_without_audio() {
    let config = voice_ptt::config::AppConfig::default();
    let mac = voice_ptt::config::Platform::MacOs;
    let end = Some(vec!["afplay".to_string(), "/System/Library/Sounds/Morse.aiff".to_string()]);
    let mut mode = CaptureMode::primary(spec());
    mode.poll(true);
    let released = mode.poll(false);
    assert_eq!(released, PollAction::CaptureFinished { job: None });
    assert_eq!(voice_ptt::cues::cue_for(&released, &config, mac), end);
    assert_eq!(voice_ptt::cues::cue_for(&samples_job(vec![1]), &config, mac), end);
    let stop = PollAction::StopRecorder { path: "/tmp/voice-ptt-1.wav".to_string() };
    assert_eq!(voice_ptt::cues::cue_for(&stop, &config, mac), end);
}

#[test]
fn no_cue_is_played_when_sounds_are_off() {
    let mut config = voice_ptt::config::AppConfig::default();
    config.sound_enabled = false;
    let linux = voice_ptt::config::Platform::Linux;
    assert_eq!(voice_ptt::cues::cue_for(&PollAction::CaptureStarted, &config, linux), None);
    assert_eq!(
        voice_ptt::cues::cue_for(&PollAction::CaptureFinished { job: None }, &config, linux),
        None
    );
}
