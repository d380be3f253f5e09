use voice_ptt::api::{ServerReply, TranscribeError, WhisperClient};
use voice_ptt::config::{AppConfig, Platform};
use voice_ptt::injector::{InjectStep, InjectStrategy};
use voice_ptt::job::{after_transcription, error_notification, JobStep};

fn args(list: &[&str]) -> Vec<String> {
    list.iter().map(|s| s.to_string()).collect()
}

#[test]
fn test_whisper_client_init() {
    let key = "sk-test-key".to_string();
    let client = WhisperClient::new(key.clone());
    assert_eq!(client.api_key(), key);
}

#[test]
fn request_carries_model_and_no_language_by_default() {
    let client = WhisperClient::new("sk-test-key".to_string());
    let request = client.request(&AppConfig::default());
    assert_eq!(request.url, "https://api.openai.com/v1/audio/transcriptions");
    assert_eq!(request.bearer_token, "sk-test-key");
    assert_eq!(request.file_name, "recording.wav");
    assert_eq!(request.mime, "audio/wav");
    assert_eq!(request.model, "whisper-1");
    assert_eq!(request.language, None);
}

#[test]
fn request_carries_the_language_hint() {
    let client = WhisperClient::new("k".to_string());
    let mut config = AppConfig::default();
    config.model = "whisper-large".to_string();
    config.language = Some("en".to_string());
    let request = client.request(&config);
    assert_eq!(request.model, "whisper-large");
    assert_eq!(request.language, Some("en".to_string()));
}

#[test]
fn success_is_any_status_from_200_to_299() {
    assert!(WhisperClient::status_is_success(200));
    assert!(WhisperClient::status_is_success(204));
    assert!(WhisperClient::status_is_success(299));
    assert!(!WhisperClient::status_is_success(199));
    assert!(!WhisperClient::status_is_success(300));
    assert!(!WhisperClient::status_is_success(401));
    assert!(!WhisperClient::status_is_success(500));
    assert!(!WhisperClient::status_is_success(0));
}

#[test]
fn transcription_is_trimmed() {
    assert_eq!(
        WhisperClient::transcription(ServerReply::Text { text: " hello world ".to_string() }),
        Ok("hello world".to_string())
    );
    assert_eq!(
        WhisperClient::transcription(ServerReply::Text { text: "\n".to_string() }),
        Ok(String::new())
    );
}

#[test]
fn rejection_passes_the_body_on() {
    let body = "{\"error\": {\"message\": \"Incorrect API key provided\"}}";
    let result = WhisperClient::transcription(ServerReply::Rejected { body: body.to_string() });
    assert_eq!(result, Err(TranscribeError::Api { body: body.to_string() }));
    assert_eq!(
        result.unwrap_err().message(),
        "OpenAI API Error: {\"error\": {\"message\": \"Incorrect API key provided\"}}"
    );
}

#[test]
fn network_and_parse_failures_are_told_apart() {
    let result = WhisperClient::transcription(ServerReply::Unreachable);
    assert_eq!(result, Err(TranscribeError::Network));
    assert_eq!(result.unwrap_err().message(), "Failed to send request to OpenAI");
    let result = WhisperClient::transcription(ServerReply::Malformed);
    assert_eq!(result, Err(TranscribeError::Parse));
    assert_eq!(result.unwrap_err().message(), "Failed to parse OpenAI response");
}

#[test]
fn transcribed_text_is_injected_after_the_grace_period() {
    let config = AppConfig::default();
    let result = WhisperClient::transcription(ServerReply::Text {
        text: " hello world ".to_string(),
    });
    let step =
        after_transcription(&result, &config, InjectStrategy::LinuxClipboard, Platform::Linux);
    assert_eq!(
        step,
        JobStep::Inject {
            steps: vec![
                InjectStep::Sleep { ms: 150 },
                InjectStep::Feed {
                    argv: args(&["xsel", "--clipboard", "--input"]),
                    input: "hello world".to_string()
                },
                InjectStep::Sleep { ms: 50 },
                InjectStep::PasteIntoFocused,
            ]
        }
    );
}

#[test]
fn blank_transcription_runs_no_helper() {
    let config = AppConfig::default();
    for text in ["", "  ", "\n\t", "\u{a0}"] {
        let result = WhisperClient::transcription(ServerReply::Text { text: text.to_string() });
        for strategy in [
            InjectStrategy::LinuxClipboard,
            InjectStrategy::LinuxKeystroke,
            InjectStrategy::MacOs,
        ] {
            let step = after_transcription(&result, &config, strategy, Platform::Linux);
            assert_eq!(step, JobStep::Inject { steps: vec![] });
        }
    }
}

#[test]
fn keystroke_injection_uses_the_configured_delays() {
    let mut config = AppConfig::default();
    config.typing_delay_ms = 12;
    config.initial_delay_ms = 340;
    let step = after_transcription(
        &Ok("ok".to_string()),
        &config,
        InjectStrategy::LinuxKeystroke,
        Platform::Linux,
    );
    assert_eq!(
        step,
        JobStep::Inject {
            steps: vec![
                InjectStep::Sleep { ms: 340 },
                InjectStep::Run {
                    argv: args(&["xdotool", "type", "--clearmodifiers", "--delay", "12", "ok"])
                },
            ]
        }
    );
}

#[test]
fn failed_transcription_is_notified_and_not_injected() {
    let config = AppConfig::default();
    let result = WhisperClient::transcription(ServerReply::Rejected {
        body: "invalid api key".to_string(),
    });
    let step =
        after_transcription(&result, &config, InjectStrategy::LinuxClipboard, Platform::Linux);
    assert_eq!(
        step,
        JobStep::Notify {
            argv: args(&[
                "notify-send",
                "Voice PTT Error",
                "OpenAI API Error: invalid api key",
                "-t",
                "5000"
            ])
        }
    );
}

#[test]
fn failed_transcription_is_notified_on_macos() {
    let config = AppConfig::default();
    let step = after_transcription(
        &Err(TranscribeError::Network),
        &config,
        InjectStrategy::MacOs,
        Platform::MacOs,
    );
    assert_eq!(
        step,
        JobStep::Notify {
            argv: args(&[
                "osascript",
                "-e",
                "display notification \"Failed to send request to OpenAI\" with title \"Voice PTT Error\""
            ])
        }
    );
}

#[test]
fn errors_are_notified_under_one_title() {
    assert_eq!(
        error_notification("recorder did not start", Platform::Linux),
        args(&["notify-send", "Voice PTT Error", "recorder did not start", "-t", "5000"])
    );
}
