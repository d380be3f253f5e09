use voice_ptt::config::{AppConfig, PasteOverride, Platform};
use voice_ptt::injector::{InjectStep, InjectStrategy, SystemInjector, Tool};

fn args(list: &[&str]) -> Vec<String> {
    list.iter().map(|s| s.to_string()).collect()
}

#[test]
fn empty_text_is_not_injected() {
    for strategy in [
        InjectStrategy::LinuxClipboard,
        InjectStrategy::LinuxKeystroke,
        InjectStrategy::MacOs,
    ] {
        assert_eq!(SystemInjector::type_text("", 50, 150, strategy), vec![]);
    }
}

#[test]
fn clipboard_injection_waits_sets_the_clipboard_and_pastes() {
    let steps = SystemInjector::type_text("hello world", 50, 150, InjectStrategy::LinuxClipboard);
    assert_eq!(
        steps,
        vec![
            InjectStep::Sleep { ms: 150 },
            InjectStep::Feed {
                argv: args(&["xsel", "--clipboard", "--input"]),
                input: "hello world".to_string()
            },
            InjectStep::Sleep { ms: 50 },
            InjectStep::PasteIntoFocused,
        ]
    );
}

#[test]
fn every_plan_starts_with_the_initial_wait() {
    for strategy in [
        InjectStrategy::LinuxClipboard,
        InjectStrategy::LinuxKeystroke,
        InjectStrategy::MacOs,
    ] {
        let steps = SystemInjector::type_text("x", 5, 321, strategy);
        assert_eq!(steps[0], InjectStep::Sleep { ms: 321 });
        let steps = SystemInjector::type_text(" ", 5, 0, strategy);
        assert_eq!(steps[0], InjectStep::Sleep { ms: 0 });
    }
}

#[test]
fn keystroke_injection_types_with_the_configured_delay() {
    let steps = SystemInjector::type_text("hi there", 50, 150, InjectStrategy::LinuxKeystroke);
    assert_eq!(
        steps,
        vec![
            InjectStep::Sleep { ms: 150 },
            InjectStep::Run {
                argv: args(&["xdotool", "type", "--clearmodifiers", "--delay", "50", "hi there"])
            },
        ]
    );
}

#[test]
fn macos_injection_pastes_and_restores_the_clipboard() {
    let steps = SystemInjector::type_text("Привет", 50, 150, InjectStrategy::MacOs);
    let script = "set oldClipboard to the clipboard\n\
                  set the clipboard to \"Привет\"\n\
                  tell application \"System Events\"\n\
                  keystroke \"v\" using command down\n\
                  end tell\n\
                  delay 0.1\n\
                  set the clipboard to oldClipboard";
    assert_eq!(
        steps,
        vec![
            InjectStep::Sleep { ms: 150 },
            InjectStep::Run { argv: args(&["osascript", "-e", script]) },
        ]
    );
}

#[test]
fn macos_injection_escapes_quotes_and_backslashes() {
    let steps = SystemInjector::type_text("a \"b\" \\c", 50, 10, InjectStrategy::MacOs);
    match &steps[1] {
        InjectStep::Run { argv } => {
            assert_eq!(argv.len(), 3);
            assert!(argv[2].contains("set the clipboard to \"a \\\"b\\\" \\\\c\"\n"));
        }
        other => panic!("unexpected step {:?}", other),
    }
}

#[test]
fn window_class_is_asked_of_xdotool() {
    assert_eq!(
        SystemInjector::window_class_command(),
        args(&["xdotool", "getactivewindow", "getwindowclassname"])
    );
}

#[test]
fn paste_uses_the_override_of_the_focused_window() {
    let mut config = AppConfig::default();
    config.paste_overrides.push(PasteOverride {
        window_class: "Kitty".to_string(),
        shortcut: "ctrl+shift+v".to_string(),
    });
    assert_eq!(
        SystemInjector::paste_command(&config, Some("kitty\n")),
        args(&["xdotool", "key", "--clearmodifiers", "ctrl+shift+v"])
    );
    assert_eq!(
        SystemInjector::paste_command(&config, Some("  KITTY  ")),
        args(&["xdotool", "key", "--clearmodifiers", "ctrl+shift+v"])
    );
}

#[test]
fn paste_defaults_to_ctrl_v() {
    let mut config = AppConfig::default();
    assert_eq!(
        SystemInjector::paste_command(&config, Some("firefox\n")),
        args(&["xdotool", "key", "--clearmodifiers", "ctrl+v"])
    );
    config.paste_overrides.push(PasteOverride {
        window_class: "kitty".to_string(),
        shortcut: "ctrl+shift+v".to_string(),
    });
    assert_eq!(
        SystemInjector::paste_command(&config, None),
        args(&["xdotool", "key", "--clearmodifiers", "ctrl+v"])
    );
    assert_eq!(
        SystemInjector::paste_command(&config, Some("")),
        args(&["xdotool", "key", "--clearmodifiers", "ctrl+v"])
    );
    assert_eq!(
        SystemInjector::paste_command(&config, Some("kit ty")),
        args(&["xdotool", "key", "--clearmodifiers", "ctrl+v"])
    );
}

#[test]
fn sounds_are_played_by_the_platform_player() {
    assert_eq!(
        SystemInjector::play_sound(true, "/s/start.oga", Platform::Linux),
        Some(args(&["paplay", "/s/start.oga"]))
    );
    assert_eq!(
        SystemInjector::play_sound(true, "/s/Tink.aiff", Platform::MacOs),
        Some(args(&["afplay", "/s/Tink.aiff"]))
    );
}

#[test]
fn disabled_sounds_are_not_played() {
    assert_eq!(SystemInjector::play_sound(false, "/s/start.oga", Platform::Linux), None);
    assert_eq!(SystemInjector::play_sound(false, "/s/Tink.aiff", Platform::MacOs), None);
}

#[test]
fn linux_notification_lasts_five_seconds() {
    assert_eq!(
        SystemInjector::notify("Voice PTT Error", "no \"luck\"", Platform::Linux),
        args(&["notify-send", "Voice PTT Error", "no \"luck\"", "-t", "5000"])
    );
}

#[test]
fn macos_notification_is_a_script_with_escaped_quotes() {
    assert_eq!(
        SystemInjector::notify("A \"title\"", "no \"luck\" \\ here", Platform::MacOs),
        args(&[
            "osascript",
            "-e",
            "display notification \"no \\\"luck\\\" \\ here\" with title \"A \\\"title\\\"\""
        ])
    );
}

#[test]
fn linux_needs_xdotool_and_xsel() {
    assert_eq!(SystemInjector::check_dependencies(Platform::Linux, true, true), Ok(()));
    assert_eq!(
        SystemInjector::check_dependencies(Platform::Linux, false, true),
        Err(Tool::Xdotool)
    );
    assert_eq!(
        SystemInjector::check_dependencies(Platform::Linux, false, false),
        Err(Tool::Xdotool)
    );
    assert_eq!(SystemInjector::check_dependencies(Platform::Linux, true, false), Err(Tool::Xsel));
}

#[test]
fn macos_needs_nothing_checked() {
    assert_eq!(SystemInjector::check_dependencies(Platform::MacOs, false, false), Ok(()));
    assert_eq!(SystemInjector::check_dependencies(Platform::MacOs, true, true), Ok(()));
}

#[test]
fn tools_are_probed_by_their_version_flag() {
    assert_eq!(Tool::Xdotool.probe_command(), args(&["xdotool", "--version"]));
    assert_eq!(Tool::Xsel.probe_command(), args(&["xsel", "--version"]));
    assert_eq!(
        Tool::Xdotool.missing_message(),
        "'xdotool' is required but not found in PATH."
    );
    assert_eq!(
        Tool::Xsel.missing_message(),
        "'xsel' is required for fast text injection. Please install it (e.g., sudo pacman -S xsel)."
    );
}

#[test]
fn strategy_follows_platform_and_tools() {
    assert_eq!(InjectStrategy::for_platform(Platform::Linux, true), InjectStrategy::LinuxClipboard);
    assert_eq!(InjectStrategy::for_platform(Platform::Linux, false), InjectStrategy::LinuxKeystroke);
    assert_eq!(InjectStrategy::for_platform(Platform::MacOs, true), InjectStrategy::MacOs);
    assert_eq!(InjectStrategy::for_platform(Platform::MacOs, false), InjectStrategy::MacOs);
}
