//! Text injection and the other helper programs: which commands to run, in
//! which order, with which arguments. Running them is left to the caller.

use crate::config::{default_paste_shortcut, shortcut_for, AppConfig, PasteOverride, Platform};
use crate::text::{decimal, decimal_string, escape, escaped, push_arg, trim, trimmed};
use vstd::prelude::*;
use vstd::string::*;

verus! {

/// Milliseconds granted to the clipboard to settle before the paste.
pub const CLIPBOARD_SETTLE_MS: u64 = 50;

/// How text reaches the focused window.
#[derive(Clone, Copy, Debug, PartialEq, Eq, Structural)]
pub enum InjectStrategy {
    /// X11: put the text on the clipboard and synthesize the paste shortcut
    /// of the focused window.
    LinuxClipboard,
    /// X11 without a clipboard tool: synthesize one keystroke per character.
    LinuxKeystroke,
    /// macOS: paste through a script that restores the clipboard afterwards.
    MacOs,
}

impl InjectStrategy {
    /// The strategy for `platform`: on Linux the clipboard where a clipboard
    /// tool was found and single keystrokes where none was.
    pub fn for_platform(platform: Platform, clipboard_tool_found: bool) -> (r: InjectStrategy)
        ensures
            r == (match platform {
                Platform::MacOs => InjectStrategy::MacOs,
                Platform::Linux => if clipboard_tool_found {
                    InjectStrategy::LinuxClipboard
                } else {
                    InjectStrategy::LinuxKeystroke
                },
            }),
    {
        match platform {
            Platform::MacOs => InjectStrategy::MacOs,
            Platform::Linux => {
                if clipboard_tool_found {
                    InjectStrategy::LinuxClipboard
                } else {
                    InjectStrategy::LinuxKeystroke
                }
            },
        }
    }
}

/// One step of an injection; the steps of a plan are carried out in order,
/// and a step that fails ends the plan.
#[derive(Debug, PartialEq, Eq)]
pub enum InjectStep {
    /// Wait for `ms` milliseconds.
    Sleep { ms: u64 },
    /// Run `argv`, write `input` to its standard input, close it, and wait
    /// for the program to exit.
    Feed { argv: Vec<String>, input: String },
    /// Run `window_class_command`, hand what it printed to `paste_command`,
    /// and run the command that comes back.
    PasteIntoFocused,
    /// Run `argv` and wait for it to exit.
    Run { argv: Vec<String> },
}

/// Mathematical value of an [`InjectStep`].
pub enum StepModel {
    Sleep { ms: u64 },
    Feed { argv: Seq<Seq<char>>, input: Seq<char> },
    PasteIntoFocused,
    Run { argv: Seq<Seq<char>> },
}

impl DeepView for InjectStep {
    type V = StepModel;

    open spec fn deep_view(&self) -> StepModel {
        match self {
            InjectStep::Sleep { ms } => StepModel::Sleep { ms: *ms },
            InjectStep::Feed { argv, input } => StepModel::Feed {
                argv: argv.deep_view(),
                input: input@,
            },
            InjectStep::PasteIntoFocused => StepModel::PasteIntoFocused,
            InjectStep::Run { argv } => StepModel::Run { argv: argv.deep_view() },
        }
    }
}

/// The command that replaces the clipboard selection by its standard input.
pub open spec fn clipboard_command() -> Seq<Seq<char>> {
    seq!["xsel"@, "--clipboard"@, "--input"@]
}

/// The command that prints the class of the focused window.
pub open spec fn window_class_query() -> Seq<Seq<char>> {
    seq!["xdotool"@, "getactivewindow"@, "getwindowclassname"@]
}

/// The command that synthesizes `shortcut` with all held modifiers cleared.
pub open spec fn key_command(shortcut: Seq<char>) -> Seq<Seq<char>> {
    seq!["xdotool"@, "key"@, "--clearmodifiers"@, shortcut]
}

/// The command that types `text` key by key, `delay_ms` apart.
pub open spec fn keystroke_command(text: Seq<char>, delay_ms: u64) -> Seq<Seq<char>> {
    seq!["xdotool"@, "type"@, "--clearmodifiers"@, "--delay"@, decimal(delay_ms as nat), text]
}

/// The script that saves the clipboard, sets it to `text`, pastes into the
/// frontmost application, waits a tenth of a second and restores the
/// clipboard.
pub open spec fn paste_script(text: Seq<char>) -> Seq<char> {
    "set oldClipboard to the clipboard\nset the clipboard to \""@ + escaped(text, true)
        + "\"\ntell application \"System Events\"\nkeystroke \"v\" using command down\nend tell\ndelay 0.1\nset the clipboard to oldClipboard"@
}

/// The command that runs `script`.
pub open spec fn script_command(script: Seq<char>) -> Seq<Seq<char>> {
    seq!["osascript"@, "-e"@, script]
}

/// The shortcut to synthesize, given what the window class query printed
/// (`None` where it could not be run): the override for the printed class,
/// trimmed, else the default.
pub open spec fn paste_key(overrides: Seq<PasteOverride>, output: Option<Seq<char>>) -> Seq<char> {
    match output {
        Some(printed) => shortcut_for(overrides, trimmed(printed)),
        None => default_paste_shortcut(),
    }
}

/// The steps that inject `text`: none for the empty text; else the initial
/// wait, followed by what the strategy asks for.
pub open spec fn injection_plan(
    text: Seq<char>,
    typing_delay_ms: u64,
    initial_delay_ms: u64,
    strategy: InjectStrategy,
) -> Seq<StepModel> {
    if text.len() == 0 {
        Seq::empty()
    } else {
        match strategy {
            InjectStrategy::LinuxClipboard => seq![
                StepModel::Sleep { ms: initial_delay_ms },
                StepModel::Feed { argv: clipboard_command(), input: text },
                StepModel::Sleep { ms: CLIPBOARD_SETTLE_MS },
                StepModel::PasteIntoFocused,
            ],
            InjectStrategy::LinuxKeystroke => seq![
                StepModel::Sleep { ms: initial_delay_ms },
                StepModel::Run { argv: keystroke_command(text, typing_delay_ms) },
            ],
            InjectStrategy::MacOs => seq![
                StepModel::Sleep { ms: initial_delay_ms },
                StepModel::Run { argv: script_command(paste_script(text)) },
            ],
        }
    }
}

/// Every injection starts with the initial wait: a plan is empty, which it is
/// exactly for the empty text, or its first step sleeps for
/// `initial_delay_ms` and no step before that one runs a helper.
pub proof fn lemma_wait_comes_first(
    text: Seq<char>,
    typing_delay_ms: u64,
    initial_delay_ms: u64,
    strategy: InjectStrategy,
)
    ensures
        ({
            let plan = injection_plan(text, typing_delay_ms, initial_delay_ms, strategy);
            &&& text.len() == 0 <==> plan.len() == 0
            &&& text.len() > 0 ==> plan[0] == (StepModel::Sleep { ms: initial_delay_ms })
        }),
{
}

/// The command that plays the sound file at `path`.
pub open spec fn sound_command(path: Seq<char>, platform: Platform) -> Seq<Seq<char>> {
    match platform {
        Platform::Linux => seq!["paplay"@, path],
        Platform::MacOs => seq!["afplay"@, path],
    }
}

/// The script that shows a notification.
pub open spec fn notify_script(title: Seq<char>, message: Seq<char>) -> Seq<char> {
    "display notification \""@ + escaped(message, false) + "\" with title \""@ + escaped(
        title,
        false,
    ) + "\""@
}

/// The command that shows a notification; on Linux it stays for five seconds.
pub open spec fn notify_command(
    title: Seq<char>,
    message: Seq<char>,
    platform: Platform,
) -> Seq<Seq<char>> {
    match platform {
        Platform::Linux => seq!["notify-send"@, title, message, "-t"@, "5000"@],
        Platform::MacOs => script_command(notify_script(title, message)),
    }
}

/// A helper program that the Linux injection cannot do without.
#[derive(Clone, Copy, Debug, PartialEq, Eq, Structural)]
pub enum Tool {
    Xdotool,
    Xsel,
}

/// The first required tool that is missing, if any. Only Linux requires
/// tools that a system may lack.
pub open spec fn first_missing(
    platform: Platform,
    xdotool_found: bool,
    xsel_found: bool,
) -> Option<Tool> {
    match platform {
        Platform::Linux => if !xdotool_found {
            Some(Tool::Xdotool)
        } else if !xsel_found {
            Some(Tool::Xsel)
        } else {
            None
        },
        Platform::MacOs => None,
    }
}

impl Tool {
    /// The name of the program.
    pub open spec fn name(self) -> Seq<char> {
        match self {
            Tool::Xdotool => "xdotool"@,
            Tool::Xsel => "xsel"@,
        }
    }

    /// What the user is told where the program is missing.
    pub open spec fn missing_text(self) -> Seq<char> {
        match self {
            Tool::Xdotool => "'xdotool' is required but not found in PATH."@,
            Tool::Xsel =>
                "'xsel' is required for fast text injection. Please install it (e.g., sudo pacman -S xsel)."@,
        }
    }

    /// The command whose start shows that the program is installed.
    pub fn probe_command(&self) -> (argv: Vec<String>)
        ensures
            argv.deep_view() == seq![self.name(), "--version"@],
    {
        let mut argv: Vec<String> = Vec::new();
        assert(argv.deep_view() =~= Seq::empty());
        match self {
            Tool::Xdotool => push_arg(&mut argv, "xdotool"),
            Tool::Xsel => push_arg(&mut argv, "xsel"),
        }
        push_arg(&mut argv, "--version");
        assert(argv.deep_view() =~= seq![self.name(), "--version"@]);
        argv
    }

    /// The message for the user where the program is missing.
    pub fn missing_message(&self) -> (r: String)
        ensures
            r@ == self.missing_text(),
    {
        match self {
            Tool::Xdotool => String::from_str("'xdotool' is required but not found in PATH."),
            Tool::Xsel => String::from_str(
                "'xsel' is required for fast text injection. Please install it (e.g., sudo pacman -S xsel).",
            ),
        }
    }
}

fn push_step(steps: &mut Vec<InjectStep>, step: InjectStep)
    ensures
        final(steps).deep_view() == old(steps).deep_view().push(step.deep_view()),
{
    steps.push(step);
    assert(steps.deep_view() =~= old(steps).deep_view().push(step.deep_view()));
}

/// The helper programs, as commands for the caller to run.
pub struct SystemInjector;

impl SystemInjector {
    /// The command that prints the class of the focused window.
    pub fn window_class_command() -> (argv: Vec<String>)
        ensures
            argv.deep_view() == window_class_query(),
    {
        let mut argv: Vec<String> = Vec::new();
        assert(argv.deep_view() =~= Seq::empty());
        push_arg(&mut argv, "xdotool");
        push_arg(&mut argv, "getactivewindow");
        push_arg(&mut argv, "getwindowclassname");
        assert(argv.deep_view() =~= window_class_query());
        argv
    }

    /// The command that pastes into the focused window, given what
    /// `window_class_command` printed, or `None` where it could not be run.
    pub fn paste_command(config: &AppConfig, window_output: Option<&str>) -> (argv: Vec<String>)
        ensures
            argv.deep_view() == key_command(
                paste_key(
                    config.paste_overrides@,
                    match window_output {
                        Some(printed) => Some(printed@),
                        None => None,
                    },
                ),
            ),
    {
        let shortcut = match window_output {
            Some(printed) => {
                let class = trim(printed);
                config.paste_shortcut(class.as_str())
            },
            None => String::from_str("ctrl+v"),
        };
        let mut argv: Vec<String> = Vec::new();
        assert(argv.deep_view() =~= Seq::empty());
        push_arg(&mut argv, "xdotool");
        push_arg(&mut argv, "key");
        push_arg(&mut argv, "--clearmodifiers");
        push_arg(&mut argv, shortcut.as_str());
        assert(argv.deep_view() =~= key_command(shortcut@));
        argv
    }

    /// Plans the injection of `text` into the focused window. Nothing is
    /// done for the empty text. Every other plan starts with a wait of
    /// `initial_delay_ms`, so that the release of the push-to-talk key does
    /// not combine with the keystrokes that follow. `typing_delay_ms` counts
    /// only where each character is typed by itself.
    pub fn type_text(
        text: &str,
        typing_delay_ms: u64,
        initial_delay_ms: u64,
        strategy: InjectStrategy,
    ) -> (steps: Vec<InjectStep>)
        ensures
            steps.deep_view() == injection_plan(
                text@,
                typing_delay_ms,
                initial_delay_ms,
                strategy,
            ),
    {
        let mut steps: Vec<InjectStep> = Vec::new();
        assert(steps.deep_view() =~= Seq::empty());
        if text.is_empty() {
            return steps;
        }
        push_step(&mut steps, InjectStep::Sleep { ms: initial_delay_ms });
        let mut argv: Vec<String> = Vec::new();
        assert(argv.deep_view() =~= Seq::empty());
        match strategy {
            InjectStrategy::LinuxClipboard => {
                push_arg(&mut argv, "xsel");
                push_arg(&mut argv, "--clipboard");
                push_arg(&mut argv, "--input");
                assert(argv.deep_view() =~= clipboard_command());
                push_step(&mut steps, InjectStep::Feed { argv, input: String::from_str(text) });
                push_step(&mut steps, InjectStep::Sleep { ms: CLIPBOARD_SETTLE_MS });
                push_step(&mut steps, InjectStep::PasteIntoFocused);
            },
            InjectStrategy::LinuxKeystroke => {
                let delay = decimal_string(typing_delay_ms as u128);
                push_arg(&mut argv, "xdotool");
                push_arg(&mut argv, "type");
                push_arg(&mut argv, "--clearmodifiers");
                push_arg(&mut argv, "--delay");
                push_arg(&mut argv, delay.as_str());
                push_arg(&mut argv, text);
                assert(argv.deep_view() =~= keystroke_command(text@, typing_delay_ms));
                push_step(&mut steps, InjectStep::Run { argv });
            },
            InjectStrategy::MacOs => {
                let quoted = escape(text, true);
                let mut script = String::from_str(
                    "set oldClipboard to the clipboard\nset the clipboard to \"",
                );
                script.append(quoted.as_str());
                script.append(
                    "\"\ntell application \"System Events\"\nkeystroke \"v\" using command down\nend tell\ndelay 0.1\nset the clipboard to oldClipboard",
                );
                push_arg(&mut argv, "osascript");
                push_arg(&mut argv, "-e");
                push_arg(&mut argv, script.as_str());
                assert(argv.deep_view() =~= script_command(paste_script(text@)));
                push_step(&mut steps, InjectStep::Run { argv });
            },
        }
        assert(steps.deep_view() =~= injection_plan(
            text@,
            typing_delay_ms,
            initial_delay_ms,
            strategy,
        ));
        steps
    }

    /// The command that plays the sound at `path`; none where sounds are
    /// switched off. The caller starts it and does not wait for it.
    pub fn play_sound(enabled: bool, path: &str, platform: Platform) -> (command: Option<
        Vec<String>,
    >)
        ensures
            command.deep_view() == (if enabled {
                Some(sound_command(path@, platform))
            } else {
                None
            }),
    {
        if !enabled {
            return None;
        }
        let mut argv: Vec<String> = Vec::new();
        assert(argv.deep_view() =~= Seq::empty());
        match platform {
            Platform::Linux => push_arg(&mut argv, "paplay"),
            Platform::MacOs => push_arg(&mut argv, "afplay"),
        }
        push_arg(&mut argv, path);
        assert(argv.deep_view() =~= sound_command(path@, platform));
        Some(argv)
    }

    /// The command that shows a notification with the given title and
    /// message. The caller starts it and does not wait for it.
    pub fn notify(title: &str, message: &str, platform: Platform) -> (argv: Vec<String>)
        ensures
            argv.deep_view() == notify_command(title@, message@, platform),
    {
        let mut argv: Vec<String> = Vec::new();
        assert(argv.deep_view() =~= Seq::empty());
        match platform {
            Platform::Linux => {
                push_arg(&mut argv, "notify-send");
                push_arg(&mut argv, title);
                push_arg(&mut argv, message);
                push_arg(&mut argv, "-t");
                push_arg(&mut argv, "5000");
            },
            Platform::MacOs => {
                let quoted_message = escape(message, false);
                let quoted_title = escape(title, false);
                let mut script = String::from_str("display notification \"");
                script.append(quoted_message.as_str());
                script.append("\" with title \"");
                script.append(quoted_title.as_str());
                script.append("\"");
                push_arg(&mut argv, "osascript");
                push_arg(&mut argv, "-e");
                push_arg(&mut argv, script.as_str());
            },
        }
        assert(argv.deep_view() =~= notify_command(title@, message@, platform));
        argv
    }

    /// Decides from the outcome of the probes whether the required tools are
    /// there, and names the first that is not.
    pub fn check_dependencies(platform: Platform, xdotool_found: bool, xsel_found: bool) -> (r:
        Result<(), Tool>)
        ensures
            r == (match first_missing(platform, xdotool_found, xsel_found) {
                Some(tool) => Err::<(), Tool>(tool),
                None => Ok(()),
            }),
    {
        match platform {
            Platform::Linux => {
                if !xdotool_found {
                    Err(Tool::Xdotool)
                } else if !xsel_found {
                    Err(Tool::Xsel)
                } else {
                    Ok(())
                }
            },
            Platform::MacOs => Ok(()),
        }
    }
}

} // verus!
