//! The settings of the daemon and what is derived from them: the sound cues
//! of the running platform, the push-to-talk key, and the paste shortcut of
//! the focused window.

use crate::text::{eq_ignore_ascii_case, same_folded};
use vstd::prelude::*;
use vstd::string::*;

verus! {

/// The desktop that the daemon runs on.
#[derive(Clone, Copy, Debug, PartialEq, Eq, Structural)]
pub enum Platform {
    Linux,
    MacOs,
}

/// The paste shortcut of the windows of one class.
#[derive(Clone, Debug, PartialEq, Eq)]
pub struct PasteOverride {
    pub window_class: String,
    pub shortcut: String,
}

/// The settings, fixed once loaded.
#[derive(Clone, Debug, PartialEq, Eq)]
pub struct AppConfig {
    pub ptt_key: String,
    pub typing_delay_ms: u64,
    pub initial_delay_ms: u64,
    pub model: String,
    pub language: Option<String>,
    pub sound_enabled: bool,
    pub sound_start_path: String,
    pub sound_end_path: String,
    pub macos_sound_start_path: Option<String>,
    pub macos_sound_end_path: Option<String>,
    pub linux_sound_start_path: Option<String>,
    pub linux_sound_end_path: Option<String>,
    /// Window classes with a paste shortcut of their own. Where several
    /// entries match a window, the first one counts.
    pub paste_overrides: Vec<PasteOverride>,
}

/// The characters of an optional string.
pub open spec fn opt_chars(s: Option<String>) -> Option<Seq<char>> {
    match s {
        Some(t) => Some(t@),
        None => None,
    }
}

/// The name of the key used where the configured name is not a key.
pub open spec fn default_ptt_key() -> Seq<char> {
    "RControl"@
}

/// The shortcut that pastes in a window without an override.
pub open spec fn default_paste_shortcut() -> Seq<char> {
    "ctrl+v"@
}

/// The shortcut that `overrides` give for a window of class `class`: that of
/// the first entry whose class equals `class` up to ASCII case, else the
/// default.
pub open spec fn shortcut_for(overrides: Seq<PasteOverride>, class: Seq<char>) -> Seq<char>
    decreases overrides.len(),
{
    if overrides.len() == 0 {
        default_paste_shortcut()
    } else if same_folded(overrides[0].window_class@, class) {
        overrides[0].shortcut@
    } else {
        shortcut_for(overrides.drop_first(), class)
    }
}

/// The chosen shortcut is the value of an override whose class matches the
/// window's class up to ASCII case, namely the first such, and the default
/// exactly when no override matches.
pub proof fn lemma_shortcut_choice(overrides: Seq<PasteOverride>, class: Seq<char>)
    ensures
        (forall|i: int|
            0 <= i < overrides.len() ==> !same_folded(
                (#[trigger] overrides[i]).window_class@,
                class,
            )) ==> shortcut_for(overrides, class) == default_paste_shortcut(),
        forall|i: int|
            0 <= i < overrides.len() && same_folded((#[trigger] overrides[i]).window_class@, class)
                && (forall|j: int|
                0 <= j < i ==> !same_folded((#[trigger] overrides[j]).window_class@, class))
                ==> shortcut_for(overrides, class) == overrides[i].shortcut@,
    decreases overrides.len(),
{
    if overrides.len() > 0 {
        let rest = overrides.drop_first();
        lemma_shortcut_choice(rest, class);
        if !same_folded(overrides[0].window_class@, class) {
            assert forall|i: int|
                0 <= i < overrides.len() && same_folded(
                    (#[trigger] overrides[i]).window_class@,
                    class,
                ) && (forall|j: int|
                    0 <= j < i ==> !same_folded(
                        (#[trigger] overrides[j]).window_class@,
                        class,
                    )) implies shortcut_for(overrides, class) == overrides[i].shortcut@ by {
                assert(rest[i - 1] == overrides[i]);
                assert forall|j: int| 0 <= j < i - 1 implies !same_folded(
                    (#[trigger] rest[j]).window_class@,
                    class,
                ) by {
                    assert(rest[j] == overrides[j + 1]);
                }
            }
            if forall|i: int|
                0 <= i < overrides.len() ==> !same_folded(
                    (#[trigger] overrides[i]).window_class@,
                    class,
                ) {
                assert forall|i: int| 0 <= i < rest.len() implies !same_folded(
                    (#[trigger] rest[i]).window_class@,
                    class,
                ) by {
                    assert(rest[i] == overrides[i + 1]);
                }
            }
        } else {
            assert forall|i: int|
                0 <= i < overrides.len() && same_folded(
                    (#[trigger] overrides[i]).window_class@,
                    class,
                ) && (forall|j: int|
                    0 <= j < i ==> !same_folded(
                        (#[trigger] overrides[j]).window_class@,
                        class,
                    )) implies shortcut_for(overrides, class) == overrides[i].shortcut@ by {
                if i > 0 {
                    assert(same_folded(overrides[0].window_class@, class));
                }
            }
        }
    }
}

impl Default for AppConfig {
    /// The settings used where no file gives any.
    fn default() -> (r: AppConfig)
        ensures
            r.ptt_key@ == default_ptt_key(),
            r.typing_delay_ms == 50,
            r.initial_delay_ms == 150,
            r.model@ == "whisper-1"@,
            r.language is None,
            r.sound_enabled,
            r.sound_start_path@ == "/usr/share/sounds/freedesktop/stereo/audio-volume-change.oga"@,
            r.sound_end_path@ == "/usr/share/sounds/freedesktop/stereo/screen-capture.oga"@,
            opt_chars(r.macos_sound_start_path) == Some("/System/Library/Sounds/Tink.aiff"@),
            opt_chars(r.macos_sound_end_path) == Some("/System/Library/Sounds/Morse.aiff"@),
            opt_chars(r.linux_sound_start_path) == Some(
                "/usr/share/sounds/freedesktop/stereo/audio-volume-change.oga"@,
            ),
            opt_chars(r.linux_sound_end_path) == Some(
                "/usr/share/sounds/freedesktop/stereo/screen-capture.oga"@,
            ),
            r.paste_overrides@.len() == 0,
    {
        AppConfig {
            ptt_key: String::from_str("RControl"),
            typing_delay_ms: 50,
            initial_delay_ms: 150,
            model: String::from_str("whisper-1"),
            language: None,
            sound_enabled: true,
            sound_start_path: String::from_str(
                "/usr/share/sounds/freedesktop/stereo/audio-volume-change.oga",
            ),
            sound_end_path: String::from_str(
                "/usr/share/sounds/freedesktop/stereo/screen-capture.oga",
            ),
            macos_sound_start_path: Some(String::from_str("/System/Library/Sounds/Tink.aiff")),
            macos_sound_end_path: Some(String::from_str("/System/Library/Sounds/Morse.aiff")),
            linux_sound_start_path: Some(
                String::from_str("/usr/share/sounds/freedesktop/stereo/audio-volume-change.oga"),
            ),
            linux_sound_end_path: Some(
                String::from_str("/usr/share/sounds/freedesktop/stereo/screen-capture.oga"),
            ),
            paste_overrides: Vec::new(),
        }
    }
}

fn or_fallback(own: &Option<String>, general: &String) -> (r: String)
    ensures
        r@ == (match opt_chars(*own) {
            Some(p) => p,
            None => general@,
        }),
{
    match own {
        Some(p) => p.clone(),
        None => general.clone(),
    }
}

impl AppConfig {
    /// The start and end cues on `platform`: the platform's own path where
    /// one is set, else the general one.
    pub open spec fn sound_paths(&self, platform: Platform) -> (Seq<char>, Seq<char>) {
        let start = match platform {
            Platform::MacOs => opt_chars(self.macos_sound_start_path),
            Platform::Linux => opt_chars(self.linux_sound_start_path),
        };
        let end = match platform {
            Platform::MacOs => opt_chars(self.macos_sound_end_path),
            Platform::Linux => opt_chars(self.linux_sound_end_path),
        };
        (
            match start {
                Some(p) => p,
                None => self.sound_start_path@,
            },
            match end {
                Some(p) => p,
                None => self.sound_end_path@,
            },
        )
    }

    /// Returns the paths of the start and end cues on `platform`.
    pub fn get_sound_paths(&self, platform: Platform) -> (r: (String, String))
        ensures
            (r.0@, r.1@) == self.sound_paths(platform),
    {
        match platform {
            Platform::MacOs => (
                or_fallback(&self.macos_sound_start_path, &self.sound_start_path),
                or_fallback(&self.macos_sound_end_path, &self.sound_end_path),
            ),
            Platform::Linux => (
                or_fallback(&self.linux_sound_start_path, &self.sound_start_path),
                or_fallback(&self.linux_sound_end_path, &self.sound_end_path),
            ),
        }
    }

    /// The shortcut that pastes into a window of class `window_class`.
    pub fn paste_shortcut(&self, window_class: &str) -> (r: String)
        ensures
            r@ == shortcut_for(self.paste_overrides@, window_class@),
    {
        let n: usize = self.paste_overrides.len();
        let mut i: usize = 0;
        assert(self.paste_overrides@.subrange(0, n as int) =~= self.paste_overrides@);
        while i < n
            invariant
                n == self.paste_overrides@.len(),
                i <= n,
                shortcut_for(self.paste_overrides@, window_class@) == shortcut_for(
                    self.paste_overrides@.subrange(i as int, n as int),
                    window_class@,
                ),
            decreases n - i,
        {
            let ghost rest = self.paste_overrides@.subrange(i as int, n as int);
            assert(rest[0] == self.paste_overrides@[i as int]);
            assert(rest.drop_first() =~= self.paste_overrides@.subrange(i + 1, n as int));
            if eq_ignore_ascii_case(self.paste_overrides[i].window_class.as_str(), window_class) {
                return self.paste_overrides[i].shortcut.clone();
            }
            i = i + 1;
        }
        String::from_str("ctrl+v")
    }
}

} // verus!
