//! The sound cues that mark the start and the end of a recording.

use crate::capture::{ActionModel, PollAction};
use crate::config::{AppConfig, Platform};
use crate::injector::{sound_command, SystemInjector};
use vstd::prelude::*;

verus! {

/// The sound to play for what a poll asked for: the start cue on a down edge,
/// the end cue on an up edge, whether or not anything was captured, and none
/// where there was no edge or sounds are switched off.
pub open spec fn cue_command(action: ActionModel, config: AppConfig, platform: Platform) -> Option<
    Seq<Seq<char>>,
> {
    let paths = config.sound_paths(platform);
    if !config.sound_enabled {
        None
    } else {
        match action {
            ActionModel::Nothing => None,
            ActionModel::CaptureStarted => Some(sound_command(paths.0, platform)),
            ActionModel::SpawnRecorder => Some(sound_command(paths.0, platform)),
            ActionModel::CaptureFinished { .. } => Some(sound_command(paths.1, platform)),
            ActionModel::StopRecorder { .. } => Some(sound_command(paths.1, platform)),
        }
    }
}

/// The command that plays the cue for `action`, if one is due. The caller
/// starts it and does not wait for it; it stops a recorder before the end
/// cue.
pub fn cue_for(action: &PollAction, config: &AppConfig, platform: Platform) -> (command: Option<
    Vec<String>,
>)
    ensures
        command.deep_view() == cue_command(action@, *config, platform),
{
    let (start, end) = config.get_sound_paths(platform);
    match action {
        PollAction::Nothing => None,
        PollAction::CaptureStarted => SystemInjector::play_sound(
            config.sound_enabled,
            start.as_str(),
            platform,
        ),
        PollAction::SpawnRecorder => SystemInjector::play_sound(
            config.sound_enabled,
            start.as_str(),
            platform,
        ),
        PollAction::CaptureFinished { .. } => SystemInjector::play_sound(
            config.sound_enabled,
            end.as_str(),
            platform,
        ),
        PollAction::StopRecorder { .. } => SystemInjector::play_sound(
            config.sound_enabled,
            end.as_str(),
            platform,
        ),
    }
}

} // verus!
