//! What a transcription job does once the service has answered: inject the
//! text, or tell the user why there is none.

use crate::api::{reply_outcome, ServerReply, TranscribeError};
use crate::config::{AppConfig, Platform};
use crate::injector::{
    injection_plan, notify_command, InjectStep, InjectStrategy, StepModel, SystemInjector,
};
use crate::text::trimmed;
use vstd::prelude::*;

verus! {

/// The title of every error notification.
pub open spec fn error_title() -> Seq<char> {
    "Voice PTT Error"@
}

/// The last act of a job.
#[derive(Debug, PartialEq, Eq)]
pub enum JobStep {
    /// Carry out these injection steps.
    Inject { steps: Vec<InjectStep> },
    /// Start this notification command; inject nothing.
    Notify { argv: Vec<String> },
}

/// Mathematical value of a [`JobStep`].
pub enum JobStepModel {
    Inject { steps: Seq<StepModel> },
    Notify { argv: Seq<Seq<char>> },
}

impl DeepView for JobStep {
    type V = JobStepModel;

    open spec fn deep_view(&self) -> JobStepModel {
        match self {
            JobStep::Inject { steps } => JobStepModel::Inject { steps: steps.deep_view() },
            JobStep::Notify { argv } => JobStepModel::Notify { argv: argv.deep_view() },
        }
    }
}

/// What follows a transcription that ended in `outcome`: the text is
/// injected as the settings say; an error is shown and nothing is injected.
pub open spec fn job_step(
    outcome: Result<Seq<char>, TranscribeError>,
    typing_delay_ms: u64,
    initial_delay_ms: u64,
    strategy: InjectStrategy,
    platform: Platform,
) -> JobStepModel {
    match outcome {
        Ok(text) => JobStepModel::Inject {
            steps: injection_plan(text, typing_delay_ms, initial_delay_ms, strategy),
        },
        Err(e) => JobStepModel::Notify {
            argv: notify_command(error_title(), e.message_text(), platform),
        },
    }
}

/// The characters of a transcription, or its error.
pub open spec fn outcome_chars(outcome: Result<String, TranscribeError>) -> Result<
    Seq<char>,
    TranscribeError,
> {
    match outcome {
        Ok(text) => Ok(text@),
        Err(e) => Err(e),
    }
}

/// The command that shows `message` as an error of the daemon.
pub fn error_notification(message: &str, platform: Platform) -> (argv: Vec<String>)
    ensures
        argv.deep_view() == notify_command(error_title(), message@, platform),
{
    SystemInjector::notify("Voice PTT Error", message, platform)
}

/// Decides what a job does with the outcome of its transcription.
pub fn after_transcription(
    outcome: &Result<String, TranscribeError>,
    config: &AppConfig,
    strategy: InjectStrategy,
    platform: Platform,
) -> (step: JobStep)
    ensures
        step.deep_view() == job_step(
            outcome_chars(*outcome),
            config.typing_delay_ms,
            config.initial_delay_ms,
            strategy,
            platform,
        ),
{
    match outcome {
        Ok(text) => JobStep::Inject {
            steps: SystemInjector::type_text(
                text.as_str(),
                config.typing_delay_ms,
                config.initial_delay_ms,
                strategy,
            ),
        },
        Err(e) => {
            let message = e.message();
            JobStep::Notify { argv: error_notification(message.as_str(), platform) }
        },
    }
}

/// A reply whose text is blank, that is empty once trimmed, leads to no
/// injection step at all: no helper is run for it.
pub proof fn lemma_blank_text_injects_nothing(
    text: String,
    typing_delay_ms: u64,
    initial_delay_ms: u64,
    strategy: InjectStrategy,
    platform: Platform,
)
    requires
        trimmed(text@).len() == 0,
    ensures
        job_step(
            reply_outcome(ServerReply::Text { text }),
            typing_delay_ms,
            initial_delay_ms,
            strategy,
            platform,
        ) == (JobStepModel::Inject { steps: Seq::empty() }),
{
}

/// A job whose transcription failed injects nothing: all it does is show
/// the error.
pub proof fn lemma_failure_injects_nothing(
    reply: ServerReply,
    typing_delay_ms: u64,
    initial_delay_ms: u64,
    strategy: InjectStrategy,
    platform: Platform,
)
    requires
        !(reply is Text),
    ensures
        job_step(
            reply_outcome(reply),
            typing_delay_ms,
            initial_delay_ms,
            strategy,
            platform,
        ) is Notify,
{
}

} // verus!
