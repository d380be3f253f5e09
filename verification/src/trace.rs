//! Runs of the capture state machine over sequences of events, and what holds
//! of every such run of the primary back-end.

use crate::capture::{ActionModel, CaptureModel, JobModel, WavSpec};
use vstd::prelude::*;

verus! {

/// One thing that happens to the capture state: a keyboard poll, or a frame
/// delivered by the audio callback.
pub enum CaptureEvent {
    Poll { held: bool },
    Frame { samples: Seq<i16> },
}

/// The state after one event.
pub open spec fn step(s: CaptureModel, e: CaptureEvent) -> CaptureModel {
    match e {
        CaptureEvent::Poll { held } => s.after_poll(held),
        CaptureEvent::Frame { samples } => s.on_frame(samples),
    }
}

/// The state after all of `events`, in order.
pub open spec fn run(s: CaptureModel, events: Seq<CaptureEvent>) -> CaptureModel
    decreases events.len(),
{
    if events.len() == 0 {
        s
    } else {
        step(run(s, events.drop_last()), events.last())
    }
}

/// Whether the key was held at the latest poll of `events`; `before` where
/// they hold no poll.
pub open spec fn held_after(before: bool, events: Seq<CaptureEvent>) -> bool
    decreases events.len(),
{
    if events.len() == 0 {
        before
    } else {
        match events.last() {
            CaptureEvent::Poll { held } => held,
            CaptureEvent::Frame { .. } => held_after(before, events.drop_last()),
        }
    }
}

/// Whether every poll of `events` found the key in the state `held`.
pub open spec fn polls_all(events: Seq<CaptureEvent>, held: bool) -> bool {
    forall|i: int|
        0 <= i < events.len() ==> match #[trigger] events[i] {
            CaptureEvent::Poll { held: h } => h == held,
            CaptureEvent::Frame { .. } => true,
        }
}

/// The samples of all frames of `events`, in the order of delivery.
pub open spec fn delivered(events: Seq<CaptureEvent>) -> Seq<i16>
    decreases events.len(),
{
    if events.len() == 0 {
        Seq::empty()
    } else {
        match events.last() {
            CaptureEvent::Poll { .. } => delivered(events.drop_last()),
            CaptureEvent::Frame { samples } => delivered(events.drop_last()) + samples,
        }
    }
}

/// The job that a primary back-end hands out for the samples of one press.
pub open spec fn job_for(samples: Seq<i16>, wav_spec: WavSpec) -> Option<JobModel> {
    if samples.len() > 0 {
        Some(JobModel::Samples { samples, wav_spec })
    } else {
        None
    }
}

/// A primary back-end is recording exactly when the latest poll found
/// the key held: recording is on only between a down edge and the next up edge.
pub proof fn lemma_recording_follows_key(s: CaptureModel, events: Seq<CaptureEvent>)
    requires
        s is Primary,
    ensures
        run(s, events) is Primary,
        run(s, events)->Primary_wav_spec == s->Primary_wav_spec,
        run(s, events).recording() == held_after(s.recording(), events),
    decreases events.len(),
{
    if events.len() > 0 {
        lemma_recording_follows_key(s, events.drop_last());
    }
}

/// A down edge leaves the buffer of a primary back-end empty, whatever it held.
pub proof fn lemma_start_clears(s: CaptureModel)
    requires
        s is Primary,
        !s.recording(),
    ensures
        s.poll_action(true) == ActionModel::CaptureStarted,
        s.after_poll(true)->Primary_audio_buffer == Seq::<i16>::empty(),
        s.after_poll(true).recording(),
{
}

/// While the key is up, frames are dropped: an idle primary back-end stays
/// as it is.
pub proof fn lemma_idle_drops_frames(s: CaptureModel, events: Seq<CaptureEvent>)
    requires
        s is Primary,
        !s.recording(),
        polls_all(events, false),
    ensures
        run(s, events) == s,
    decreases events.len(),
{
    if events.len() > 0 {
        let init = events.drop_last();
        assert forall|i: int| 0 <= i < init.len() implies match #[trigger] init[i] {
            CaptureEvent::Poll { held: h } => h == false,
            CaptureEvent::Frame { .. } => true,
        } by {
            assert(init[i] == events[i]);
        }
        lemma_idle_drops_frames(s, init);
        assert(events[events.len() - 1] == events.last());
    }
}

/// While the key stays down, the buffer of a primary back-end grows by each
/// frame delivered, in the order of delivery, and by nothing else.
pub proof fn lemma_held_accumulates(s: CaptureModel, events: Seq<CaptureEvent>)
    requires
        s is Primary,
        s.recording(),
        polls_all(events, true),
    ensures
        run(s, events) == (CaptureModel::Primary {
            audio_buffer: s->Primary_audio_buffer + delivered(events),
            is_recording: true,
            wav_spec: s->Primary_wav_spec,
        }),
    decreases events.len(),
{
    if events.len() == 0 {
        assert(s->Primary_audio_buffer + Seq::<i16>::empty() =~= s->Primary_audio_buffer);
    } else {
        let init = events.drop_last();
        assert forall|i: int| 0 <= i < init.len() implies match #[trigger] init[i] {
            CaptureEvent::Poll { held: h } => h == true,
            CaptureEvent::Frame { .. } => true,
        } by {
            assert(init[i] == events[i]);
        }
        lemma_held_accumulates(s, init);
        assert(events[events.len() - 1] == events.last());
        match events.last() {
            CaptureEvent::Poll { .. } => {},
            CaptureEvent::Frame { samples } => {
                assert((s->Primary_audio_buffer + delivered(init)) + samples
                    =~= s->Primary_audio_buffer + (delivered(init) + samples));
            },
        }
    }
}

/// One press of the key on a primary back-end: from the down edge, through
/// the events `during` the press, to the up edge. The job handed out at the
/// up edge holds exactly the samples delivered during the press, in order;
/// what the buffer held before the press does not enter it, and the back-end
/// is idle afterwards.
pub proof fn lemma_press_cycle(s: CaptureModel, during: Seq<CaptureEvent>)
    requires
        s is Primary,
        !s.recording(),
        polls_all(during, true),
    ensures
        ({
            let at_release = run(s.after_poll(true), during);
            &&& at_release.recording()
            &&& at_release.poll_action(false) == (ActionModel::CaptureFinished {
                job: job_for(delivered(during), s->Primary_wav_spec),
            })
            &&& at_release.after_poll(false) is Primary
            &&& !at_release.after_poll(false).recording()
            &&& at_release.after_poll(false)->Primary_wav_spec == s->Primary_wav_spec
        }),
{
    let started = s.after_poll(true);
    lemma_held_accumulates(started, during);
    assert(Seq::<i16>::empty() + delivered(during) =~= delivered(during));
}

/// Two presses in a row, with idle time `between` them: each job holds the
/// samples of its own press and nothing of the other. A job is a value of its
/// own, so whatever the state machine does after handing it out leaves it as
/// it is.
pub proof fn lemma_jobs_independent(
    s: CaptureModel,
    first: Seq<CaptureEvent>,
    between: Seq<CaptureEvent>,
    second: Seq<CaptureEvent>,
)
    requires
        s is Primary,
        !s.recording(),
        polls_all(first, true),
        polls_all(between, false),
        polls_all(second, true),
    ensures
        ({
            let first_release = run(s.after_poll(true), first);
            let idle = run(first_release.after_poll(false), between);
            let second_release = run(idle.after_poll(true), second);
            &&& first_release.poll_action(false) == (ActionModel::CaptureFinished {
                job: job_for(delivered(first), s->Primary_wav_spec),
            })
            &&& second_release.poll_action(false) == (ActionModel::CaptureFinished {
                job: job_for(delivered(second), s->Primary_wav_spec),
            })
        }),
{
    lemma_press_cycle(s, first);
    let after_first = run(s.after_poll(true), first).after_poll(false);
    lemma_idle_drops_frames(after_first, between);
    lemma_press_cycle(after_first, second);
}

/// While the recorder of a fallback back-end runs and the key stays down,
/// neither polls nor frames change the state.
pub proof fn lemma_recorder_keeps_running(s: CaptureModel, events: Seq<CaptureEvent>)
    requires
        s is Fallback,
        polls_all(events, true),
    ensures
        run(s, events) == s,
    decreases events.len(),
{
    if events.len() > 0 {
        let init = events.drop_last();
        assert forall|i: int| 0 <= i < init.len() implies match #[trigger] init[i] {
            CaptureEvent::Poll { held: h } => h == true,
            CaptureEvent::Frame { .. } => true,
        } by {
            assert(init[i] == events[i]);
        }
        lemma_recorder_keeps_running(s, init);
        assert(events[events.len() - 1] == events.last());
    }
}

/// One press of the key on a fallback back-end: the down edge asks for a
/// recorder; once it runs, writing to `path`, the up edge asks to stop it and
/// hands out that very path, and the back-end is idle again.
pub proof fn lemma_fallback_cycle(s: CaptureModel, path: Seq<char>, during: Seq<CaptureEvent>)
    requires
        s is Fallback,
        !s.recording(),
        polls_all(during, true),
    ensures
        s.poll_action(true) == ActionModel::SpawnRecorder,
        s.after_poll(true) == s,
        ({
            let at_release = run(s.recorder_started(path), during);
            &&& at_release.recording()
            &&& at_release.poll_action(false) == (ActionModel::StopRecorder { path })
            &&& at_release.after_poll(false) == (CaptureModel::Fallback { current_file: None })
        }),
{
    lemma_recorder_keeps_running(s.recorder_started(path), during);
}

} // verus!
