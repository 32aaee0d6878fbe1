//! Properties that hold across the handlers of the dictation runtime.
use vstd::prelude::*;

use crate::dictation::{
    double_tap_spec, emit, hold_delay_spec, is_short_press, key_down_spec, key_up_spec, onboarding_hold_spec,
    onboarding_successor, overlay_event_spec, overlay_stop_spec, paste_result_spec, pause_spec,
    permission_granted_spec, permission_poll_exhausted_spec, permission_poll_spec,
    permission_request_result_spec, permission_required_spec, pill_click_spec, pipeline_error_spec,
    recording_start_result_spec, recording_stopped_spec, set_state, speech_check_spec, start_spec,
    stop_spec, tap_grace_spec, Action, OnboardingStep, Runtime, RuntimeState, SkipReason, Trace,
};

verus! {

/// The consistency of the runtime's flags with its state: an idle runtime
/// carries no recording flags, a pending press is never hands-free, a paused
/// recording is always hands-free, and every press or recording in progress
/// knows when it started while processing forgets it.
pub open spec fn well_formed(rt: Runtime) -> bool {
    &&& rt.state == RuntimeState::Idle ==> !rt.hands_free && rt.recording_started_at.is_none()
        && !rt.ignore_pending_key_up
    &&& rt.state == RuntimeState::PressPending ==> !rt.hands_free && rt.recording_started_at.is_some()
    &&& rt.state == RuntimeState::TapPending ==> !rt.hands_free
    &&& rt.state == RuntimeState::Recording ==> rt.recording_started_at.is_some()
    &&& rt.state == RuntimeState::Paused ==> rt.hands_free && rt.recording_started_at.is_some()
    &&& rt.state == RuntimeState::Processing ==> rt.recording_started_at.is_none()
}

/// The onboarding step either stays or moves to the step that follows it.
pub open spec fn onboarding_progress(before: Option<OnboardingStep>, after: Option<OnboardingStep>) -> bool {
    after == before || (before is Some && after == onboarding_successor(before->0))
}

/// A fresh runtime is well formed.
pub proof fn law_initial_runtime_well_formed()
    ensures
        well_formed(Runtime::initial()),
{
}

/// `start` and `stop` leave a well-formed runtime whatever state they found.
pub proof fn law_start_and_stop_establish_well_formedness(
    rt: Runtime,
    s: Seq<Action>,
    onboarding_complete: bool,
)
    ensures
        well_formed(start_spec((rt, s), onboarding_complete).0),
        well_formed(stop_spec((rt, s)).0),
{
}

/// The hotkey and overlay handlers keep the runtime well formed.
pub proof fn law_input_handlers_keep_well_formedness(
    rt: Runtime,
    s: Seq<Action>,
    now: u64,
    peak_below_silence: bool,
    event: Seq<char>,
    permission_prompts: bool,
)
    requires
        well_formed(rt),
    ensures
        well_formed(key_down_spec((rt, s), now).0),
        well_formed(key_up_spec((rt, s), now, peak_below_silence).0),
        well_formed(double_tap_spec((rt, s), now).0),
        well_formed(pill_click_spec((rt, s), now).0),
        well_formed(pause_spec((rt, s)).0),
        well_formed(overlay_stop_spec((rt, s)).0),
        well_formed(overlay_event_spec((rt, s), event, now, permission_prompts).0),
{
}

/// The timer and result handlers keep the runtime well formed.
pub proof fn law_result_handlers_keep_well_formedness(
    rt: Runtime,
    s: Seq<Action>,
    now: u64,
    generation: u64,
    reason: SkipReason,
    play_skip_sound: bool,
    token: u64,
    step: OnboardingStep,
    hands_free: bool,
    advance_to: Option<OnboardingStep>,
    start_result: Result<(), String>,
    stop_result: Result<String, String>,
    peak_below_silence: bool,
    path: String,
    has_speech: bool,
    text: String,
    paste_result: Result<(), String>,
    error: String,
)
    requires
        well_formed(rt),
    ensures
        well_formed(hold_delay_spec((rt, s), generation).0),
        well_formed(
            recording_start_result_spec((rt, s), hands_free, advance_to, start_result, now).0,
        ),
        well_formed(tap_grace_spec((rt, s), generation, reason, play_skip_sound).0),
        well_formed(onboarding_hold_spec((rt, s), token, step).0),
        well_formed(recording_stopped_spec((rt, s), stop_result, peak_below_silence).0),
        well_formed(speech_check_spec((rt, s), path, has_speech).0),
        well_formed(paste_result_spec((rt, s), text, paste_result).0),
        well_formed(pipeline_error_spec((rt, s), error).0),
        well_formed(
            set_state(
                emit((rt, s), Action::EmitSkipped(SkipReason::EmptyTranscription)),
                RuntimeState::Idle,
            ).0,
        ),
{
}

/// The permission handlers keep the runtime well formed.
pub proof fn law_permission_handlers_keep_well_formedness(
    rt: Runtime,
    s: Seq<Action>,
    label: String,
    polls: bool,
    granted: bool,
    has_permission: bool,
    onboarding_complete: bool,
)
    requires
        well_formed(rt),
    ensures
        well_formed(permission_required_spec((rt, s), label, polls).0),
        well_formed(permission_granted_spec((rt, s), onboarding_complete).0),
        well_formed(permission_request_result_spec((rt, s), granted, onboarding_complete).0),
        well_formed(permission_poll_spec((rt, s), has_permission, onboarding_complete).1.0),
        well_formed(permission_poll_exhausted_spec((rt, s)).0),
{
}

/// A timer armed for an earlier attempt does nothing: neither the
/// hold-to-record delay nor the double-tap grace changes the runtime or acts
/// once another attempt has begun.
pub proof fn law_stale_timers_do_nothing(
    t: Trace,
    generation: u64,
    reason: SkipReason,
    play_skip_sound: bool,
)
    requires
        generation != t.0.generation,
    ensures
        hold_delay_spec(t, generation) == t,
        tap_grace_spec(t, generation, reason, play_skip_sound) == t,
{
}

/// After `stop` the runtime is idle, not running and without onboarding, the
/// last notifications are the overlay shutdown and the stop announcement, and
/// every timer that was armed before does nothing.
pub proof fn law_stop_quiesces(
    rt: Runtime,
    s: Seq<Action>,
    generation: u64,
    reason: SkipReason,
    play_skip_sound: bool,
    token: u64,
    step: OnboardingStep,
)
    ensures
        ({
            let t = stop_spec((rt, s));
            &&& t.0.state == RuntimeState::Idle
            &&& !t.0.running
            &&& !t.0.hands_free
            &&& t.0.onboarding is None
            &&& t.0.hold_started_at is None
            &&& !t.0.permission_polling
            &&& t.1.len() >= 3
            &&& t.1[t.1.len() - 3] == Action::StopOverlay
            &&& t.1[t.1.len() - 2] == Action::EmitRuntimeStopped
            &&& t.1[t.1.len() - 1] == Action::DetachHost
            &&& hold_delay_spec(t, generation) == t
            &&& tap_grace_spec(t, generation, reason, play_skip_sound) == t
            &&& onboarding_hold_spec(t, token, step) == t
        }),
{
}

/// After `start` the runtime runs, is idle, shows the first tutorial step
/// exactly when onboarding is not complete, and ends by announcing the start.
pub proof fn law_start_resets(rt: Runtime, s: Seq<Action>, onboarding_complete: bool)
    ensures
        ({
            let t = start_spec((rt, s), onboarding_complete);
            &&& t.0.running
            &&& t.0.state == RuntimeState::Idle
            &&& t.0.generation != rt.generation
            &&& t.0.onboarding == (if onboarding_complete {
                None
            } else {
                Some(OnboardingStep::TryIt)
            })
            &&& t.1.last() == Action::EmitRuntimeStarted
        }),
{
}

/// The tutorial only moves forward one step at a time: no handler but
/// `start`, `stop` and the permission grant moves the onboarding step other
/// than to the step that follows it.
pub proof fn law_onboarding_moves_forward(
    rt: Runtime,
    s: Seq<Action>,
    now: u64,
    peak_below_silence: bool,
    event: Seq<char>,
    permission_prompts: bool,
    generation: u64,
    reason: SkipReason,
    play_skip_sound: bool,
    token: u64,
    step: OnboardingStep,
    hands_free: bool,
    advance_to: Option<OnboardingStep>,
    start_result: Result<(), String>,
    stop_result: Result<String, String>,
    path: String,
    has_speech: bool,
    text: String,
    paste_result: Result<(), String>,
)
    requires
        advance_to is None || (rt.onboarding is Some && advance_to == onboarding_successor(
            rt.onboarding->0,
        )),
    ensures
        onboarding_progress(rt.onboarding, key_down_spec((rt, s), now).0.onboarding),
        onboarding_progress(
            rt.onboarding,
            key_up_spec((rt, s), now, peak_below_silence).0.onboarding,
        ),
        onboarding_progress(rt.onboarding, double_tap_spec((rt, s), now).0.onboarding),
        onboarding_progress(
            rt.onboarding,
            overlay_event_spec((rt, s), event, now, permission_prompts).0.onboarding,
        ),
        onboarding_progress(rt.onboarding, hold_delay_spec((rt, s), generation).0.onboarding),
        onboarding_progress(
            rt.onboarding,
            recording_start_result_spec(
                (rt, s),
                hands_free,
                advance_to,
                start_result,
                now,
            ).0.onboarding,
        ),
        onboarding_progress(
            rt.onboarding,
            tap_grace_spec((rt, s), generation, reason, play_skip_sound).0.onboarding,
        ),
        onboarding_progress(rt.onboarding, onboarding_hold_spec((rt, s), token, step).0.onboarding),
        onboarding_progress(
            rt.onboarding,
            recording_stopped_spec((rt, s), stop_result, peak_below_silence).0.onboarding,
        ),
        onboarding_progress(
            rt.onboarding,
            speech_check_spec((rt, s), path, has_speech).0.onboarding,
        ),
        onboarding_progress(
            rt.onboarding,
            paste_result_spec((rt, s), text, paste_result).0.onboarding,
        ),
{
}


/// The runtime and actions after each step of a hold-to-talk attempt: the key
/// goes down at `t0`, the hold delay of that press elapses, the recorder
/// reports that it started at `t1`, and the key goes up at `t2`.
pub open spec fn hold_to_talk(rt: Runtime, t0: u64, t1: u64, t2: u64, peak_below_silence: bool) -> (
    Trace,
    Trace,
    Trace,
    Trace,
) {
    let down = key_down_spec((rt, seq![]), t0);
    let hold = hold_delay_spec((down.0, seq![]), down.0.generation);
    let started = recording_start_result_spec((hold.0, seq![]), false, None, Ok(()), t1);
    let up = key_up_spec((started.0, seq![]), t2, peak_below_silence);
    (down, hold, started, up)
}

/// Hold a key, speak, release: from an idle runtime without a tutorial step
/// or onboarding hold, pressing the hotkey and holding it past the hold
/// delay lowers background audio and starts the recorder, which records;
/// releasing it, unless the press was short and quiet, stops the recorder
/// for processing and the runtime processes the recording.
pub proof fn law_hold_to_talk(rt: Runtime, t0: u64, t1: u64, t2: u64, peak_below_silence: bool)
    requires
        rt.state == RuntimeState::Idle,
        rt.onboarding is None,
        rt.hold_started_at is None,
        !(is_short_press(Some(t1), t2) && peak_below_silence),
    ensures
        ({
            let (down, hold, started, up) = hold_to_talk(rt, t0, t1, t2, peak_below_silence);
            &&& down.0.state == RuntimeState::PressPending
            &&& hold.1 == seq![
                Action::BeginDucking,
                Action::StartRecording { hands_free: false, advance_to: None },
            ]
            &&& started.0.state == RuntimeState::Recording
            &&& up.0.state == RuntimeState::Processing
            &&& up.1.contains(Action::StopRecordingForProcessing)
        }),
{
    let (down, hold, started, up) = hold_to_talk(rt, t0, t1, t2, peak_below_silence);
    assert(hold.1 =~= seq![
        Action::BeginDucking,
        Action::StartRecording { hands_free: false, advance_to: None },
    ]);
    assert(up.1.last() == Action::StopRecordingForProcessing);
    assert(up.1[up.1.len() - 1] == Action::StopRecordingForProcessing);
}

/// A short, quiet press records nothing: releasing the hotkey within the
/// short-press time of the recording's start with a peak below the silence
/// level stops the recorder without processing, restores background audio
/// and waits for a possible second tap.
pub proof fn law_short_quiet_press_is_discarded(rt: Runtime, t0: u64, t1: u64, t2: u64)
    requires
        rt.state == RuntimeState::Idle,
        rt.onboarding is None,
        rt.hold_started_at is None,
        is_short_press(Some(t1), t2),
    ensures
        ({
            let (down, hold, started, up) = hold_to_talk(rt, t0, t1, t2, true);
            &&& up.0.state == RuntimeState::TapPending
            &&& up.1.contains(Action::StopRecording)
            &&& up.1.contains(Action::EndDucking)
            &&& !up.1.contains(Action::StopRecordingForProcessing)
        }),
{
    let (down, hold, started, up) = hold_to_talk(rt, t0, t1, t2, true);
    assert(up.1[0] == Action::StopRecording);
    assert(up.1[1] == Action::EndDucking);
    assert(forall|i: int| 0 <= i < up.1.len() ==> up.1[i] != Action::StopRecordingForProcessing);
}


/// After the speech check, a recording that holds speech goes on to
/// transcription: the runtime is left as it was (still processing) and the
/// only action runs the pipeline on that recording. A recording without
/// speech is skipped as holding no speech: nothing is transcribed and the
/// runtime returns to `Idle`.
pub proof fn law_speech_check(rt: Runtime, path: String)
    ensures
        speech_check_spec((rt, seq![]), path, true) == (rt, seq![Action::RunPipeline(path)]),
        speech_check_spec((rt, seq![]), path, false).0.state == RuntimeState::Idle,
        speech_check_spec((rt, seq![]), path, false).1[0] == Action::EmitSkipped(SkipReason::NoSpeech),
        forall|i: int|
            0 <= i < speech_check_spec((rt, seq![]), path, false).1.len() ==> !(
            #[trigger] speech_check_spec((rt, seq![]), path, false).1[i] is RunPipeline),
{
    let r = speech_check_spec((rt, seq![]), path, false);
    assert(r.1.len() == 3);
    assert(r.1[0] == Action::EmitSkipped(SkipReason::NoSpeech));
    assert(r.1[1] == Action::ResetPeak);
    assert(r.1[2] is StateChanged);
}

/// The overlay's pause button toggles a hands-free recording: a recording
/// is paused (the recorder is paused and the state becomes `Paused`), a
/// paused recording is resumed (the recorder is resumed and the state
/// becomes `Recording`), and pressing it twice on a hands-free recording
/// (paused or not) leaves the runtime as it was. In any other state it does
/// nothing.
pub proof fn law_pause_toggles(rt: Runtime)
    ensures
        rt.state == RuntimeState::Paused ==> pause_spec((rt, seq![])).0.state
            == RuntimeState::Recording && pause_spec((rt, seq![])).1.len() == 2 && pause_spec(
            (rt, seq![]),
        ).1[0] == Action::ResumeRecording,
        rt.state == RuntimeState::Recording && rt.hands_free ==> pause_spec((rt, seq![])).0.state
            == RuntimeState::Paused && pause_spec((rt, seq![])).1.len() == 2 && pause_spec(
            (rt, seq![]),
        ).1[0] == Action::PauseRecording,
        rt.hands_free && (rt.state == RuntimeState::Paused || rt.state == RuntimeState::Recording)
            ==> pause_spec((pause_spec((rt, seq![])).0, seq![])).0 == rt,
        !(rt.state == RuntimeState::Paused || (rt.state == RuntimeState::Recording && rt.hands_free))
            ==> pause_spec((rt, seq![])) == (rt, Seq::<Action>::empty()),
{
}

} // verus!
