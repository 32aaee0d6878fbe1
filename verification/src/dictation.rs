//! The push-to-talk dictation runtime as a state machine.
//!
//! The runtime reacts to hotkey presses, overlay clicks, timers and the results
//! of audio work.  Each handler takes the current [`Runtime`] and the facts of
//! the event, moves the runtime to its next state and returns the ordered list
//! of [`Action`]s (sounds, recorder commands, notifications, timers) that the
//! embedding application performs.  Timers and recorder results come back as
//! further events.
use vstd::prelude::*;

use crate::pipeline::{
    classify_error, classify_spec, provider_settings_section_for_error, settings_section_spec,
};
use crate::text::{str_lower, to_lowercase, trim, trim_str};

verus! {

/// What the dictation runtime is doing.
#[derive(Clone, Copy, PartialEq, Eq, Debug, Structural)]
pub enum RuntimeState {
    Idle,
    PressPending,
    Recording,
    TapPending,
    Paused,
    Processing,
}

/// The first-run tutorial steps, in the order in which they are shown.
#[derive(Clone, Copy, PartialEq, Eq, Debug, Structural)]
pub enum OnboardingStep {
    TryIt,
    DoubleTapTip,
    ClickTip,
    ApiTip,
    FormattingTip,
    Welcome,
}

/// The feedback sounds.
#[derive(Clone, Copy, PartialEq, Eq, Debug, Structural)]
pub enum Sound {
    StartPress,
    HandsFree,
    Next,
    Skip,
}

/// Why an attempt to dictate produced nothing.
#[derive(Clone, Copy, PartialEq, Eq, Debug, Structural)]
pub enum SkipReason {
    QuickTap,
    TooShortOrQuiet,
    Silence,
    NoSpeech,
    EmptyTranscription,
}

/// The title of an error notification.
#[derive(Clone, Copy, PartialEq, Eq, Debug, Structural)]
pub enum ErrorTitle {
    RecordingFailed,
    PasteFailed,
    ChooseProvider,
    SetUpFormattingKey,
    SetUpApiKey,
    RateLimited,
    InvalidApiKey,
    TimedOut,
    NoInternet,
    SomethingWentWrong,
}

/// The settings section that an error points the user to.
#[derive(Clone, Copy, PartialEq, Eq, Debug, Structural)]
pub enum SettingsSection {
    Transcription,
    Formatting,
}

/// What the accessibility permission prompt of the overlay shows.
#[derive(Clone, PartialEq, Eq, Debug)]
pub enum PermissionPrompt {
    /// The prompt is hidden.
    Hidden,
    /// The hotkey with this label needs the permission.
    RequiredFor(String),
    /// The global hotkey needs the permission.
    Required,
}

/// A side effect that the embedding application performs, in order.
#[derive(Clone, PartialEq, Eq, Debug)]
pub enum Action {
    /// Stop listening to the hotkey.
    HotkeyStop,
    /// Start listening to the configured hotkey.
    HotkeyStart,
    /// Start polling audio levels, unless the poller already runs.
    StartLevelPoller,
    /// Launch the overlay and send it the configuration.
    SpawnOverlay,
    /// Reset the overlay and close it.
    StopOverlay,
    /// Forget the notification host.
    DetachHost,
    /// Hide the permission prompt where the permission is (or need not be) granted.
    ClearPermissionPromptIfGranted,
    /// Reset the recorded peak audio level to zero.
    ResetPeak,
    /// Announce the state to the host and to the overlay.
    StateChanged { state: RuntimeState, hands_free: bool, recording_started_at: Option<u64> },
    /// Send the state to the overlay only.
    OverlayState { state: RuntimeState, hands_free: bool, recording_started_at: Option<u64> },
    /// Send the configuration to the overlay.
    OverlayConfig,
    /// Show this onboarding step in the overlay (or none).
    OverlayOnboarding(Option<OnboardingStep>),
    /// Show the onboarding hold as pressed or released.
    OverlayOnboardingPress(bool),
    /// Update the permission prompt of the overlay.
    OverlayPermission(PermissionPrompt),
    /// Play a feedback sound.
    PlaySound(Sound),
    /// Play the cue that precedes a recording (and wait for it where it is the hands-free cue).
    PlayRecordingCue(Sound),
    /// Lower background audio.
    BeginDucking,
    /// Restore background audio.
    EndDucking,
    /// Start the recorder and report the result with `on_recording_start_result`.
    StartRecording { hands_free: bool, advance_to: Option<OnboardingStep> },
    /// Stop the recorder and discard what it recorded.
    StopRecording,
    /// Stop the recorder and report the result with `on_recording_stopped`.
    StopRecordingForProcessing,
    /// Pause the recorder.
    PauseRecording,
    /// Resume the recorder.
    ResumeRecording,
    /// After the hold-to-record delay, call `on_hold_delay_elapsed` with this generation.
    ScheduleHoldDelay { generation: u64 },
    /// After the double-tap grace period, call `on_tap_grace_elapsed` with these values.
    ScheduleTapGrace { generation: u64, reason: SkipReason, play_skip_sound: bool },
    /// After the onboarding hold delay, call `on_onboarding_hold_elapsed` with these values.
    ScheduleOnboardingHold { token: u64, step: OnboardingStep },
    /// Record in the configuration that onboarding is complete.
    PersistOnboardingComplete,
    /// Announce that the runtime started.
    EmitRuntimeStarted,
    /// Announce that the runtime stopped.
    EmitRuntimeStopped,
    /// Announce that an attempt produced nothing.
    EmitSkipped(SkipReason),
    /// Show an error in the overlay and announce it.
    ReportError { title: ErrorTitle, message: String },
    /// Announce that the hotkey with this label needs the accessibility permission.
    EmitPermissionRequired(String),
    /// Announce that the permission was requested.
    EmitPermissionRequested,
    /// Announce that the permission was granted.
    EmitPermissionGranted,
    /// Ask the system for the accessibility permission and report with `on_permission_request_result`.
    RequestAccessibilityPermission,
    /// Poll for the permission, calling `on_permission_poll` about once a second.
    StartPermissionPolling,
    /// Check the recording for speech and report with `on_speech_check`.
    CheckSpeech(String),
    /// Run transcription and formatting and report with `on_pipeline_result`.
    RunPipeline(String),
    /// Append this transcript to the history, with the (lower-cased) names
    /// of the transcription provider, and of the formatting provider and
    /// style where formatting is configured.
    AppendHistory {
        text: String,
        tx_provider: String,
        fmt_provider: Option<String>,
        fmt_style: Option<String>,
    },
    /// Announce that the history changed.
    EmitHistoryChanged,
    /// Paste this text and report with `on_paste_result`.
    Paste(String),
    /// Announce that this text was pasted.
    EmitPasted(String),
    /// Ask the host to show this settings section.
    EmitShowSettingsSection(SettingsSection),
}

/// The whole state of the dictation runtime.
///
/// Times are nanoseconds on a monotonic clock chosen by the application.
#[derive(Clone, Copy, PartialEq, Eq, Debug)]
pub struct Runtime {
    pub state: RuntimeState,
    pub hands_free: bool,
    pub ignore_pending_key_up: bool,
    pub generation: u64,
    pub onboarding: Option<OnboardingStep>,
    pub hold_started_at: Option<u64>,
    pub recording_started_at: Option<u64>,
    pub running: bool,
    pub permission_polling: bool,
}

/// The runtime together with the actions produced so far.
pub type Trace = (Runtime, Seq<Action>);

/// A press shorter than this (in nanoseconds) with a quiet signal counts as a tap.
pub const SHORT_PRESS_NANOS: u64 = 500_000_000;

/// The generation that follows `g`; the counter wraps around.
pub open spec fn next_generation(g: u64) -> u64 {
    if g == u64::MAX {
        0
    } else {
        (g + 1) as u64
    }
}

/// The label of a state in notifications.
pub open spec fn state_label_spec(s: RuntimeState) -> Seq<char> {
    match s {
        RuntimeState::Idle => "idle"@,
        RuntimeState::PressPending | RuntimeState::TapPending => "pending"@,
        RuntimeState::Recording => "recording"@,
        RuntimeState::Paused => "paused"@,
        RuntimeState::Processing => "processing"@,
    }
}

/// The identifier of an onboarding step.
pub open spec fn onboarding_id_spec(s: OnboardingStep) -> Seq<char> {
    match s {
        OnboardingStep::TryIt => "tryIt"@,
        OnboardingStep::DoubleTapTip => "doubleTapTip"@,
        OnboardingStep::ClickTip => "clickTip"@,
        OnboardingStep::ApiTip => "apiTip"@,
        OnboardingStep::FormattingTip => "formattingTip"@,
        OnboardingStep::Welcome => "welcome"@,
    }
}

/// The step that follows `s` in the tutorial; `None` after the last one.
pub open spec fn onboarding_successor(s: OnboardingStep) -> Option<OnboardingStep> {
    match s {
        OnboardingStep::TryIt => Some(OnboardingStep::DoubleTapTip),
        OnboardingStep::DoubleTapTip => Some(OnboardingStep::ClickTip),
        OnboardingStep::ClickTip => Some(OnboardingStep::ApiTip),
        OnboardingStep::ApiTip => Some(OnboardingStep::FormattingTip),
        OnboardingStep::FormattingTip => Some(OnboardingStep::Welcome),
        OnboardingStep::Welcome => None,
    }
}

pub open spec fn is_recording_or_paused(s: RuntimeState) -> bool {
    s == RuntimeState::Recording || s == RuntimeState::Paused
}

pub open spec fn emit(t: Trace, a: Action) -> Trace {
    (t.0, t.1.push(a))
}

/// `set_state`: entering `Idle` clears the hands-free flag, the recording
/// start and the peak; then the new state is announced.
pub open spec fn set_state(t: Trace, next: RuntimeState) -> Trace {
    let rt = t.0;
    let t1 = if next == RuntimeState::Idle {
        emit(
            (
                Runtime {
                    hands_free: false,
                    recording_started_at: None,
                    ignore_pending_key_up: false,
                    ..rt
                },
                t.1,
            ),
            Action::ResetPeak,
        )
    } else {
        t
    };
    let rt2 = Runtime { state: next, ..t1.0 };
    emit(
        (rt2, t1.1),
        Action::StateChanged {
            state: next,
            hands_free: rt2.hands_free,
            recording_started_at: rt2.recording_started_at,
        },
    )
}

pub open spec fn set_onboarding_step(t: Trace, step: Option<OnboardingStep>) -> Trace {
    emit((Runtime { onboarding: step, ..t.0 }, t.1), Action::OverlayOnboarding(step))
}

pub open spec fn advance_onboarding_step(t: Trace, next: OnboardingStep) -> Trace {
    set_onboarding_step(emit(t, Action::PlaySound(Sound::Next)), Some(next))
}

pub open spec fn complete_onboarding_recording_action(
    t: Trace,
    expected: OnboardingStep,
    next: OnboardingStep,
) -> Trace {
    if t.0.onboarding == Some(expected) {
        advance_onboarding_step(t, next)
    } else {
        t
    }
}

/// `reset_active_runtime`: stop the hotkey and any recording, clear the
/// per-recording flags and invalidate pending timers.
pub open spec fn reset_active_runtime(t: Trace) -> Trace {
    let t1 = emit(t, Action::HotkeyStop);
    let t2 = if is_recording_or_paused(t1.0.state) {
        emit(emit(t1, Action::StopRecording), Action::EndDucking)
    } else {
        t1
    };
    let t3 = emit(
        (Runtime { recording_started_at: None, ..t2.0 }, t2.1),
        Action::ResetPeak,
    );
    (
        Runtime {
            hold_started_at: None,
            hands_free: false,
            ignore_pending_key_up: false,
            generation: next_generation(t3.0.generation),
            ..t3.0
        },
        t3.1,
    )
}

pub open spec fn start_onboarding_if_needed(t: Trace, onboarding_complete: bool) -> Trace {
    if onboarding_complete {
        set_onboarding_step(t, None)
    } else {
        set_onboarding_step(t, Some(OnboardingStep::TryIt))
    }
}

/// `start`: the runtime begins to listen for the hotkey.
pub open spec fn start_spec(t: Trace, onboarding_complete: bool) -> Trace {
    let t1 = reset_active_runtime(t);
    let t2 = (Runtime { running: true, ..t1.0 }, t1.1);
    let t3 = emit(emit(emit(t2, Action::HotkeyStart), Action::StartLevelPoller), Action::SpawnOverlay);
    let t4 = set_state(t3, RuntimeState::Idle);
    let t5 = emit(t4, Action::ClearPermissionPromptIfGranted);
    let t6 = start_onboarding_if_needed(t5, onboarding_complete);
    emit(t6, Action::EmitRuntimeStarted)
}

/// `stop`: the runtime stops listening and resets.
pub open spec fn stop_spec(t: Trace) -> Trace {
    let t1 = (Runtime { running: false, ..t.0 }, t.1);
    let t2 = reset_active_runtime(t1);
    let t3 = set_state(t2, RuntimeState::Idle);
    let t4 = set_onboarding_step(t3, None);
    let t5 = emit(emit(t4, Action::StopOverlay), Action::EmitRuntimeStopped);
    let t6 = emit(t5, Action::DetachHost);
    (Runtime { permission_polling: false, ..t6.0 }, t6.1)
}

/// `begin_press_to_record`: only from `Idle`; arms the hold-to-record timer.
pub open spec fn begin_press_to_record(t: Trace, now: u64) -> Trace {
    if t.0.state != RuntimeState::Idle {
        t
    } else {
        let g = next_generation(t.0.generation);
        let t1 = emit((Runtime { generation: g, ..t.0 }, t.1), Action::ResetPeak);
        let t2 = (
            Runtime {
                recording_started_at: Some(now),
                hands_free: false,
                ignore_pending_key_up: false,
                ..t1.0
            },
            t1.1,
        );
        let t3 = set_state(t2, RuntimeState::PressPending);
        emit(emit(t3, Action::PlaySound(Sound::StartPress)), Action::ScheduleHoldDelay { generation: g })
    }
}

/// Whether `begin_hands_free_recording` starts a recording in this state.
pub open spec fn can_begin_hands_free(s: RuntimeState) -> bool {
    s == RuntimeState::Idle || s == RuntimeState::PressPending || s == RuntimeState::TapPending
}

/// `start_recording_for_generation`: checks that the timer still belongs to the
/// current attempt, then lowers background audio and asks for the recorder.
pub open spec fn start_recording_for_generation(
    t: Trace,
    generation: u64,
    hands_free: bool,
    advance_to: Option<OnboardingStep>,
) -> Trace {
    let expected = if hands_free {
        RuntimeState::Recording
    } else {
        RuntimeState::PressPending
    };
    if t.0.generation != generation || t.0.state != expected {
        t
    } else {
        emit(
            emit(t, Action::BeginDucking),
            Action::StartRecording { hands_free, advance_to },
        )
    }
}

/// `begin_hands_free_recording`: starts a hands-free recording from `Idle`,
/// `PressPending` or `TapPending`.
pub open spec fn begin_hands_free_recording(
    t: Trace,
    ignore_pending_key_up: bool,
    now: u64,
    advance_to: Option<OnboardingStep>,
) -> Trace {
    if !can_begin_hands_free(t.0.state) {
        t
    } else {
        let g = next_generation(t.0.generation);
        let t1 = emit(
            (
                Runtime {
                    generation: g,
                    recording_started_at: Some(now),
                    hands_free: true,
                    ..t.0
                },
                t.1,
            ),
            Action::ResetPeak,
        );
        let t2 = (Runtime { ignore_pending_key_up, ..t1.0 }, t1.1);
        let t3 = set_state(t2, RuntimeState::Recording);
        let t4 = emit(t3, Action::PlayRecordingCue(Sound::HandsFree));
        start_recording_for_generation(t4, g, true, advance_to)
    }
}

/// `begin_tap_pending`: waits for a possible second tap.
pub open spec fn begin_tap_pending(t: Trace, reason: SkipReason, play_skip_sound: bool) -> Trace {
    let g = t.0.generation;
    let t1 = (Runtime { hands_free: false, ignore_pending_key_up: false, ..t.0 }, t.1);
    let t2 = set_state(t1, RuntimeState::TapPending);
    emit(t2, Action::ScheduleTapGrace { generation: g, reason, play_skip_sound })
}

/// First half of `stop_and_process`: stop the recorder.
pub open spec fn stop_and_process(t: Trace) -> Trace {
    let t1 = set_state(t, RuntimeState::Processing);
    emit((Runtime { recording_started_at: None, ..t1.0 }, t1.1), Action::StopRecordingForProcessing)
}

pub open spec fn start_onboarding_hold(t: Trace, step: OnboardingStep, now: u64) -> Trace {
    if !(step == OnboardingStep::ApiTip || step == OnboardingStep::FormattingTip || step
        == OnboardingStep::Welcome) {
        t
    } else {
        let t1 = emit(
            (Runtime { hold_started_at: Some(now), ..t.0 }, t.1),
            Action::OverlayOnboardingPress(true),
        );
        emit(t1, Action::ScheduleOnboardingHold { token: now, step })
    }
}

pub open spec fn clear_onboarding_hold(t: Trace) -> Trace {
    emit((Runtime { hold_started_at: None, ..t.0 }, t.1), Action::OverlayOnboardingPress(false))
}

pub open spec fn finalize_onboarding(t: Trace) -> Trace {
    set_onboarding_step(emit(t, Action::PersistOnboardingComplete), None)
}

/// The hotkey went down.
pub open spec fn key_down_spec(t: Trace, now: u64) -> Trace {
    if is_recording_or_paused(t.0.state) && t.0.hands_free {
        stop_and_process(t)
    } else if t.0.onboarding.is_some() {
        let step = t.0.onboarding.unwrap();
        if step == OnboardingStep::TryIt {
            begin_press_to_record(t, now)
        } else if step == OnboardingStep::ApiTip || step == OnboardingStep::FormattingTip || step
            == OnboardingStep::Welcome {
            start_onboarding_hold(t, step, now)
        } else {
            t
        }
    } else if t.0.state == RuntimeState::Idle {
        begin_press_to_record(t, now)
    } else {
        t
    }
}

/// Whether a recording that started at `started_at` is, at `now`, a short press.
pub open spec fn is_short_press(started_at: Option<u64>, now: u64) -> bool {
    match started_at {
        Some(s) => (if now >= s {
            now - s
        } else {
            0
        }) < SHORT_PRESS_NANOS,
        None => false,
    }
}

/// The hotkey went up; `peak_below_silence` tells whether the peak level of
/// the recording so far is below the silence threshold.
pub open spec fn key_up_spec(t: Trace, now: u64, peak_below_silence: bool) -> Trace {
    if t.0.hold_started_at.is_some() {
        clear_onboarding_hold(t)
    } else if t.0.state == RuntimeState::PressPending {
        begin_tap_pending(t, SkipReason::QuickTap, true)
    } else if t.0.hands_free {
        (Runtime { ignore_pending_key_up: false, ..t.0 }, t.1)
    } else if t.0.state != RuntimeState::Recording {
        t
    } else if is_short_press(t.0.recording_started_at, now) && peak_below_silence {
        let t1 = (Runtime { recording_started_at: None, ..t.0 }, t.1);
        let t2 = emit(emit(t1, Action::StopRecording), Action::EndDucking);
        begin_tap_pending(t2, SkipReason::TooShortOrQuiet, false)
    } else {
        stop_and_process(t)
    }
}

/// Switch a press-and-hold recording to hands-free.
pub open spec fn switch_to_hands_free(t: Trace) -> Trace {
    let t1 = (Runtime { hands_free: true, ignore_pending_key_up: true, ..t.0 }, t.1);
    emit(set_state(t1, RuntimeState::Recording), Action::PlaySound(Sound::HandsFree))
}

/// The hotkey was tapped twice.
pub open spec fn double_tap_spec(t: Trace, now: u64) -> Trace {
    if t.0.onboarding.is_some() && t.0.onboarding.unwrap() != OnboardingStep::DoubleTapTip {
        t
    } else if t.0.state == RuntimeState::Recording && !t.0.hands_free {
        switch_to_hands_free(t)
    } else if can_begin_hands_free(t.0.state) {
        begin_hands_free_recording(t, true, now, None)
    } else {
        t
    }
}

/// The overlay pill was clicked.
pub open spec fn pill_click_spec(t: Trace, now: u64) -> Trace {
    if t.0.state == RuntimeState::Idle {
        match t.0.onboarding {
            Some(step) => if step == OnboardingStep::ClickTip {
                begin_hands_free_recording(t, false, now, Some(OnboardingStep::ApiTip))
            } else {
                t
            },
            None => begin_hands_free_recording(t, false, now, None),
        }
    } else if t.0.state == RuntimeState::Recording && !t.0.hands_free {
        switch_to_hands_free(t)
    } else {
        t
    }
}

/// The overlay pause button was clicked.
pub open spec fn pause_spec(t: Trace) -> Trace {
    if t.0.state == RuntimeState::Recording && t.0.hands_free {
        set_state(emit(t, Action::PauseRecording), RuntimeState::Paused)
    } else if t.0.state == RuntimeState::Paused {
        set_state(emit(t, Action::ResumeRecording), RuntimeState::Recording)
    } else {
        t
    }
}

/// The overlay stop button was clicked.
pub open spec fn overlay_stop_spec(t: Trace) -> Trace {
    if is_recording_or_paused(t.0.state) {
        stop_and_process(t)
    } else {
        t
    }
}

/// The hold-to-record delay of the attempt `generation` elapsed.
pub open spec fn hold_delay_spec(t: Trace, generation: u64) -> Trace {
    if t.0.state != RuntimeState::PressPending || t.0.generation != generation {
        t
    } else {
        start_recording_for_generation(t, generation, false, None)
    }
}

/// The recorder reported whether it started.
pub open spec fn recording_start_result_spec(
    t: Trace,
    hands_free: bool,
    advance_to: Option<OnboardingStep>,
    result: Result<(), String>,
    now: u64,
) -> Trace {
    match result {
        Ok(_) => {
            let t1 = emit(
                (Runtime { recording_started_at: Some(now), hands_free, ..t.0 }, t.1),
                Action::ResetPeak,
            );
            let t2 = set_state(t1, RuntimeState::Recording);
            let t3 = if hands_free {
                complete_onboarding_recording_action(
                    t2,
                    OnboardingStep::DoubleTapTip,
                    OnboardingStep::ClickTip,
                )
            } else {
                complete_onboarding_recording_action(
                    t2,
                    OnboardingStep::TryIt,
                    OnboardingStep::DoubleTapTip,
                )
            };
            match advance_to {
                Some(next) => advance_onboarding_step(t3, next),
                None => t3,
            }
        },
        Err(e) => {
            let t1 = emit(
                emit(t, Action::EndDucking),
                Action::ReportError { title: ErrorTitle::RecordingFailed, message: e },
            );
            set_state(t1, RuntimeState::Idle)
        },
    }
}

/// The double-tap grace period of the attempt `generation` elapsed.
pub open spec fn tap_grace_spec(
    t: Trace,
    generation: u64,
    reason: SkipReason,
    play_skip_sound: bool,
) -> Trace {
    if t.0.state != RuntimeState::TapPending || t.0.generation != generation {
        t
    } else {
        let t1 = if play_skip_sound {
            emit(t, Action::PlaySound(Sound::Skip))
        } else {
            t
        };
        set_state(emit(t1, Action::EmitSkipped(reason)), RuntimeState::Idle)
    }
}

/// The onboarding hold that started at `token` lasted long enough.
pub open spec fn onboarding_hold_spec(t: Trace, token: u64, step: OnboardingStep) -> Trace {
    if !(t.0.hold_started_at == Some(token) && t.0.onboarding == Some(step)) {
        t
    } else {
        let t1 = clear_onboarding_hold(t);
        if step == OnboardingStep::ApiTip {
            advance_onboarding_step(t1, OnboardingStep::FormattingTip)
        } else if step == OnboardingStep::FormattingTip {
            advance_onboarding_step(t1, OnboardingStep::Welcome)
        } else if step == OnboardingStep::Welcome {
            finalize_onboarding(t1)
        } else {
            t1
        }
    }
}

/// The recorder stopped for processing; `result` holds the recording's path.
pub open spec fn recording_stopped_spec(
    t: Trace,
    result: Result<String, String>,
    peak_below_silence: bool,
) -> Trace {
    match result {
        Err(e) => {
            let t1 = emit(
                emit(t, Action::EndDucking),
                Action::ReportError { title: ErrorTitle::RecordingFailed, message: e },
            );
            set_state(t1, RuntimeState::Idle)
        },
        Ok(path) => {
            let t1 = emit(emit(t, Action::EndDucking), Action::PlaySound(Sound::Skip));
            if peak_below_silence {
                set_state(emit(t1, Action::EmitSkipped(SkipReason::Silence)), RuntimeState::Idle)
            } else {
                emit(t1, Action::CheckSpeech(path))
            }
        },
    }
}

/// The speech check of a recording finished.
pub open spec fn speech_check_spec(t: Trace, path: String, has_speech: bool) -> Trace {
    if has_speech {
        emit(t, Action::RunPipeline(path))
    } else {
        set_state(emit(t, Action::EmitSkipped(SkipReason::NoSpeech)), RuntimeState::Idle)
    }
}

/// The paste of `text` finished.
pub open spec fn paste_result_spec(t: Trace, text: String, result: Result<(), String>) -> Trace {
    let t1 = match result {
        Err(e) => emit(t, Action::ReportError { title: ErrorTitle::PasteFailed, message: e }),
        Ok(_) => emit(t, Action::EmitPasted(text)),
    };
    set_state(t1, RuntimeState::Idle)
}

/// The hotkey needs the accessibility permission.
pub open spec fn permission_required_spec(t: Trace, label: String, polls: bool) -> Trace {
    let t1 = emit(
        emit(t, Action::OverlayPermission(PermissionPrompt::RequiredFor(label))),
        Action::EmitPermissionRequired(label),
    );
    if polls {
        ensure_permission_polling(t1)
    } else {
        t1
    }
}

pub open spec fn ensure_permission_polling(t: Trace) -> Trace {
    if t.0.permission_polling {
        t
    } else {
        emit((Runtime { permission_polling: true, ..t.0 }, t.1), Action::StartPermissionPolling)
    }
}

/// `finish_accessibility_permission_granted`.
pub open spec fn permission_granted_spec(t: Trace, onboarding_complete: bool) -> Trace {
    let t0 = (Runtime { permission_polling: false, ..t.0 }, t.1);
    if !t0.0.running {
        t0
    } else {
        let t1 = emit(
            emit(emit(t0, Action::HotkeyStop), Action::HotkeyStart),
            Action::OverlayPermission(PermissionPrompt::Hidden),
        );
        let t2 = emit(t1, Action::EmitPermissionGranted);
        if !onboarding_complete && t2.0.onboarding.is_none() {
            set_onboarding_step(t2, Some(OnboardingStep::TryIt))
        } else {
            t2
        }
    }
}

/// The answer to a permission request.
pub open spec fn permission_request_result_spec(
    t: Trace,
    granted: bool,
    onboarding_complete: bool,
) -> Trace {
    if granted {
        permission_granted_spec(t, onboarding_complete)
    } else {
        ensure_permission_polling(t)
    }
}

/// The overlay reported that it is ready: it gets the configuration, the
/// onboarding step and the state.
pub open spec fn overlay_ready_spec(t: Trace) -> Trace {
    let t1 = emit(emit(t, Action::OverlayConfig), Action::OverlayOnboarding(t.0.onboarding));
    emit(
        t1,
        Action::OverlayState {
            state: t.0.state,
            hands_free: t.0.hands_free,
            recording_started_at: t.0.recording_started_at,
        },
    )
}

/// The overlay requested the permission.
pub open spec fn permission_action_spec(t: Trace) -> Trace {
    emit(emit(t, Action::EmitPermissionRequested), Action::RequestAccessibilityPermission)
}

/// The events the overlay sends.
#[derive(Clone, Copy, PartialEq, Eq, Debug, Structural)]
pub enum OverlayEvent {
    Ready,
    PillClick,
    PermissionAction,
    Pause,
    Stop,
    Unknown,
}

/// The overlay event a message names.
pub open spec fn overlay_event_of(event: Seq<char>) -> OverlayEvent {
    if event == "ready"@ {
        OverlayEvent::Ready
    } else if event == "pill_click"@ {
        OverlayEvent::PillClick
    } else if event == "permission_action"@ {
        OverlayEvent::PermissionAction
    } else if event == "pause"@ {
        OverlayEvent::Pause
    } else if event == "stop"@ {
        OverlayEvent::Stop
    } else {
        OverlayEvent::Unknown
    }
}

/// The overlay event a message names: `ready`, `pill_click`,
/// `permission_action`, `pause` or `stop`.
pub fn overlay_event(event: &str) -> (r: OverlayEvent)
    ensures
        r == overlay_event_of(event@),
{
    if crate::text::str_eq(event, "ready") {
        OverlayEvent::Ready
    } else if crate::text::str_eq(event, "pill_click") {
        OverlayEvent::PillClick
    } else if crate::text::str_eq(event, "permission_action") {
        OverlayEvent::PermissionAction
    } else if crate::text::str_eq(event, "pause") {
        OverlayEvent::Pause
    } else if crate::text::str_eq(event, "stop") {
        OverlayEvent::Stop
    } else {
        OverlayEvent::Unknown
    }
}

/// The overlay sent the event `event`.
pub open spec fn overlay_event_spec(
    t: Trace,
    event: Seq<char>,
    now: u64,
    permission_prompts: bool,
) -> Trace {
    match overlay_event_of(event) {
        OverlayEvent::Ready => overlay_ready_spec(t),
        OverlayEvent::PillClick => pill_click_spec(t, now),
        OverlayEvent::PermissionAction => if permission_prompts {
            permission_action_spec(t)
        } else {
            t
        },
        OverlayEvent::Pause => pause_spec(t),
        OverlayEvent::Stop => overlay_stop_spec(t),
        OverlayEvent::Unknown => t,
    }
}

/// The processing of a recording failed with `e`.
pub open spec fn pipeline_error_spec(t: Trace, e: String) -> Trace {
    let t1 = emit(
        t,
        Action::ReportError { title: classify_spec(str_lower(e@)), message: e },
    );
    let t2 = match settings_section_spec(str_lower(e@)) {
        Some(section) => emit(t1, Action::EmitShowSettingsSection(section)),
        None => t1,
    };
    set_state(t2, RuntimeState::Idle)
}

/// What a history entry records besides the transcript, as the
/// configuration names it: the transcription provider, and where formatting
/// is configured, the formatting provider and style.
#[derive(Clone, Debug)]
pub struct HistorySource {
    pub tx_provider: String,
    pub formatting: Option<(String, String)>,
}

/// Whether `a` is the history entry of transcript `text` from `src`: the
/// provider and style names lower-cased, the formatting ones only where
/// formatting is configured.
pub open spec fn history_entry(a: Action, text: String, src: HistorySource) -> bool {
    match a {
        Action::AppendHistory { text: t, tx_provider, fmt_provider, fmt_style } => {
            &&& t == text
            &&& tx_provider@ == str_lower(src.tx_provider@)
            &&& match src.formatting {
                None => fmt_provider is None && fmt_style is None,
                Some((p, st)) => opt_text(fmt_provider) == Some(str_lower(p@)) && opt_text(
                    fmt_style,
                ) == Some(str_lower(st@)),
            }
        },
        _ => false,
    }
}

pub open spec fn opt_text(o: Option<String>) -> Option<Seq<char>> {
    match o {
        Some(s) => Some(s@),
        None => None,
    }
}

/// The actions that deliver the transcript `text`, after recording it in
/// the history with `entry` where there is one.
pub open spec fn delivery_actions(text: String, entry: Option<Action>) -> Seq<Action> {
    match entry {
        Some(h) => seq![h, Action::EmitHistoryChanged, Action::Paste(text)],
        None => seq![Action::Paste(text)],
    }
}

/// A poll for the accessibility permission.
pub open spec fn permission_poll_spec(t: Trace, has_permission: bool, onboarding_complete: bool) -> (
    bool,
    Trace,
) {
    if !t.0.running {
        (false, (Runtime { permission_polling: false, ..t.0 }, t.1))
    } else if has_permission {
        (false, permission_granted_spec(t, onboarding_complete))
    } else {
        (true, t)
    }
}

/// Polling for the permission gave up.
pub open spec fn permission_poll_exhausted_spec(t: Trace) -> Trace {
    emit(
        (Runtime { permission_polling: false, ..t.0 }, t.1),
        Action::OverlayPermission(PermissionPrompt::Required),
    )
}

impl Runtime {
    /// The runtime before `start`.
    pub fn new() -> (r: Runtime)
        ensures
            r == Runtime::initial(),
    {
        Runtime {
            state: RuntimeState::Idle,
            hands_free: false,
            ignore_pending_key_up: false,
            generation: 0,
            onboarding: None,
            hold_started_at: None,
            recording_started_at: None,
            running: false,
            permission_polling: false,
        }
    }

    pub open spec fn initial() -> Runtime {
        Runtime {
            state: RuntimeState::Idle,
            hands_free: false,
            ignore_pending_key_up: false,
            generation: 0,
            onboarding: None,
            hold_started_at: None,
            recording_started_at: None,
            running: false,
            permission_polling: false,
        }
    }

    fn push(&self, acts: &mut Vec<Action>, a: Action)
        ensures
            final(acts)@ == old(acts)@.push(a),
    {
        acts.push(a);
    }

    fn set_state(&mut self, acts: &mut Vec<Action>, next: RuntimeState)
        ensures
            (*final(self), final(acts)@) == set_state((*old(self), old(acts)@), next),
    {
        if next == RuntimeState::Idle {
            self.hands_free = false;
            self.recording_started_at = None;
            acts.push(Action::ResetPeak);
            self.ignore_pending_key_up = false;
        }
        self.state = next;
        acts.push(
            Action::StateChanged {
                state: next,
                hands_free: self.hands_free,
                recording_started_at: self.recording_started_at,
            },
        );
    }

    fn set_onboarding_step(&mut self, acts: &mut Vec<Action>, step: Option<OnboardingStep>)
        ensures
            (*final(self), final(acts)@) == set_onboarding_step((*old(self), old(acts)@), step),
    {
        self.onboarding = step;
        acts.push(Action::OverlayOnboarding(step));
    }

    fn advance_onboarding_step(&mut self, acts: &mut Vec<Action>, next: OnboardingStep)
        ensures
            (*final(self), final(acts)@) == advance_onboarding_step((*old(self), old(acts)@), next),
    {
        acts.push(Action::PlaySound(Sound::Next));
        self.set_onboarding_step(acts, Some(next));
    }

    fn complete_onboarding_recording_action(
        &mut self,
        acts: &mut Vec<Action>,
        expected: OnboardingStep,
        next: OnboardingStep,
    )
        ensures
            (*final(self), final(acts)@) == complete_onboarding_recording_action(
                (*old(self), old(acts)@),
                expected,
                next,
            ),
    {
        if self.onboarding == Some(expected) {
            self.advance_onboarding_step(acts, next);
        }
    }

    fn next_recording_generation(&mut self) -> (g: u64)
        ensures
            g == next_generation(old(self).generation),
            *final(self) == (Runtime { generation: g, ..*old(self) }),
    {
        self.generation = if self.generation == u64::MAX {
            0
        } else {
            self.generation + 1
        };
        self.generation
    }

    fn reset_active_runtime(&mut self, acts: &mut Vec<Action>)
        ensures
            (*final(self), final(acts)@) == reset_active_runtime((*old(self), old(acts)@)),
    {
        acts.push(Action::HotkeyStop);
        if self.state == RuntimeState::Recording || self.state == RuntimeState::Paused {
            acts.push(Action::StopRecording);
            acts.push(Action::EndDucking);
        }
        self.recording_started_at = None;
        acts.push(Action::ResetPeak);
        self.hold_started_at = None;
        self.hands_free = false;
        self.ignore_pending_key_up = false;
        self.next_recording_generation();
    }

    /// `start`: begin listening for the hotkey; `onboarding_complete` is the
    /// configuration's flag.
    pub fn start(&mut self, onboarding_complete: bool) -> (acts: Vec<Action>)
        ensures
            (*final(self), acts@) == start_spec((*old(self), seq![]), onboarding_complete),
    {
        let mut acts: Vec<Action> = Vec::new();
        self.reset_active_runtime(&mut acts);
        self.running = true;
        acts.push(Action::HotkeyStart);
        acts.push(Action::StartLevelPoller);
        acts.push(Action::SpawnOverlay);
        self.set_state(&mut acts, RuntimeState::Idle);
        acts.push(Action::ClearPermissionPromptIfGranted);
        if onboarding_complete {
            self.set_onboarding_step(&mut acts, None);
        } else {
            self.set_onboarding_step(&mut acts, Some(OnboardingStep::TryIt));
        }
        acts.push(Action::EmitRuntimeStarted);
        acts
    }

    /// `stop`: stop listening, stop any recording and return to `Idle`.
    pub fn stop(&mut self) -> (acts: Vec<Action>)
        ensures
            (*final(self), acts@) == stop_spec((*old(self), seq![])),
    {
        let mut acts: Vec<Action> = Vec::new();
        self.running = false;
        self.reset_active_runtime(&mut acts);
        self.set_state(&mut acts, RuntimeState::Idle);
        self.set_onboarding_step(&mut acts, None);
        acts.push(Action::StopOverlay);
        acts.push(Action::EmitRuntimeStopped);
        acts.push(Action::DetachHost);
        self.permission_polling = false;
        acts
    }

    /// Whether the runtime was started and not stopped since.
    pub fn is_running(&self) -> (r: bool)
        ensures
            r == self.running,
    {
        self.running
    }

    fn begin_press_to_record(&mut self, acts: &mut Vec<Action>, now: u64) -> (started: bool)
        ensures
            (*final(self), final(acts)@) == begin_press_to_record((*old(self), old(acts)@), now),
            started == (old(self).state == RuntimeState::Idle),
    {
        if self.state != RuntimeState::Idle {
            return false;
        }
        let g = self.next_recording_generation();
        acts.push(Action::ResetPeak);
        self.recording_started_at = Some(now);
        self.hands_free = false;
        self.ignore_pending_key_up = false;
        self.set_state(acts, RuntimeState::PressPending);
        acts.push(Action::PlaySound(Sound::StartPress));
        acts.push(Action::ScheduleHoldDelay { generation: g });
        true
    }

    fn start_recording_for_generation(
        &mut self,
        acts: &mut Vec<Action>,
        generation: u64,
        hands_free: bool,
        advance_to: Option<OnboardingStep>,
    )
        ensures
            (*final(self), final(acts)@) == start_recording_for_generation(
                (*old(self), old(acts)@),
                generation,
                hands_free,
                advance_to,
            ),
    {
        if self.generation != generation {
            return ;
        }
        let expected = if hands_free {
            RuntimeState::Recording
        } else {
            RuntimeState::PressPending
        };
        if self.state != expected {
            return ;
        }
        acts.push(Action::BeginDucking);
        acts.push(Action::StartRecording { hands_free, advance_to });
    }

    fn begin_hands_free_recording(
        &mut self,
        acts: &mut Vec<Action>,
        ignore_pending_key_up: bool,
        now: u64,
        advance_to: Option<OnboardingStep>,
    )
        ensures
            (*final(self), final(acts)@) == begin_hands_free_recording(
                (*old(self), old(acts)@),
                ignore_pending_key_up,
                now,
                advance_to,
            ),
    {
        if !(self.state == RuntimeState::Idle || self.state == RuntimeState::PressPending
            || self.state == RuntimeState::TapPending) {
            return ;
        }
        let g = self.next_recording_generation();
        self.recording_started_at = Some(now);
        self.hands_free = true;
        acts.push(Action::ResetPeak);
        self.ignore_pending_key_up = ignore_pending_key_up;
        self.set_state(acts, RuntimeState::Recording);
        acts.push(Action::PlayRecordingCue(Sound::HandsFree));
        self.start_recording_for_generation(acts, g, true, advance_to);
    }

    fn begin_tap_pending(&mut self, acts: &mut Vec<Action>, reason: SkipReason, play_skip_sound: bool)
        ensures
            (*final(self), final(acts)@) == begin_tap_pending(
                (*old(self), old(acts)@),
                reason,
                play_skip_sound,
            ),
    {
        let g = self.generation;
        self.hands_free = false;
        self.ignore_pending_key_up = false;
        self.set_state(acts, RuntimeState::TapPending);
        acts.push(Action::ScheduleTapGrace { generation: g, reason, play_skip_sound });
    }

    fn stop_and_process(&mut self, acts: &mut Vec<Action>)
        ensures
            (*final(self), final(acts)@) == stop_and_process((*old(self), old(acts)@)),
    {
        self.set_state(acts, RuntimeState::Processing);
        self.recording_started_at = None;
        acts.push(Action::StopRecordingForProcessing);
    }

    fn start_onboarding_hold(&mut self, acts: &mut Vec<Action>, step: OnboardingStep, now: u64)
        ensures
            (*final(self), final(acts)@) == start_onboarding_hold((*old(self), old(acts)@), step, now),
    {
        if !(step == OnboardingStep::ApiTip || step == OnboardingStep::FormattingTip || step
            == OnboardingStep::Welcome) {
            return ;
        }
        self.hold_started_at = Some(now);
        acts.push(Action::OverlayOnboardingPress(true));
        acts.push(Action::ScheduleOnboardingHold { token: now, step });
    }

    fn clear_onboarding_hold(&mut self, acts: &mut Vec<Action>)
        ensures
            (*final(self), final(acts)@) == clear_onboarding_hold((*old(self), old(acts)@)),
    {
        self.hold_started_at = None;
        acts.push(Action::OverlayOnboardingPress(false));
    }

    fn switch_to_hands_free(&mut self, acts: &mut Vec<Action>)
        ensures
            (*final(self), final(acts)@) == switch_to_hands_free((*old(self), old(acts)@)),
    {
        self.hands_free = true;
        self.ignore_pending_key_up = true;
        self.set_state(acts, RuntimeState::Recording);
        acts.push(Action::PlaySound(Sound::HandsFree));
    }

    /// The hotkey went down at `now`.
    pub fn on_key_down(&mut self, now: u64) -> (acts: Vec<Action>)
        ensures
            (*final(self), acts@) == key_down_spec((*old(self), seq![]), now),
    {
        let mut acts: Vec<Action> = Vec::new();
        if (self.state == RuntimeState::Recording || self.state == RuntimeState::Paused)
            && self.hands_free {
            self.stop_and_process(&mut acts);
            return acts;
        }
        match self.onboarding {
            Some(step) => {
                match step {
                    OnboardingStep::TryIt => {
                        self.begin_press_to_record(&mut acts, now);
                    },
                    OnboardingStep::ApiTip | OnboardingStep::FormattingTip
                    | OnboardingStep::Welcome => {
                        self.start_onboarding_hold(&mut acts, step, now);
                    },
                    OnboardingStep::DoubleTapTip | OnboardingStep::ClickTip => {},
                }
                return acts;
            },
            None => {},
        }
        if self.state == RuntimeState::Idle {
            self.begin_press_to_record(&mut acts, now);
        }
        acts
    }

    /// The hotkey went up at `now`; `peak_below_silence` tells whether the peak
    /// level recorded so far is below the silence threshold.
    pub fn on_key_up(&mut self, now: u64, peak_below_silence: bool) -> (acts: Vec<Action>)
        ensures
            (*final(self), acts@) == key_up_spec((*old(self), seq![]), now, peak_below_silence),
    {
        let mut acts: Vec<Action> = Vec::new();
        if self.hold_started_at.is_some() {
            self.clear_onboarding_hold(&mut acts);
            return acts;
        }
        if self.state == RuntimeState::PressPending {
            self.begin_tap_pending(&mut acts, SkipReason::QuickTap, true);
            return acts;
        }
        if self.hands_free {
            self.ignore_pending_key_up = false;
            return acts;
        }
        if self.state != RuntimeState::Recording {
            return acts;
        }
        let short = match self.recording_started_at {
            Some(s) => now.saturating_sub(s) < SHORT_PRESS_NANOS,
            None => false,
        };
        if short && peak_below_silence {
            self.recording_started_at = None;
            acts.push(Action::StopRecording);
            acts.push(Action::EndDucking);
            self.begin_tap_pending(&mut acts, SkipReason::TooShortOrQuiet, false);
            return acts;
        }
        self.stop_and_process(&mut acts);
        acts
    }

    /// The hotkey was tapped twice at `now`.
    pub fn on_double_tap(&mut self, now: u64) -> (acts: Vec<Action>)
        ensures
            (*final(self), acts@) == double_tap_spec((*old(self), seq![]), now),
    {
        let mut acts: Vec<Action> = Vec::new();
        if let Some(step) = self.onboarding {
            if step != OnboardingStep::DoubleTapTip {
                return acts;
            }
        }
        match self.state {
            RuntimeState::Recording if !self.hands_free => {
                self.switch_to_hands_free(&mut acts);
            },
            RuntimeState::Idle | RuntimeState::PressPending | RuntimeState::TapPending => {
                self.begin_hands_free_recording(&mut acts, true, now, None);
            },
            _ => {},
        }
        acts
    }

    /// The overlay pill was clicked at `now`.
    pub fn on_overlay_pill_click(&mut self, now: u64) -> (acts: Vec<Action>)
        ensures
            (*final(self), acts@) == pill_click_spec((*old(self), seq![]), now),
    {
        let mut acts: Vec<Action> = Vec::new();
        if self.state == RuntimeState::Idle {
            match self.onboarding {
                Some(step) => {
                    if step == OnboardingStep::ClickTip {
                        self.begin_hands_free_recording(
                            &mut acts,
                            false,
                            now,
                            Some(OnboardingStep::ApiTip),
                        );
                    }
                },
                None => {
                    self.begin_hands_free_recording(&mut acts, false, now, None);
                },
            }
        } else if self.state == RuntimeState::Recording && !self.hands_free {
            self.switch_to_hands_free(&mut acts);
        }
        acts
    }

    /// The overlay pause button was clicked.
    pub fn on_overlay_pause(&mut self) -> (acts: Vec<Action>)
        ensures
            (*final(self), acts@) == pause_spec((*old(self), seq![])),
            old(self).state == RuntimeState::Paused ==> final(self).state == RuntimeState::Recording
                && acts@.len() == 2 && acts@[0] == Action::ResumeRecording,
            old(self).state == RuntimeState::Recording && old(self).hands_free ==> final(self).state
                == RuntimeState::Paused && acts@.len() == 2 && acts@[0] == Action::PauseRecording,
            !(old(self).state == RuntimeState::Paused || (old(self).state == RuntimeState::Recording
                && old(self).hands_free)) ==> *final(self) == *old(self) && acts@.len() == 0,
    {
        let mut acts: Vec<Action> = Vec::new();
        match self.state {
            RuntimeState::Recording if self.hands_free => {
                acts.push(Action::PauseRecording);
                self.set_state(&mut acts, RuntimeState::Paused);
            },
            RuntimeState::Paused => {
                acts.push(Action::ResumeRecording);
                self.set_state(&mut acts, RuntimeState::Recording);
            },
            _ => {},
        }
        acts
    }

    /// The overlay stop button was clicked.
    pub fn on_overlay_stop(&mut self) -> (acts: Vec<Action>)
        ensures
            (*final(self), acts@) == overlay_stop_spec((*old(self), seq![])),
    {
        let mut acts: Vec<Action> = Vec::new();
        if self.state == RuntimeState::Recording || self.state == RuntimeState::Paused {
            self.stop_and_process(&mut acts);
        }
        acts
    }

    /// The hold-to-record delay armed for `generation` elapsed.
    pub fn on_hold_delay_elapsed(&mut self, generation: u64) -> (acts: Vec<Action>)
        ensures
            (*final(self), acts@) == hold_delay_spec((*old(self), seq![]), generation),
    {
        let mut acts: Vec<Action> = Vec::new();
        if self.state != RuntimeState::PressPending || self.generation != generation {
            return acts;
        }
        self.start_recording_for_generation(&mut acts, generation, false, None);
        acts
    }

    /// The recorder answered a `StartRecording` action.
    pub fn on_recording_start_result(
        &mut self,
        hands_free: bool,
        advance_to: Option<OnboardingStep>,
        result: Result<(), String>,
        now: u64,
    ) -> (acts: Vec<Action>)
        ensures
            (*final(self), acts@) == recording_start_result_spec(
                (*old(self), seq![]),
                hands_free,
                advance_to,
                result,
                now,
            ),
    {
        let mut acts: Vec<Action> = Vec::new();
        match result {
            Ok(_) => {
                self.recording_started_at = Some(now);
                self.hands_free = hands_free;
                acts.push(Action::ResetPeak);
                self.set_state(&mut acts, RuntimeState::Recording);
                if hands_free {
                    self.complete_onboarding_recording_action(
                        &mut acts,
                        OnboardingStep::DoubleTapTip,
                        OnboardingStep::ClickTip,
                    );
                } else {
                    self.complete_onboarding_recording_action(
                        &mut acts,
                        OnboardingStep::TryIt,
                        OnboardingStep::DoubleTapTip,
                    );
                }
                if let Some(next) = advance_to {
                    self.advance_onboarding_step(&mut acts, next);
                }
            },
            Err(e) => {
                acts.push(Action::EndDucking);
                acts.push(Action::ReportError { title: ErrorTitle::RecordingFailed, message: e });
                self.set_state(&mut acts, RuntimeState::Idle);
            },
        }
        acts
    }

    /// The double-tap grace period armed for `generation` elapsed.
    pub fn on_tap_grace_elapsed(
        &mut self,
        generation: u64,
        reason: SkipReason,
        play_skip_sound: bool,
    ) -> (acts: Vec<Action>)
        ensures
            (*final(self), acts@) == tap_grace_spec(
                (*old(self), seq![]),
                generation,
                reason,
                play_skip_sound,
            ),
    {
        let mut acts: Vec<Action> = Vec::new();
        if self.state != RuntimeState::TapPending || self.generation != generation {
            return acts;
        }
        if play_skip_sound {
            acts.push(Action::PlaySound(Sound::Skip));
        }
        acts.push(Action::EmitSkipped(reason));
        self.set_state(&mut acts, RuntimeState::Idle);
        acts
    }

    /// The onboarding hold that began at `token` on `step` lasted long enough.
    pub fn on_onboarding_hold_elapsed(&mut self, token: u64, step: OnboardingStep) -> (acts: Vec<
        Action,
    >)
        ensures
            (*final(self), acts@) == onboarding_hold_spec((*old(self), seq![]), token, step),
    {
        let mut acts: Vec<Action> = Vec::new();
        if !(self.hold_started_at == Some(token) && self.onboarding == Some(step)) {
            return acts;
        }
        self.clear_onboarding_hold(&mut acts);
        match step {
            OnboardingStep::ApiTip => self.advance_onboarding_step(
                &mut acts,
                OnboardingStep::FormattingTip,
            ),
            OnboardingStep::FormattingTip => self.advance_onboarding_step(
                &mut acts,
                OnboardingStep::Welcome,
            ),
            OnboardingStep::Welcome => {
                acts.push(Action::PersistOnboardingComplete);
                self.set_onboarding_step(&mut acts, None);
            },
            _ => {},
        }
        acts
    }

    /// The recorder answered a `StopRecordingForProcessing` action.
    pub fn on_recording_stopped(&mut self, result: Result<String, String>, peak_below_silence: bool) -> (acts:
        Vec<Action>)
        ensures
            (*final(self), acts@) == recording_stopped_spec(
                (*old(self), seq![]),
                result,
                peak_below_silence,
            ),
    {
        let mut acts: Vec<Action> = Vec::new();
        match result {
            Err(e) => {
                acts.push(Action::EndDucking);
                acts.push(Action::ReportError { title: ErrorTitle::RecordingFailed, message: e });
                self.set_state(&mut acts, RuntimeState::Idle);
            },
            Ok(path) => {
                acts.push(Action::EndDucking);
                acts.push(Action::PlaySound(Sound::Skip));
                if peak_below_silence {
                    acts.push(Action::EmitSkipped(SkipReason::Silence));
                    self.set_state(&mut acts, RuntimeState::Idle);
                } else {
                    acts.push(Action::CheckSpeech(path));
                }
            },
        }
        acts
    }

    /// The speech check of the recording at `path` finished.
    pub fn on_speech_check(&mut self, path: String, has_speech: bool) -> (acts: Vec<Action>)
        ensures
            (*final(self), acts@) == speech_check_spec((*old(self), seq![]), path, has_speech),
            has_speech ==> *final(self) == *old(self) && acts@ == seq![Action::RunPipeline(path)],
            !has_speech ==> final(self).state == RuntimeState::Idle && acts@[0]
                == Action::EmitSkipped(SkipReason::NoSpeech) && forall|i: int|
                0 <= i < acts@.len() ==> !(#[trigger] acts@[i] is RunPipeline),
    {
        let mut acts: Vec<Action> = Vec::new();
        if has_speech {
            acts.push(Action::RunPipeline(path));
        } else {
            acts.push(Action::EmitSkipped(SkipReason::NoSpeech));
            self.set_state(&mut acts, RuntimeState::Idle);
        }
        acts
    }

    /// The paste of `text` finished.
    pub fn on_paste_result(&mut self, text: String, result: Result<(), String>) -> (acts: Vec<
        Action,
    >)
        ensures
            (*final(self), acts@) == paste_result_spec((*old(self), seq![]), text, result),
    {
        let mut acts: Vec<Action> = Vec::new();
        match result {
            Err(e) => acts.push(Action::ReportError { title: ErrorTitle::PasteFailed, message: e }),
            Ok(_) => acts.push(Action::EmitPasted(text)),
        }
        self.set_state(&mut acts, RuntimeState::Idle);
        acts
    }

    fn ensure_permission_polling(&mut self, acts: &mut Vec<Action>)
        ensures
            (*final(self), final(acts)@) == ensure_permission_polling((*old(self), old(acts)@)),
    {
        if self.permission_polling {
            return ;
        }
        self.permission_polling = true;
        acts.push(Action::StartPermissionPolling);
    }

    /// The hotkey with label `label` needs the accessibility permission;
    /// `polls` tells whether the platform polls for the permission.
    pub fn on_permission_required(&mut self, label: String, polls: bool) -> (acts: Vec<Action>)
        ensures
            (*final(self), acts@) == permission_required_spec((*old(self), seq![]), label, polls),
    {
        let mut acts: Vec<Action> = Vec::new();
        acts.push(Action::OverlayPermission(PermissionPrompt::RequiredFor(label.clone())));
        acts.push(Action::EmitPermissionRequired(label));
        if polls {
            self.ensure_permission_polling(&mut acts);
        }
        acts
    }

    fn permission_granted(&mut self, acts: &mut Vec<Action>, onboarding_complete: bool)
        ensures
            (*final(self), final(acts)@) == permission_granted_spec(
                (*old(self), old(acts)@),
                onboarding_complete,
            ),
    {
        self.permission_polling = false;
        if !self.running {
            return ;
        }
        acts.push(Action::HotkeyStop);
        acts.push(Action::HotkeyStart);
        acts.push(Action::OverlayPermission(PermissionPrompt::Hidden));
        acts.push(Action::EmitPermissionGranted);
        if !onboarding_complete && self.onboarding.is_none() {
            self.set_onboarding_step(acts, Some(OnboardingStep::TryIt));
        }
    }

    /// The permission was found to be granted.
    pub fn on_permission_granted(&mut self, onboarding_complete: bool) -> (acts: Vec<Action>)
        ensures
            (*final(self), acts@) == permission_granted_spec(
                (*old(self), seq![]),
                onboarding_complete,
            ),
    {
        let mut acts: Vec<Action> = Vec::new();
        self.permission_granted(&mut acts, onboarding_complete);
        acts
    }

    /// The system answered a `RequestAccessibilityPermission` action.
    pub fn on_permission_request_result(&mut self, granted: bool, onboarding_complete: bool) -> (acts:
        Vec<Action>)
        ensures
            (*final(self), acts@) == permission_request_result_spec(
                (*old(self), seq![]),
                granted,
                onboarding_complete,
            ),
    {
        let mut acts: Vec<Action> = Vec::new();
        if granted {
            self.permission_granted(&mut acts, onboarding_complete);
        } else {
            self.ensure_permission_polling(&mut acts);
        }
        acts
    }

    /// The transcription pipeline finished with `result`; `history_enabled`
    /// tells whether transcripts are kept in the history, and `source` what
    /// an entry records about how it was made.
    pub fn on_pipeline_result(
        &mut self,
        result: Result<String, String>,
        history_enabled: bool,
        source: &HistorySource,
    ) -> (acts: Vec<Action>)
        ensures
            result matches Ok(text) ==> (trim(text@).len() > 0 ==> (*final(self) == *old(self)
                && exists|x: String, entry: Option<Action>|
                {
                    &&& x@ == trim(text@)
                    &&& (entry is Some <==> history_enabled)
                    &&& (entry matches Some(h) ==> history_entry(h, x, *source))
                    &&& acts@ == #[trigger] delivery_actions(x, entry)
                })),
            result matches Ok(text) ==> (trim(text@).len() == 0 ==> (*final(self), acts@)
                == set_state(
                emit((*old(self), seq![]), Action::EmitSkipped(SkipReason::EmptyTranscription)),
                RuntimeState::Idle,
            )),
            result matches Err(e) ==> (*final(self), acts@) == pipeline_error_spec(
                (*old(self), seq![]),
                e,
            ),
    {
        let mut acts: Vec<Action> = Vec::new();
        match result {
            Ok(text) => {
                let t = trim_str(text.as_str());
                if !t.as_str().is_empty() {
                    let ghost tv = t;
                    let ghost mut entry: Option<Action> = None;
                    if history_enabled {
                        let tx_provider = to_lowercase(source.tx_provider.as_str());
                        let (fmt_provider, fmt_style) = match &source.formatting {
                            Some((p, st)) => (
                                Some(to_lowercase(p.as_str())),
                                Some(to_lowercase(st.as_str())),
                            ),
                            None => (None, None),
                        };
                        let h = Action::AppendHistory {
                            text: t.clone(),
                            tx_provider,
                            fmt_provider,
                            fmt_style,
                        };
                        proof {
                            entry = Some(h);
                        }
                        acts.push(h);
                        acts.push(Action::EmitHistoryChanged);
                    }
                    acts.push(Action::Paste(t));
                    assert(acts@ =~= delivery_actions(tv, entry));
                    assert(tv@ == trim(text@));
                    return acts;
                }
                acts.push(Action::EmitSkipped(SkipReason::EmptyTranscription));
                self.set_state(&mut acts, RuntimeState::Idle);
            },
            Err(e) => {
                let section = provider_settings_section_for_error(e.as_str());
                let title = classify_error(e.as_str());
                acts.push(Action::ReportError { title, message: e });
                if let Some(s) = section {
                    acts.push(Action::EmitShowSettingsSection(s));
                }
                self.set_state(&mut acts, RuntimeState::Idle);
            },
        }
        acts
    }

    /// One poll for the accessibility permission; the result tells whether to keep polling.
    pub fn on_permission_poll(&mut self, has_permission: bool, onboarding_complete: bool) -> (r: (
        bool,
        Vec<Action>,
    ))
        ensures
            (r.0, (*final(self), r.1@)) == permission_poll_spec(
                (*old(self), seq![]),
                has_permission,
                onboarding_complete,
            ),
    {
        let mut acts: Vec<Action> = Vec::new();
        if !self.running {
            self.permission_polling = false;
            return (false, acts);
        }
        if has_permission {
            self.permission_granted(&mut acts, onboarding_complete);
            return (false, acts);
        }
        (true, acts)
    }

    /// Polling for the permission ran out of attempts.
    pub fn on_permission_poll_exhausted(&mut self) -> (acts: Vec<Action>)
        ensures
            (*final(self), acts@) == permission_poll_exhausted_spec((*old(self), seq![])),
    {
        self.permission_polling = false;
        let mut acts: Vec<Action> = Vec::new();
        acts.push(Action::OverlayPermission(PermissionPrompt::Required));
        acts
    }

    /// The overlay sent `event`; `permission_prompts` tells whether the
    /// platform's overlay can request the permission.
    pub fn handle_overlay_event(&mut self, event: &str, now: u64, permission_prompts: bool) -> (acts:
        Vec<Action>)
        ensures
            (*final(self), acts@) == overlay_event_spec(
                (*old(self), seq![]),
                event@,
                now,
                permission_prompts,
            ),
    {
        match overlay_event(event) {
            OverlayEvent::Ready => {
                let mut acts: Vec<Action> = Vec::new();
                acts.push(Action::OverlayConfig);
                acts.push(Action::OverlayOnboarding(self.onboarding));
                acts.push(
                    Action::OverlayState {
                        state: self.state,
                        hands_free: self.hands_free,
                        recording_started_at: self.recording_started_at,
                    },
                );
                acts
            },
            OverlayEvent::PillClick => self.on_overlay_pill_click(now),
            OverlayEvent::PermissionAction => {
                if permission_prompts {
                    let mut acts: Vec<Action> = Vec::new();
                    acts.push(Action::EmitPermissionRequested);
                    acts.push(Action::RequestAccessibilityPermission);
                    acts
                } else {
                    Vec::new()
                }
            },
            OverlayEvent::Pause => self.on_overlay_pause(),
            OverlayEvent::Stop => self.on_overlay_stop(),
            OverlayEvent::Unknown => Vec::new(),
        }
    }
}

/// The label of a state in notifications: `idle`, `pending`, `recording`,
/// `paused` or `processing`.
pub fn state_label(state: RuntimeState) -> (r: &'static str)
    ensures
        r@ == state_label_spec(state),
{
    match state {
        RuntimeState::Idle => "idle",
        RuntimeState::PressPending | RuntimeState::TapPending => "pending",
        RuntimeState::Recording => "recording",
        RuntimeState::Paused => "paused",
        RuntimeState::Processing => "processing",
    }
}

/// The state label that the overlay shows: a paused recording is still shown
/// as recording (with its pause flag).
pub fn overlay_state_label(state: RuntimeState) -> (r: &'static str)
    ensures
        r@ == (if state == RuntimeState::Paused {
            "recording"@
        } else {
            state_label_spec(state)
        }),
{
    if state == RuntimeState::Paused {
        "recording"
    } else {
        state_label(state)
    }
}

impl OnboardingStep {
    /// The identifier of the step.
    pub fn to_str(self) -> (r: &'static str)
        ensures
            r@ == onboarding_id_spec(self),
    {
        match self {
            OnboardingStep::TryIt => "tryIt",
            OnboardingStep::DoubleTapTip => "doubleTapTip",
            OnboardingStep::ClickTip => "clickTip",
            OnboardingStep::ApiTip => "apiTip",
            OnboardingStep::FormattingTip => "formattingTip",
            OnboardingStep::Welcome => "welcome",
        }
    }
}

/// The file name (without extension) of a sound.
pub fn sound_name(sound: Sound) -> (r: &'static str)
    ensures
        r@ == (match sound {
            Sound::StartPress => "Blow"@,
            Sound::HandsFree => "HandsFree"@,
            Sound::Next => "Pop"@,
            Sound::Skip => "Skip"@,
        }),
{
    match sound {
        Sound::StartPress => "Blow",
        Sound::HandsFree => "HandsFree",
        Sound::Next => "Pop",
        Sound::Skip => "Skip",
    }
}

/// The reason reported with a skipped attempt.
pub fn skip_reason_text(reason: SkipReason) -> (r: &'static str)
    ensures
        r@ == (match reason {
            SkipReason::QuickTap => "quick tap"@,
            SkipReason::TooShortOrQuiet => "too short / quiet"@,
            SkipReason::Silence => "silence"@,
            SkipReason::NoSpeech => "no speech"@,
            SkipReason::EmptyTranscription => "empty transcription"@,
        }),
{
    match reason {
        SkipReason::QuickTap => "quick tap",
        SkipReason::TooShortOrQuiet => "too short / quiet",
        SkipReason::Silence => "silence",
        SkipReason::NoSpeech => "no speech",
        SkipReason::EmptyTranscription => "empty transcription",
    }
}

/// The text the overlay shows for an onboarding step.
pub open spec fn onboarding_text_spec(step: OnboardingStep, hotkey_label: Seq<char>) -> Seq<char> {
    match step {
        OnboardingStep::TryIt => "Hold <span class=\"keycap\">"@ + hotkey_label
            + "</span> to start recording"@,
        OnboardingStep::DoubleTapTip => "Double-tap <span class=\"keycap\">"@ + hotkey_label
            + "</span> for hands-free recording"@,
        OnboardingStep::ClickTip => "Click the pill for hands-free recording"@,
        OnboardingStep::ApiTip => "Add an API key in the menu bar for better transcription"@,
        OnboardingStep::FormattingTip =>
            "Enable formatting in Settings to clean up grammar and punctuation automatically"@,
        OnboardingStep::Welcome => "You're all set - enjoy!"@,
    }
}

/// The text the overlay shows for an onboarding step, naming the hotkey.
pub fn onboarding_text(step: OnboardingStep, hotkey_label: &str) -> (r: String)
    ensures
        r@ == onboarding_text_spec(step, hotkey_label@),
{
    match step {
        OnboardingStep::TryIt => crate::text::concat3(
            "Hold <span class=\"keycap\">",
            hotkey_label,
            "</span> to start recording",
        ),
        OnboardingStep::DoubleTapTip => crate::text::concat3(
            "Double-tap <span class=\"keycap\">",
            hotkey_label,
            "</span> for hands-free recording",
        ),
        OnboardingStep::ClickTip => crate::text::owned("Click the pill for hands-free recording"),
        OnboardingStep::ApiTip => crate::text::owned(
            "Add an API key in the menu bar for better transcription",
        ),
        OnboardingStep::FormattingTip => crate::text::owned(
            "Enable formatting in Settings to clean up grammar and punctuation automatically",
        ),
        OnboardingStep::Welcome => crate::text::owned("You're all set - enjoy!"),
    }
}

/// The title, message, action label and visibility of a permission prompt.
pub fn permission_prompt_fields(p: &PermissionPrompt) -> (r: (String, String, String, bool))
    ensures
        p matches PermissionPrompt::Hidden ==> r.0@.len() == 0 && r.1@.len() == 0 && r.2@.len()
            == 0 && !r.3,
        p matches PermissionPrompt::RequiredFor(label) ==> r.0@ == "Accessibility Required"@
            && r.1@ == "Allow Accessibility access to use the "@ + label@ + " hotkey anywhere."@
            && r.2@ == "Open Settings"@ && r.3,
        p matches PermissionPrompt::Required ==> r.0@ == "Accessibility Required"@ && r.1@
            == "Allow Accessibility access to use the global hotkey anywhere."@ && r.2@
            == "Open Settings"@ && r.3,
{
    match p {
        PermissionPrompt::Hidden => (String::new(), String::new(), String::new(), false),
        PermissionPrompt::RequiredFor(label) => (
            crate::text::owned("Accessibility Required"),
            crate::text::concat3(
                "Allow Accessibility access to use the ",
                label.as_str(),
                " hotkey anywhere.",
            ),
            crate::text::owned("Open Settings"),
            true,
        ),
        PermissionPrompt::Required => (
            crate::text::owned("Accessibility Required"),
            crate::text::owned("Allow Accessibility access to use the global hotkey anywhere."),
            crate::text::owned("Open Settings"),
            true,
        ),
    }
}

/// Whether the runtime was started and not stopped since.
pub fn is_running(rt: &Runtime) -> (r: bool)
    ensures
        r == rt.running,
{
    rt.running
}

} // verus!
