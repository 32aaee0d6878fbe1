use yap_core::dictation::{Action, HistorySource, OnboardingStep, Runtime, RuntimeState, SkipReason, Sound};
use yap_core::pipeline::{after_formatting, after_transcription, classify_error, pipeline_preflight, PipelineStep};

fn started() -> Runtime {
    let mut rt = Runtime::new();
    rt.start(true);
    rt
}

#[test]
fn start_and_stop_toggle_running() {
    let mut rt = Runtime::new();
    assert!(!rt.is_running());
    let acts = rt.start(true);
    assert!(rt.is_running());
    assert!(yap_core::dictation::is_running(&rt));
    assert!(acts.contains(&Action::HotkeyStart));
    assert!(acts.contains(&Action::EmitRuntimeStarted));
    assert_eq!(rt.state, RuntimeState::Idle);
    let acts = rt.stop();
    assert!(!rt.is_running());
    assert_eq!(rt.state, RuntimeState::Idle);
    assert_eq!(acts.last(), Some(&Action::DetachHost));
}

#[test]
fn onboarding_starts_with_try_it() {
    let mut rt = Runtime::new();
    let acts = rt.start(false);
    assert_eq!(rt.onboarding, Some(OnboardingStep::TryIt));
    assert!(acts.contains(&Action::OverlayOnboarding(Some(OnboardingStep::TryIt))));
}

#[test]
fn press_hold_release_processes_recording() {
    let mut rt = started();
    let acts = rt.on_key_down(1_000);
    assert_eq!(rt.state, RuntimeState::PressPending);
    assert!(acts.contains(&Action::PlaySound(Sound::StartPress)));
    let g = rt.generation;
    assert!(acts.contains(&Action::ScheduleHoldDelay { generation: g }));
    let acts = rt.on_hold_delay_elapsed(g);
    assert!(acts.contains(&Action::StartRecording { hands_free: false, advance_to: None }));
    assert_eq!(rt.state, RuntimeState::PressPending);
    rt.on_recording_start_result(false, None, Ok(()), 2_000);
    assert_eq!(rt.state, RuntimeState::Recording);
    let acts = rt.on_key_up(5_000_000_000, false);
    assert_eq!(rt.state, RuntimeState::Processing);
    assert!(acts.contains(&Action::StopRecordingForProcessing));
}

#[test]
fn quick_tap_waits_for_double_tap() {
    let mut rt = started();
    rt.on_key_down(1_000);
    let g = rt.generation;
    let acts = rt.on_key_up(2_000, true);
    assert_eq!(rt.state, RuntimeState::TapPending);
    assert!(acts.contains(&Action::ScheduleTapGrace {
        generation: g,
        reason: SkipReason::QuickTap,
        play_skip_sound: true
    }));
}

#[test]
fn stale_hold_timer_is_ignored() {
    let mut rt = started();
    rt.on_key_down(1_000);
    let g = rt.generation;
    rt.on_key_up(2_000, true);
    let before = rt;
    let acts = rt.on_hold_delay_elapsed(g + 1);
    assert!(acts.is_empty());
    assert_eq!(rt, before);
}

#[test]
fn pipeline_steps_follow_the_configuration() {
    assert_eq!(pipeline_preflight(false, true, "").unwrap_err(), "Choose an API provider in Settings");
    assert_eq!(pipeline_preflight(true, false, "").unwrap_err(), "Set up an API key in Settings");
    assert!(pipeline_preflight(true, true, "").is_ok());
    match after_transcription(Err("boom".to_string()), false, false, "", "") {
        PipelineStep::Finished(Err(m)) => assert_eq!(m, "Transcription failed: boom"),
        _ => panic!("expected an error"),
    }
    match after_transcription(Ok(" hi ".to_string()), false, false, "", "key") {
        PipelineStep::Format { text, api_key } => {
            assert_eq!(text, "hi");
            assert_eq!(api_key, "key");
        }
        _ => panic!("expected formatting"),
    }
    match after_transcription(Ok(" hi ".to_string()), false, false, "", "") {
        PipelineStep::Finished(Err(m)) => assert_eq!(m, "Set up a formatting API key in Settings"),
        _ => panic!("expected an error"),
    }
    assert_eq!(after_formatting("hi".to_string(), Ok("Hi.".to_string())).unwrap(), "Hi.");
    assert_eq!(
        after_formatting("hi".to_string(), Err("x".to_string())).unwrap_err(),
        "Formatting failed: x"
    );
    let _ = classify_error("Rate limit exceeded (429)");
}

#[test]
fn overlay_events_are_dispatched() {
    use_overlay_events();
}

fn use_overlay_events() {
    assert_eq!(yap_core::dictation::overlay_event("ready"), yap_core::dictation::OverlayEvent::Ready);
    assert_eq!(yap_core::dictation::overlay_event("stopped"), yap_core::dictation::OverlayEvent::Unknown);
    let mut rt = started();
    let acts = rt.handle_overlay_event("ready", 5, true);
    assert_eq!(acts[0], Action::OverlayConfig);
    let acts = rt.handle_overlay_event("permission_action", 5, false);
    assert!(acts.is_empty());
    let acts = rt.handle_overlay_event("permission_action", 5, true);
    assert_eq!(acts, vec![Action::EmitPermissionRequested, Action::RequestAccessibilityPermission]);
    let before = rt;
    assert!(rt.handle_overlay_event("bogus", 5, true).is_empty());
    assert_eq!(rt, before);
}

#[test]
fn empty_text_is_no_regurgitation() {
    assert!(!yap_core::pipeline::is_prompt_regurgitation(""));
    assert!(yap_core::pipeline::is_prompt_regurgitation("Please TRANSCRIBE THIS AUDIO now"));
}

#[test]
fn history_entries_record_providers() {
    let mut rt = started();
    let source = HistorySource {
        tx_provider: "OpenAI".to_string(),
        formatting: Some(("Anthropic".to_string(), "Professional".to_string())),
    };
    let acts = rt.on_pipeline_result(Ok("  hello ".to_string()), true, &source);
    assert_eq!(
        acts[0],
        Action::AppendHistory {
            text: "hello".to_string(),
            tx_provider: "openai".to_string(),
            fmt_provider: Some("anthropic".to_string()),
            fmt_style: Some("professional".to_string()),
        }
    );
    assert_eq!(acts[1], Action::EmitHistoryChanged);
    assert_eq!(acts[2], Action::Paste("hello".to_string()));
    let plain = HistorySource { tx_provider: "Gemini".to_string(), formatting: None };
    let acts = rt.on_pipeline_result(Ok("hi".to_string()), true, &plain);
    assert_eq!(
        acts[0],
        Action::AppendHistory {
            text: "hi".to_string(),
            tx_provider: "gemini".to_string(),
            fmt_provider: None,
            fmt_style: None,
        }
    );
    let acts = rt.on_pipeline_result(Ok("hi".to_string()), false, &plain);
    assert_eq!(acts, vec![Action::Paste("hi".to_string())]);
}
