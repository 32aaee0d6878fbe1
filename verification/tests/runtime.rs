use yap_core::audio_ducking::{
    begin, default_output_device_result, device_mute_result, end, fourcc, session_key,
    set_mute_result, BackgroundAudioMode, MuteSession, PauseSession, Session,
};
use yap_core::commands;
use yap_core::model_manager::{CacheListing, FileProbe, WhisperModelSearchRequest};
use yap_core::sidecar::{sidecar_event, spawn_for_core, stop, SpawnDecision};
use yap_core::speech::{helper_outcome, transcribe, HelperOutput};
use yap_core::windows::{close_requested, is_app_window, no_window_visible, window_not_found, CloseDecision};

#[test]
fn ducking_session_is_opened_once_and_ended() {
    let mut active: Option<Session> = None;
    let opened = Session::Pause(PauseSession { toggled: true });
    assert!(begin(&mut active, BackgroundAudioMode::Pause, |_m| Ok(opened), |_s| Ok(())).is_ok());
    assert_eq!(active, Some(opened));
    let other = Session::Mute(MuteSession { device_id: 3, previous_muted: false, changed: true });
    assert!(begin(&mut active, BackgroundAudioMode::Mute, |_m| Ok(other), |_s| Ok(())).is_ok());
    assert_eq!(active, Some(opened));
    let r = begin(&mut active, BackgroundAudioMode::Off, |_m| Ok(other), |_s| Err("busy".to_string()));
    assert_eq!(r.unwrap_err(), "busy");
    assert_eq!(active, None);
    let r = begin(&mut active, BackgroundAudioMode::Mute, |_m| Err("no device".to_string()), |_s| Ok(()));
    assert_eq!(r.unwrap_err(), "no device");
    assert_eq!(active, None);
    assert!(end(&mut active, |_s| Err("unused".to_string())).is_ok());
}

#[test]
fn mute_session_restores_previous_state() {
    let s = MuteSession::begin(|| Ok(7), |_d| Ok(false), |_d, _m| Ok(())).unwrap();
    assert_eq!(s, MuteSession { device_id: 7, previous_muted: false, changed: true });
    let mut restored = None;
    let r = s.end(|d, m| {
        restored = Some((d, m));
        Ok(())
    });
    assert!(r.is_ok());
    assert_eq!(restored, Some((7, false)));
    let already = MuteSession::begin(|| Ok(7), |_d| Ok(true), |_d, _m| Err("not called".to_string())).unwrap();
    assert!(!already.changed);
    assert!(already.end(|_d, _m| Err("not called".to_string())).is_ok());
    assert_eq!(
        MuteSession::begin(|| Err("none".to_string()), |_d| Ok(true), |_d, _m| Ok(())).unwrap_err(),
        "none"
    );
    assert!(PauseSession { toggled: false }.end(|| Err("x".to_string())).is_ok());
    let mut presses = 0;
    let paused = PauseSession::begin(|| {
        presses += 1;
        Ok(())
    })
    .unwrap();
    assert!(paused.toggled);
    let session = Session::Pause(paused);
    assert_eq!(session.end(|_d, _m| Ok(()), || Err("resume failed".to_string())).unwrap_err(), "resume failed");
    assert_eq!(presses, 1);
}

#[test]
fn core_audio_answers_become_messages() {
    assert_eq!(default_output_device_result(0, 42).unwrap(), 42);
    assert_eq!(
        default_output_device_result(-50, 0).unwrap_err(),
        "failed to read default output device, OSStatus -50"
    );
    assert_eq!(default_output_device_result(0, 0).unwrap_err(), "default output device is unknown");
    assert_eq!(
        device_mute_result(9, false, 0, 1).unwrap_err(),
        "output device 9 does not expose a mute property"
    );
    assert_eq!(
        device_mute_result(9, true, 2003332927, 1).unwrap_err(),
        "failed to read output device 9 mute state, OSStatus 2003332927"
    );
    assert_eq!(device_mute_result(9, true, 0, 1).unwrap(), true);
    assert_eq!(
        set_mute_result(9, true, i32::MIN).unwrap_err(),
        "failed to set output device 9 mute state to true, OSStatus -2147483648"
    );
    assert!(set_mute_result(9, false, 0).is_ok());
    assert_eq!(fourcc(*b"mute"), 0x6d75_7465);
    assert_eq!(fourcc(*b"dOut"), 0x644f_7574);
    assert_eq!(session_key(Some("{abc}".to_string()), 2), "{abc}");
    assert_eq!(session_key(Some(String::new()), 2), "session-index:2");
    assert_eq!(session_key(None, -1), "session-index:-1");
}

#[test]
fn sidecar_events_and_launch() {
    assert_eq!(sidecar_event(r#"{"event":"stop"}"#).as_deref(), Some("stop"));
    assert_eq!(sidecar_event(r#"{"event":3}"#), None);
    assert_eq!(sidecar_event("not json"), None);
    assert_eq!(sidecar_event(""), None);
    assert_eq!(spawn_for_core(true, Some("b".to_string())), SpawnDecision::AlreadyRunning);
    assert_eq!(spawn_for_core(false, None), SpawnDecision::BinaryNotFound);
    assert_eq!(spawn_for_core(false, Some("b".to_string())), SpawnDecision::Launch("b".to_string()));
    let mut input = Some(5u8);
    stop(&mut input);
    assert_eq!(input, None);
}

#[test]
fn speech_helper_outcomes() {
    let out = |success: bool, stdout: &str, stderr: &str| HelperOutput {
        success,
        status: "exit status: 2".to_string(),
        stdout: stdout.to_string(),
        stderr: stderr.to_string(),
    };
    assert_eq!(helper_outcome(out(true, " hello \n", "warn")).unwrap(), "hello");
    assert_eq!(helper_outcome(out(false, "x", " denied ")).unwrap_err(), "denied");
    assert_eq!(
        helper_outcome(out(false, "x", "  ")).unwrap_err(),
        "SpeechAnalyzer helper failed with status exit status: 2"
    );
    assert_eq!(
        transcribe(false, None, |_h| Ok(out(true, "x", ""))).unwrap_err(),
        "On-device speech recognition is only available on macOS 26 or newer"
    );
    assert_eq!(
        transcribe(true, None, |_h| Ok(out(true, "x", ""))).unwrap_err(),
        "SpeechAnalyzer helper not found. Rebuild the macOS sidecar with `pnpm run electron:build-sidecar`."
    );
    assert_eq!(
        transcribe(true, Some("h".to_string()), |_h| Err("no such file".to_string())).unwrap_err(),
        "failed to run SpeechAnalyzer helper: no such file"
    );
    assert_eq!(transcribe(true, Some("h".to_string()), |_h| Ok(out(true, " hi ", ""))).unwrap(), "hi");
}

#[test]
fn app_windows_hide_on_close() {
    assert!(is_app_window("settings"));
    assert!(!is_app_window("overlay"));
    assert_eq!(close_requested("settings"), CloseDecision::Hide);
    assert_eq!(close_requested("main"), CloseDecision::Close);
    assert_eq!(window_not_found("x"), "window not found: x");
    assert!(no_window_visible(&vec![false, false]));
    assert!(!no_window_visible(&vec![false, true]));
}

#[test]
fn model_commands_compose_their_steps() {
    let probe = |f: String| {
        if f == "base.en.bin" {
            Some(FileProbe { path: format!("/c/{f}"), len: Some(5) })
        } else {
            None
        }
    };
    let list = commands::list_whisper_models("/c".to_string(), Ok(()), probe, || CacheListing::Missing).unwrap();
    assert_eq!(list.cache_dir, "/c");
    assert_eq!(list.recommended_id, "large-v3-turbo-q5_0");
    assert_eq!(list.models.len(), 4);
    assert!(list.models[1].installed);
    assert_eq!(list.models[1].size_bytes, Some(5));
    assert_eq!(
        commands::list_whisper_models("/c".to_string(), Err("ro".to_string()), probe, || CacheListing::Missing)
            .unwrap_err(),
        "failed to create Whisper cache: ro"
    );
    let two_bytes = commands::search_whisper_models(
        WhisperModelSearchRequest { query: " é ".to_string() },
        |t| {
            assert_eq!(t, "whisper.cpp é");
            Ok(None)
        },
        probe,
    );
    assert_eq!(two_bytes.unwrap_err(), "Hugging Face search returned an unexpected response");
    let one_byte = commands::search_whisper_models(
        WhisperModelSearchRequest { query: " a ".to_string() },
        |_t| panic!("no search for a short query"),
        probe,
    );
    assert!(one_byte.unwrap().is_empty());
    let failed = commands::search_whisper_models(
        WhisperModelSearchRequest { query: " base ".to_string() },
        |t| Err(format!("searched {t}")),
        probe,
    );
    assert_eq!(failed.unwrap_err(), "searched whisper.cpp base");
    assert_eq!(
        commands::delete_whisper_model("../x.bin", |_n| Ok(())).unwrap_err(),
        "invalid Whisper model file name"
    );
    assert_eq!(
        commands::delete_whisper_model(" x.bin ", |n| Err(format!("{n} busy"))).unwrap_err(),
        "failed to delete Whisper model: x.bin busy"
    );
    assert!(commands::reveal_whisper_models(Ok(()), || Ok(true)).is_ok());
    assert_eq!(
        commands::reveal_whisper_models(Ok(()), || Ok(false)).unwrap_err(),
        "failed to reveal Whisper model folder"
    );
    assert_eq!(
        commands::reveal_whisper_models(Ok(()), || Err("gone".to_string())).unwrap_err(),
        "failed to reveal Whisper model folder: gone"
    );
    assert_eq!(yap_core::model_manager::folder_opener("macos"), "open");
    assert_eq!(yap_core::model_manager::folder_opener("windows"), "explorer");
    assert_eq!(yap_core::model_manager::folder_opener("linux"), "xdg-open");
}

#[test]
fn helper_binaries_are_looked_for_in_order() {
    let c = yap_core::sidecar::sidecar_candidates("/m", Some("/e".to_string()), true);
    assert_eq!(
        c,
        vec![
            "/m/sidecar-overlay/.build/debug/yap-overlay".to_string(),
            "/m/sidecar-overlay/.build/release/yap-overlay".to_string(),
            "/m/binaries/yap-overlay-aarch64-apple-darwin".to_string(),
            "/e/yap-overlay".to_string(),
            "/e/yap-overlay-aarch64-apple-darwin".to_string(),
        ]
    );
    assert_eq!(yap_core::sidecar::sidecar_candidates("/m", None, false).len(), 3);
    let s = yap_core::speech::speech_helper_candidates("/a/b/c", Some("/a".to_string()), false);
    assert_eq!(
        s,
        vec![
            "/a/b/c/yap-speech-x86_64-apple-darwin".to_string(),
            "/a/binaries/yap-speech-x86_64-apple-darwin".to_string(),
        ]
    );
}
