use std::path::Path;

use yap_core::local_whisper::{
    expand_home, looks_like_identifier, model_candidates, normalize_language, resolve_model_path,
    transcribe, ModelDirs,
};

fn standard_dirs() -> ModelDirs {
    let home = dirs::home_dir().unwrap_or_else(|| std::path::PathBuf::from("/tmp"));
    ModelDirs {
        config_dir: None,
        whisper_cache_dir: home.join(".cache").join("yap").join("whisper").to_string_lossy().into_owned(),
    }
}

#[test]
fn normalizes_bcp47_language_to_primary_code() {
    assert_eq!(normalize_language("en-US").as_deref(), Some("en"));
    assert_eq!(normalize_language("JA_jp").as_deref(), Some("ja"));
    assert_eq!(normalize_language("").as_deref(), None);
    assert_eq!(normalize_language("auto").as_deref(), None);
}

#[test]
fn normalize_language_edge_cases() {
    assert_eq!(normalize_language("  AUTO ").as_deref(), None);
    assert_eq!(normalize_language("-US").as_deref(), None);
    assert_eq!(normalize_language(" De ").as_deref(), Some("de"));
    assert_eq!(normalize_language("autos").as_deref(), Some("autos"));
}

#[test]
fn expands_short_model_identifier_to_standard_model_dirs() {
    let candidates = model_candidates("base.en", &standard_dirs());
    assert!(candidates.iter().any(|path| Path::new(path).ends_with("base.en")));
    assert!(candidates
        .iter()
        .any(|path| Path::new(path).ends_with("whisper/base.en.bin")));
}

#[test]
fn includes_platform_cache_fallback_for_existing_models() {
    let candidates = model_candidates("base.en", &standard_dirs());
    if let Some(cache_dir) = dirs::cache_dir() {
        let legacy_path = cache_dir.join("yap").join("whisper").join("base.en.bin");
        assert!(candidates.iter().any(|path| Path::new(path) == legacy_path));
    }
}

#[test]
fn paths_are_not_expanded_to_model_dirs() {
    let candidates = model_candidates("/models/ggml-base.bin", &standard_dirs());
    assert_eq!(candidates, vec!["/models/ggml-base.bin".to_string()]);
    assert!(!looks_like_identifier("./base.en"));
    assert!(!looks_like_identifier("~/base.en"));
    assert!(!looks_like_identifier("a\\b"));
    assert!(looks_like_identifier("base.en"));
}

#[test]
fn config_dir_adds_two_candidates() {
    let dirs = ModelDirs {
        config_dir: Some("/cfg/yap".to_string()),
        whisper_cache_dir: "/cache/yap/whisper".to_string(),
    };
    let candidates = model_candidates("tiny.bin", &dirs);
    assert!(candidates.contains(&"/cfg/yap/whisper/tiny.bin".to_string()));
    assert!(candidates.contains(&"/cfg/yap/models/whisper/tiny.bin".to_string()));
    assert!(candidates.contains(&"/cache/yap/whisper/tiny.bin".to_string()));
    assert!(candidates.contains(&"tiny.bin".to_string()));
    let mut sorted = candidates.clone();
    sorted.sort_by(|a, b| Path::new(a).cmp(Path::new(b)));
    assert_eq!(candidates, sorted);
}

#[test]
fn home_is_expanded() {
    assert_eq!(expand_home("~", Some("/home/u".to_string())), "/home/u");
    assert_eq!(expand_home("~", None), "~");
    assert_eq!(expand_home("~/m.bin", Some("/home/u".to_string())), "/home/u/m.bin");
    assert_eq!(expand_home("~/m.bin", None), "~/m.bin");
    assert_eq!(expand_home("~x/m.bin", Some("/home/u".to_string())), "~x/m.bin");
}

#[test]
fn resolve_finds_first_existing_candidate() {
    let dirs = ModelDirs { config_dir: None, whisper_cache_dir: "/cache/w".to_string() };
    assert_eq!(
        resolve_model_path("   ", &dirs, &|_p: String| true).unwrap_err(),
        "Local Whisper needs a whisper.cpp GGML .bin model path in Settings."
    );
    let found = resolve_model_path(" base.en ", &dirs, &|p: String| p == "/cache/w/base.en.bin").unwrap();
    assert_eq!(found, "/cache/w/base.en.bin");
    let err = resolve_model_path("/nowhere/x.bin", &dirs, &|_p: String| false).unwrap_err();
    assert_eq!(
        err,
        "Local Whisper model not found. Set the Model path to an existing whisper.cpp GGML .bin file. Searched:\n  - /nowhere/x.bin"
    );
}

#[test]
fn transcription_reports_resolution_then_missing_engine() {
    let dirs = ModelDirs { config_dir: None, whisper_cache_dir: "/cache/w".to_string() };
    assert_eq!(
        transcribe("a.wav", "", Some("en"), &dirs, &|_p: String| true).unwrap_err(),
        "Local Whisper needs a whisper.cpp GGML .bin model path in Settings."
    );
    assert_eq!(
        transcribe("a.wav", "/m.bin", None, &dirs, &|_p: String| true).unwrap_err(),
        "Local Whisper is not enabled in this build. Rebuild yap-core with the `local-whisper-native` Cargo feature and ensure cmake is installed."
    );
}

#[test]
fn repeated_candidates_are_listed_once() {
    let Some(cache_dir) = dirs::cache_dir() else {
        return;
    };
    let whisper_cache = cache_dir.join("yap").join("whisper");
    let dirs = ModelDirs {
        config_dir: None,
        whisper_cache_dir: whisper_cache.to_string_lossy().into_owned(),
    };
    let candidates = model_candidates("base.en", &dirs);
    let expected = whisper_cache.join("base.en.bin");
    assert_eq!(candidates.iter().filter(|path| Path::new(path) == expected).count(), 1);
}

#[test]
fn canonical_candidates_are_all_listed_in_path_order() {
    let dirs = ModelDirs {
        config_dir: Some("/cfg".to_string()),
        whisper_cache_dir: "/c/w".to_string(),
    };
    let candidates = yap_core::local_whisper::model_candidates_in(
        "base.en",
        &dirs,
        Some("/h".to_string()),
        Some("/p".to_string()),
    );
    assert_eq!(
        candidates,
        vec![
            "/c/w/base.en.bin".to_string(),
            "/cfg/models/whisper/base.en.bin".to_string(),
            "/cfg/whisper/base.en.bin".to_string(),
            "/h/.cache/yap/whisper/base.en.bin".to_string(),
            "/p/yap/whisper/base.en.bin".to_string(),
            "base.en".to_string(),
        ]
    );
    let same_cache = ModelDirs { config_dir: None, whisper_cache_dir: "/p/yap/whisper".to_string() };
    let candidates = yap_core::local_whisper::model_candidates_in("tiny", &same_cache, None, Some("/p".to_string()));
    assert_eq!(candidates, vec!["/p/yap/whisper/tiny.bin".to_string(), "tiny".to_string()]);
}

#[test]
fn candidates_equal_as_paths_are_listed_once() {
    let dirs = ModelDirs { config_dir: None, whisper_cache_dir: "/p//yap/./whisper".to_string() };
    let candidates = yap_core::local_whisper::model_candidates_in("tiny", &dirs, None, Some("/p".to_string()));
    assert_eq!(candidates.len(), 2);
    assert!(Path::new(&candidates[0]) == Path::new("/p/yap/whisper/tiny.bin"));
    assert_eq!(candidates[1], "tiny");
}
