use yap_core::model_manager::{
    curated_models, format_size, installed_models, merge_installed, model_id_from_remote_file,
    model_name_from_file, prepare_download, safe_model_file_name, search_results,
    validate_download_url, with_install_state, CacheEntry, CacheListing, DownloadTracker,
    FileProbe, HfModel, HfSibling, JsonText, WhisperDownloadRequest, WhisperModelSource,
    MAX_MODEL_BYTES, RECOMMENDED_WHISPER_MODEL_ID,
};

#[test]
fn curated_list_contains_recommended_model() {
    let models = curated_models();
    let recommended = models
        .iter()
        .find(|model| model.id == RECOMMENDED_WHISPER_MODEL_ID)
        .expect("recommended model should be present");
    assert_eq!(recommended.file_name, "large-v3-turbo-q5_0.bin");
    assert!(recommended
        .url
        .as_deref()
        .unwrap_or_default()
        .contains("ggml-large-v3-turbo-q5_0.bin"));
}

#[test]
fn safe_delete_input_rejects_paths_outside_cache() {
    assert!(safe_model_file_name("../base.en.bin").is_err());
    assert!(safe_model_file_name("/tmp/base.en.bin").is_err());
    assert!(safe_model_file_name("base.en.txt").is_err());
    assert_eq!(safe_model_file_name("base.en.bin").unwrap(), "base.en.bin");
}

#[test]
fn download_url_must_match_safe_hugging_face_model_file() {
    assert!(validate_download_url(
        "https://huggingface.co/ggerganov/whisper.cpp/resolve/main/ggml-base.en.bin",
        "base.en.bin"
    )
    .is_ok());
    assert!(validate_download_url("https://example.com/ggml-base.en.bin", "base.en.bin").is_err());
    assert!(validate_download_url(
        "https://huggingface.co/ggerganov/whisper.cpp/resolve/main/ggml-small.en.bin",
        "base.en.bin"
    )
    .is_err());
    assert!(validate_download_url(
        "https://huggingface.co/ggerganov/whisper.cpp/blob/main/ggml-base.en.bin",
        "base.en.bin"
    )
    .is_err());
}

#[test]
fn download_url_allows_nested_hugging_face_model_paths() {
    assert!(validate_download_url(
        "https://huggingface.co/mychen76/whisper_cpp_models/resolve/main/ggml/ggml-base.en-q5_0.bin",
        "base.en-q5_0.bin"
    )
    .is_ok());
}

#[test]
fn remote_file_names_normalize_to_local_ids() {
    assert_eq!(model_id_from_remote_file("ggml-base.en.bin"), "base.en");
    assert_eq!(
        model_id_from_remote_file("nested/ggml-large-v3-turbo-q5_0.bin"),
        "large-v3-turbo-q5_0"
    );
}

#[test]
fn download_url_errors_name_the_failed_check() {
    assert_eq!(
        validate_download_url("not a url", "base.en.bin").unwrap_err(),
        "invalid model download URL: relative URL without a base"
    );
    assert_eq!(
        validate_download_url("http://huggingface.co/a/b/resolve/main/ggml-base.en.bin", "base.en.bin")
            .unwrap_err(),
        "model downloads must use a Hugging Face HTTPS URL"
    );
    assert_eq!(
        validate_download_url("https://huggingface.co/a/b/resolve/main/../ggml-base.en.bin", "base.en.bin")
            .unwrap_err(),
        "model download URL must resolve from the main branch"
    );
    assert_eq!(
        validate_download_url("https://huggingface.co/a/b/blob/main/ggml-base.en.bin", "base.en.bin")
            .unwrap_err(),
        "model download URL must be a Hugging Face resolve URL"
    );
    assert_eq!(
        validate_download_url("https://huggingface.co/a/resolve/main/ggml-base.en.bin", "base.en.bin")
            .unwrap_err(),
        "model download URL must resolve from the main branch"
    );
    assert_eq!(
        validate_download_url("https://huggingface.co/a/b/resolve/dev/ggml-base.en.bin", "base.en.bin")
            .unwrap_err(),
        "model download URL must resolve from the main branch"
    );
    assert_eq!(
        validate_download_url("https://huggingface.co/a/b/resolve/main", "base.en.bin").unwrap_err(),
        "model download URL is missing a model file"
    );
    assert_eq!(
        validate_download_url("https://huggingface.co/a/b/resolve/main//x.bin", "base.en.bin")
            .unwrap_err(),
        "model download URL contains an invalid path"
    );
    assert_eq!(
        validate_download_url(
            "https://huggingface.co/a/b/resolve/main/ggml-base.en-encoder.bin",
            "base.en-encoder.bin"
        )
        .unwrap_err(),
        "model download URL does not point to a compatible Whisper GGML .bin file"
    );
    assert_eq!(
        validate_download_url(
            "https://huggingface.co/a/b/resolve/main/ggml-tiny.bin",
            "base.en.bin"
        )
        .unwrap_err(),
        "model download URL does not match the requested model file"
    );
}

#[test]
fn format_size_matches_float_formatting() {
    let mut values: Vec<u64> = vec![
        0,
        1,
        1023,
        1024 * 1024,
        1024 * 1024 * 3 / 2,
        1024 * 1024 * 5 / 2,
        1024 * 1024 * 7 / 2,
        147_964_211,
        487_614_201,
        574_041_195,
        1_533_774_781,
        1024 * 1024 * 1024 - 1,
        1024 * 1024 * 1024,
        1024 * 1024 * 1024 + 1024 * 1024 * 1024 / 20,
        MAX_MODEL_BYTES,
        u64::MAX,
        u64::MAX - 1,
        (1u64 << 53) + 1,
    ];
    let mut x: u64 = 0x9e37_79b9_7f4a_7c15;
    for _ in 0..2000 {
        x = x.wrapping_mul(6364136223846793005).wrapping_add(1442695040888963407);
        values.push(x >> (x % 64));
    }
    for bytes in values {
        let mb = bytes as f64 / 1024.0 / 1024.0;
        let expected = if mb < 1024.0 {
            format!("{mb:.0} MB")
        } else {
            format!("{:.1} GB", mb / 1024.0)
        };
        assert_eq!(format_size(bytes), expected, "bytes = {bytes}");
    }
}

#[test]
fn format_size_labels_known_sizes() {
    assert_eq!(format_size(574_041_195), "547 MB");
    assert_eq!(format_size(1_533_774_781), "1.4 GB");
    assert_eq!(format_size(MAX_MODEL_BYTES), "4.0 GB");
    assert_eq!(format_size(0), "0 MB");
}

#[test]
fn model_names_are_capitalized_words_of_the_id() {
    assert_eq!(model_name_from_file("ggml-large-v3-turbo-q5_0.bin"), "Large V3 Turbo Q5_0");
    assert_eq!(model_name_from_file("nested/ggml-base.en.bin"), "Base En");
    assert_eq!(model_name_from_file("ggml-ébase.bin"), "Ébase");
}

fn sibling(name: &str, size: Option<u64>) -> HfSibling {
    HfSibling { rfilename: Some(name.to_string()), size }
}

#[test]
fn search_results_keep_compatible_sorted_unique_models() {
    let models = vec![
        HfModel {
            id: JsonText::Text("user/repo".to_string()),
            model_id: JsonText::Missing,
            siblings: Some(vec![
                sibling("ggml-small.en.bin", Some(1024 * 1024)),
                sibling("ggml-base.en.bin", None),
                sibling("ggml-base.en-encoder.bin", None),
                sibling("README.md", None),
                HfSibling { rfilename: None, size: None },
            ]),
        },
        HfModel {
            id: JsonText::Missing,
            model_id: JsonText::Text("other/repo".to_string()),
            siblings: Some(vec![sibling("ggml base.en.bin", None), sibling("ggml-base.en.bin", None)]),
        },
        HfModel { id: JsonText::Other, model_id: JsonText::Text("x/y".to_string()), siblings: None },
    ];
    let found = search_results(Some(models)).unwrap();
    let names: Vec<&str> = found.iter().map(|m| m.name.as_str()).collect();
    assert_eq!(names, vec!["Base En", "Small En"]);
    assert_eq!(found[0].url.as_deref(), Some("https://huggingface.co/user/repo/resolve/main/ggml-base.en.bin"));
    assert_eq!(found[0].source, WhisperModelSource::HuggingFace);
    assert_eq!(found[1].size_label.as_deref(), Some("1 MB"));
    assert!(!found[0].installed);
    assert_eq!(
        search_results(None).unwrap_err(),
        "Hugging Face search returned an unexpected response"
    );
}

#[test]
fn search_results_are_capped_at_twenty_five() {
    let siblings: Vec<HfSibling> = (0..40).map(|i| sibling(&format!("ggml-tiny-{i:02}.bin"), None)).collect();
    let models = vec![HfModel {
        id: JsonText::Text("r/r".to_string()),
        model_id: JsonText::Missing,
        siblings: Some(siblings),
    }];
    let found = search_results(Some(models)).unwrap();
    assert_eq!(found.len(), 25);
    assert_eq!(found[0].id, "tiny-00");
    assert_eq!(found[24].id, "tiny-24");
}

#[test]
fn install_state_comes_from_the_cache_file() {
    let model = curated_models().remove(1);
    let untouched = with_install_state(model.clone(), None);
    assert!(!untouched.installed);
    assert_eq!(untouched.size_bytes, Some(147_964_211));
    let installed = with_install_state(
        model.clone(),
        Some(FileProbe { path: "/c/base.en.bin".to_string(), len: Some(2 * 1024 * 1024) }),
    );
    assert!(installed.installed);
    assert_eq!(installed.path.as_deref(), Some("/c/base.en.bin"));
    assert_eq!(installed.size_bytes, Some(2 * 1024 * 1024));
    assert_eq!(installed.size_label.as_deref(), Some("2 MB"));
    let no_len = with_install_state(model, Some(FileProbe { path: "/c/x".to_string(), len: None }));
    assert!(no_len.installed);
    assert_eq!(no_len.size_bytes, Some(147_964_211));
}

fn entry(name: &str, is_file: bool, ext: Option<&str>) -> Result<CacheEntry, String> {
    Ok(CacheEntry {
        file_name: name.to_string(),
        path: format!("/cache/{name}"),
        is_file,
        extension: ext.map(|e| e.to_string()),
        len: Some(3),
    })
}

#[test]
fn installed_models_list_bin_files_sorted_by_name() {
    let listing = CacheListing::Entries(vec![
        entry("small.en.bin", true, Some("bin")),
        entry("notes.txt", true, Some("txt")),
        entry("dir.bin", false, Some("bin")),
        entry("base.en.bin.bin", true, Some("bin")),
    ]);
    let models = installed_models(listing).unwrap();
    assert_eq!(models.len(), 2);
    assert_eq!(models[0].id, "base.en");
    assert_eq!(models[0].name, "Base En");
    assert_eq!(models[1].file_name, "small.en.bin");
    assert_eq!(models[1].source, WhisperModelSource::Installed);
    assert!(installed_models(CacheListing::Missing).unwrap().is_empty());
    assert_eq!(
        installed_models(CacheListing::Unreadable("denied".to_string())).unwrap_err(),
        "failed to inspect Whisper cache: denied"
    );
    let listing = CacheListing::Entries(vec![
        entry("a.bin", true, Some("bin")),
        Err("first".to_string()),
        Err("second".to_string()),
    ]);
    assert_eq!(installed_models(listing).unwrap_err(), "failed to inspect Whisper model: first");
}

#[test]
fn merge_adds_only_unlisted_installed_models() {
    let curated = curated_models();
    let listing = CacheListing::Entries(vec![
        entry("base.en.bin", true, Some("bin")),
        entry("custom.bin", true, Some("bin")),
    ]);
    let installed = installed_models(listing).unwrap();
    let merged = merge_installed(curated, installed);
    let files: Vec<&str> = merged.iter().map(|m| m.file_name.as_str()).collect();
    assert_eq!(
        files,
        vec!["large-v3-turbo-q5_0.bin", "base.en.bin", "small.en.bin", "medium.en.bin", "custom.bin"]
    );
}

#[test]
fn download_tracker_enforces_size_and_completeness() {
    assert_eq!(
        DownloadTracker::start(None, None).unwrap_err(),
        "model download did not report a file size"
    );
    assert_eq!(
        DownloadTracker::start(Some(MAX_MODEL_BYTES + 1), Some(1)).unwrap_err(),
        "model is too large for Yap's managed cache limit of 4.0 GB"
    );
    let mut t = DownloadTracker::start(None, Some(10)).unwrap();
    assert_eq!(t.total, 10);
    assert!(t.add_chunk(4).is_ok());
    assert_eq!(
        t.finish().unwrap_err(),
        "model download was incomplete: expected 0 MB but received 0 MB"
    );
    assert!(t.add_chunk(6).is_ok());
    assert!(t.finish().is_ok());
    let mut big = DownloadTracker::start(Some(MAX_MODEL_BYTES), None).unwrap();
    assert!(big.add_chunk(MAX_MODEL_BYTES).is_ok());
    assert_eq!(
        big.add_chunk(1).unwrap_err(),
        "model exceeded Yap's managed cache limit of 4.0 GB"
    );
    assert!(yap_core::model_manager::check_expected_size(Some(MAX_MODEL_BYTES)).is_ok());
    assert!(yap_core::model_manager::check_expected_size(Some(MAX_MODEL_BYTES + 1)).is_err());
}

#[test]
fn prepare_download_checks_name_then_url() {
    let req = |url: &str, file: &str| WhisperDownloadRequest {
        id: "base.en".to_string(),
        url: url.to_string(),
        file_name: file.to_string(),
        expected_size: None,
    };
    let ok = prepare_download(&req(
        "https://huggingface.co/ggerganov/whisper.cpp/resolve/main/ggml-base.en.bin",
        " base.en.bin ",
    ))
    .unwrap();
    assert_eq!(ok.0, "base.en.bin");
    assert_eq!(ok.1, "https://huggingface.co/ggerganov/whisper.cpp/resolve/main/ggml-base.en.bin");
    assert_eq!(
        prepare_download(&req("https://huggingface.co/x", "../base.en.bin")).unwrap_err(),
        "invalid Whisper model file name"
    );
    assert_eq!(
        prepare_download(&req("https://example.com/ggml-base.en.bin", "base.en.bin")).unwrap_err(),
        "model downloads must use a Hugging Face HTTPS URL"
    );
    assert_eq!(
        yap_core::model_manager::download_temp_name("base.en.bin", 1234),
        ".base.en.bin.1234.download"
    );
}

#[test]
fn whisper_cache_uses_yap_whisper_folder() {
    let dir_text = |dir: Option<std::path::PathBuf>| dir.map(|dir| dir.display().to_string());
    let cache_dir = yap_core::model_manager::whisper_cache_dir(
        false,
        dir_text(dirs::cache_dir()),
        dir_text(dirs::data_dir()),
        dir_text(dirs::home_dir()),
        "/tmp".to_string(),
    );
    assert!(std::path::Path::new(&cache_dir).ends_with(std::path::Path::new("yap").join("whisper")));
}

#[test]
fn whisper_cache_falls_back_to_the_temporary_directory() {
    assert_eq!(yap_core::model_manager::whisper_cache_dir(false, None, None, Some("/home/u".to_string()), "/tmp".to_string()), "/home/u/.cache/yap/whisper");
    assert_eq!(yap_core::model_manager::whisper_cache_dir(false, Some("/c".to_string()), None, None, "/tmp".to_string()), "/tmp/.cache/yap/whisper");
    assert_eq!(yap_core::model_manager::whisper_cache_dir(true, None, Some("/d".to_string()), None, "/tmp".to_string()), "/d/yap/whisper");
    assert_eq!(yap_core::model_manager::whisper_cache_dir(true, Some("/c".to_string()), Some("/d".to_string()), None, "/tmp".to_string()), "/c/yap/whisper");
}
