use std::collections::HashMap;

use lingchat::local_tts::{
    archive_kind_of_mime, deberta_present, detect_archive_by_infer, direct_import_source, staged_import_source, download_temp_path, first_model_entry, install_plan, package_kind, InstallPlan, PackageKind, shared_asset_file_name, split_modelscope_dir, url_encode_path,
    LocalTtsPaths, LocalTtsSwitch, REQUIRED_ASSETS,
};
use lingchat::registry::{
    catalog, expected_extension, find, static_subdir_files, AssetEntry, AssetKind,
};

#[test]
fn url_encode_path_encodes_spaces_and_specials_only() {
    assert_eq!(
        url_encode_path("matcha_tts_zh_en_20251010/espeak-ng-data/voices/!v/Mr serious"),
        "matcha_tts_zh_en_20251010/espeak-ng-data/voices/%21v/Mr%20serious"
    );
    assert_eq!(url_encode_path("a#b?c&d+e  f"), "a%23b%3Fc%26d%2Be%20%20f");
    assert_eq!(url_encode_path("plain/model.onnx"), "plain/model.onnx");
}

#[test]
fn split_modelscope_dir_keeps_org_in_repo() {
    assert_eq!(
        split_modelscope_dir("gomodels/sherpa/matcha-icefall-zh-baker").unwrap(),
        ("gomodels/sherpa", "matcha-icefall-zh-baker")
    );
    assert_eq!(
        split_modelscope_dir("lingchat-research-studio/DeBERTa.onnx").unwrap(),
        ("lingchat-research-studio", "DeBERTa.onnx")
    );
    assert!(split_modelscope_dir("no-slash").is_err());
}

#[test]
fn local_tts_switch_can_be_changed_at_runtime() {
    let switch = LocalTtsSwitch::new(false);
    assert!(!switch.is_enabled());
    switch.set_enabled(true);
    assert!(switch.is_enabled());
    switch.set_enabled(false);
    assert!(!switch.is_enabled());
}

#[test]
fn shared_asset_download_uses_individual_canonical_file_names() {
    assert_eq!(shared_asset_file_name("deberta").unwrap(), "deberta.onnx");
    assert_eq!(shared_asset_file_name("deberta-tokenizer").unwrap(), "tokenizer.json");
    assert!(shared_asset_file_name("unknown").is_err());
}

#[test]
fn download_temp_path_preserves_catalog_extension() {
    let cache = "C:/tts-cache";
    let voice = find("ling-v2").unwrap();
    let style = find("ling-v2-style").unwrap();
    assert_eq!(download_temp_path(&voice, cache), "C:/tts-cache/ling-v2.download.onnx");
    assert_eq!(download_temp_path(&style, cache), "C:/tts-cache/ling-v2-style.download.json");
}

#[test]
fn required_assets_includes_deberta() {
    assert!(REQUIRED_ASSETS.contains(&"deberta"));
}

#[test]
fn voice_dir_nests_under_voices() {
    let p = LocalTtsPaths {
        root: "/tmp/x".to_string(),
        assets: "/tmp/x/assets".to_string(),
        voices: "/tmp/x/voices".to_string(),
        cache: "/tmp/y".to_string(),
    };
    assert_eq!(p.voice_dir("alice"), "/tmp/x/voices/alice");
}

#[test]
fn style_vectors_path_lies_in_the_voice_directory() {
    let p = LocalTtsPaths {
        root: "/tmp/x".to_string(),
        assets: "/tmp/x/assets".to_string(),
        voices: "/tmp/x/voices".to_string(),
        cache: "/tmp/y".to_string(),
    };
    assert_eq!(p.style_vectors_path("ling-v2"), "/tmp/x/voices/ling-v2/style_vectors.json");
    assert_eq!(p.deberta_dir(), "/tmp/x/assets/deberta");
    assert!(!p.asset_present("not-shared"));
}

#[test]
fn catalog_uses_modelscope_for_non_sherpa_models() {
    let c = catalog();
    for asset in &c {
        if asset.kind == AssetKind::SherpaOnnx {
            assert!(
                asset.modelscope_dir.is_some()
                    || asset.hf_files.len() > 0
                    || asset
                        .download_url
                        .starts_with("https://github.com/k2-fsa/sherpa-onnx/releases/download/"),
                "SherpaOnnx '{}' should have modelscope_dir, hf_files or a GitHub tar.bz2 download_url, got: {:?}",
                asset.id,
                asset.download_url
            );
            assert!(
                asset.github_fallback_url.is_some(),
                "SherpaOnnx '{}' should have github_fallback_url",
                asset.id
            );
            if !asset.hf_files.is_empty() {
                assert!(asset.hf_files.contains_key("model.onnx"));
            }
        } else {
            assert!(
                asset.download_url.starts_with("https://www.modelscope.cn/"),
                "Non-SherpaOnnx asset '{}' should use ModelScope, got: {}",
                asset.id,
                asset.download_url
            );
        }
    }
}

#[test]
fn find_returns_some_for_registered_ids() {
    assert!(find("ling-v2").is_some());
    assert!(find("ling-v2-style").is_some());
    assert!(find("sherpa-matcha-zh").is_some());
    assert!(find("sherpa-matcha-zh-en").is_some());
    assert!(find("sherpa-kokoro-multi-lang").is_some());
    assert!(find("sherpa-zipvoice-zh-en").is_some());
    assert!(find("tsukuyomi").is_none());
    assert!(find("nonexistent").is_none());
}

fn entry_with_url(url_suffix: &str) -> AssetEntry {
    AssetEntry {
        id: "tmp".into(),
        kind: AssetKind::Bert,
        display_name: "tmp".into(),
        language: "ja".into(),
        size_bytes: 0,
        download_url: format!("https://example.com/{url_suffix}"),
        source: "test".into(),
        voice_id: None,
        bundled_assets: vec![],
        sherpa_meta: None,
        hf_files: HashMap::new(),
        modelscope_dir: None,
        github_fallback_url: None,
    }
}

#[test]
fn expected_extension_handles_onnx_json_and_zip() {
    assert_eq!(expected_extension(&entry_with_url("a.onnx")), "onnx");
    assert_eq!(expected_extension(&entry_with_url("b.json")), "json");
    assert_eq!(expected_extension(&entry_with_url("c.zip")), "zip");
}

#[test]
fn expected_extension_falls_back_to_bin() {
    assert_eq!(expected_extension(&entry_with_url("weights")), "bin");
}

#[test]
fn deberta_and_ling_v2_have_bundled_companions() {
    let deberta = find("deberta").unwrap();
    assert_eq!(deberta.bundled_assets, vec!["deberta-tokenizer"]);
    let ling = find("ling-v2").unwrap();
    assert_eq!(ling.bundled_assets, vec!["ling-v2-style"]);
}

#[test]
fn sherpa_models_have_download_source_and_github_fallback() {
    let sherpa_ids = [
        "sherpa-matcha-zh",
        "sherpa-matcha-zh-en",
        "sherpa-kokoro-multi-lang",
        "sherpa-zipvoice-zh-en",
    ];
    for id in sherpa_ids {
        let entry = find(id).expect(id);
        let primary_source_ok = entry.modelscope_dir.is_some()
            || !entry.hf_files.is_empty()
            || entry
                .download_url
                .starts_with("https://github.com/k2-fsa/sherpa-onnx/releases/download/");
        assert!(primary_source_ok, "{id} needs modelscope_dir, hf_files or GitHub tar.bz2 download_url");
        assert!(entry.github_fallback_url.is_some(), "{id} should have github_fallback_url");
    }
}

#[test]
fn every_modelscope_dir_has_a_static_fallback_list() {
    let mut mapped = 0;
    for entry in catalog() {
        if entry.kind != AssetKind::SherpaOnnx || entry.modelscope_dir.is_none() {
            continue;
        }
        let files = static_subdir_files(&entry.id)
            .unwrap_or_else(|| panic!("{} has modelscope_dir but no static_subdir_files", entry.id));
        assert!(!files.is_empty(), "{} static list is empty", entry.id);
        for f in &files {
            assert!(!f.starts_with('/'), "{id}: absolute path in static list: {f}", id = entry.id);
            assert!(
                !f.split('/').any(|seg| seg == ".."),
                "{id}: path traversal in static list: {f}",
                id = entry.id
            );
        }
        mapped += 1;
    }
    assert_eq!(mapped, 4);
}

#[test]
fn archives_are_searched_for_their_first_model_file() {
    let names: Vec<String> = ["README.md", "voices/A.ONNX", "b.sbv2"].iter().map(|s| s.to_string()).collect();
    assert_eq!(first_model_entry(&names), Ok("voices/A.ONNX".to_string()));
    let none: Vec<String> = vec!["config.json".to_string(), "model.onnx.txt".to_string()];
    assert_eq!(first_model_entry(&none), Err("archive does not contain a .sbv2 or .onnx file".to_string()));
}

#[test]
fn packages_are_copied_or_unpacked_by_kind() {
    assert!(matches!(install_plan(PackageKind::RawSbv2, "/v/a"), Ok(InstallPlan::Copy(p)) if p == "/v/a/model.sbv2"));
    assert!(matches!(install_plan(PackageKind::RawOnnx, "/v/a"), Ok(InstallPlan::Copy(p)) if p == "/v/a/model.onnx"));
    assert!(matches!(install_plan(PackageKind::Zip, "/v/a"), Ok(InstallPlan::Extract)));
    assert!(matches!(install_plan(PackageKind::SevenZ, "/v/a"), Ok(InstallPlan::Extract)));
    assert!(matches!(install_plan(PackageKind::Unknown, "/v/a"), Err(e) if e == "unknown package format"));
}

#[test]
fn packages_are_told_apart_by_extension_then_content() {
    assert_eq!(archive_kind_of_mime(Some("application/zip")), PackageKind::Zip);
    assert_eq!(archive_kind_of_mime(Some("application/x-zip-compressed")), PackageKind::Zip);
    assert_eq!(archive_kind_of_mime(Some("application/x-7z-compressed")), PackageKind::SevenZ);
    assert_eq!(archive_kind_of_mime(Some("audio/mpeg")), PackageKind::Unknown);
    assert_eq!(archive_kind_of_mime(None), PackageKind::Unknown);
    let zip_header = [0x50u8, 0x4B, 0x03, 0x04, 0x14, 0x00, 0x00, 0x00];
    let seven_z_header = [0x37u8, 0x7A, 0xBC, 0xAF, 0x27, 0x1C, 0x00, 0x04];
    assert_eq!(package_kind("/d/voice.SBV2", &zip_header), PackageKind::RawSbv2);
    assert_eq!(package_kind("/d/voice.bin", &zip_header), PackageKind::Zip);
    assert_eq!(package_kind("/d/voice.bin", &seven_z_header), PackageKind::SevenZ);
    assert_eq!(package_kind("/d/voice", b"plain text"), PackageKind::Unknown);
    assert_eq!(detect_archive_by_infer(&zip_header), PackageKind::Zip);
    assert_eq!(detect_archive_by_infer(&[]), PackageKind::Unknown);
}

#[test]
fn picked_files_are_read_in_place_or_staged() {
    let s = direct_import_source("/home/u/voice.sbv2").expect("direct");
    assert_eq!(s.path, "/home/u/voice.sbv2");
    assert!(!s.cleanup_after_import);
    assert_eq!(s.display_name, "voice.sbv2");
    assert!(direct_import_source("content://media/42").is_none());

    let staged = staged_import_source("/cache/imports", "abc", "my:voice?.zip");
    assert_eq!(staged.path, "/cache/imports/tts_import_saf_abc_myvoice.zip");
    assert!(staged.cleanup_after_import);
    assert_eq!(staged.display_name, "my:voice?.zip");
    let blank = staged_import_source("/cache/imports", "abc", "");
    assert_eq!(blank.path, "/cache/imports/tts_import_saf_abc_import.bin");
    assert_eq!(blank.display_name, "import.bin");
}

#[test]
fn deberta_is_present_only_with_both_files() {
    let p = LocalTtsPaths {
        root: "/data/tts".to_string(),
        assets: "/data/tts/assets".to_string(),
        voices: "/data/tts/voices".to_string(),
        cache: "/cache".to_string(),
    };
    assert_eq!(
        p.deberta_files(),
        (
            "/data/tts/assets/deberta/deberta.onnx".to_string(),
            "/data/tts/assets/deberta/tokenizer.json".to_string()
        )
    );
    assert!(deberta_present(true, true));
    assert!(!deberta_present(true, false));
    assert!(!deberta_present(false, true));
    assert!(!p.asset_present("ling-v2"));
    assert!(!p.asset_present("deberta"));
}
