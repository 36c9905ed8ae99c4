use lingchat::engine::{
    bundled_stamp_name, engine_requirements, fnv1a_update, missing_report, EngineConfigFields, RequirementKind,
    FNV_OFFSET_BASIS,
};
use lingchat::local_tts::LocalTtsPaths;
use lingchat::pet::{centred_position, normal_size, HitTestPoll};
use lingchat::registry::find;
use lingchat::tts_download::{
    both_sources_failed, download_list, download_report, download_route, downloaded_result, modelscope_blob_paths, DownloadRoute,
};

fn paths() -> LocalTtsPaths {
    LocalTtsPaths {
        root: "/d/models/tts-local".to_string(),
        assets: "/d/models/tts-local/assets".to_string(),
        voices: "/d/models/tts-local/voices".to_string(),
        cache: "/c".to_string(),
    }
}

#[test]
fn downloads_bring_bundled_assets_along() {
    let list = download_list("deberta").unwrap();
    let ids: Vec<&str> = list.iter().map(|e| e.id.as_str()).collect();
    assert_eq!(ids, vec!["deberta", "deberta-tokenizer"]);
    let list = download_list("ling-v2").unwrap();
    let ids: Vec<&str> = list.iter().map(|e| e.id.as_str()).collect();
    assert_eq!(ids, vec!["ling-v2", "ling-v2-style"]);
    assert_eq!(download_list("nope").unwrap_err(), "asset nope not in catalog");
}

#[test]
fn routes_follow_the_asset_kind() {
    match download_route(&find("deberta-tokenizer").unwrap(), &paths(), "/d/sherpa").unwrap() {
        DownloadRoute::SharedFile { target } => assert_eq!(target, "/d/models/tts-local/assets/deberta/tokenizer.json"),
        other => panic!("{other:?}"),
    }
    match download_route(&find("ling-v2").unwrap(), &paths(), "/d/sherpa").unwrap() {
        DownloadRoute::VoicePackage { temp } => assert_eq!(temp, "/c/ling-v2.download.onnx"),
        other => panic!("{other:?}"),
    }
    match download_route(&find("ling-v2-style").unwrap(), &paths(), "/d/sherpa").unwrap() {
        DownloadRoute::StyleVectors { voice_id, temp } => {
            assert_eq!(voice_id, "ling-v2");
            assert_eq!(temp, "/c/ling-v2-style.download.json");
        },
        other => panic!("{other:?}"),
    }
    match download_route(&find("sherpa-matcha-zh").unwrap(), &paths(), "/d/sherpa").unwrap() {
        DownloadRoute::SherpaMirrorDir { dest, .. } => assert_eq!(dest, "/d/sherpa/sherpa-matcha-zh"),
        other => panic!("{other:?}"),
    }
}

#[test]
fn style_vectors_need_a_voice() {
    let mut style = find("ling-v2-style").unwrap();
    style.voice_id = None;
    assert_eq!(
        download_route(&style, &paths(), "/d/sherpa").unwrap_err(),
        "style_vectors asset ling-v2-style missing voice_id"
    );
}

#[test]
fn download_reports() {
    let voice = find("ling-v2").unwrap();
    let r = downloaded_result(&voice, None, "/v".into(), 3);
    assert_eq!(r.voice_id.as_deref(), Some("ling-v2"));
    assert_eq!(r.message, "voice downloaded");
    let bert = find("deberta").unwrap();
    assert_eq!(downloaded_result(&bert, None, "/x".into(), 1).message, "deberta downloaded");
    assert_eq!(
        both_sources_failed(true, "a", "b"),
        "ModelScope failed: a; GitHub fallback also failed: b"
    );
    assert_eq!(both_sources_failed(false, "a", "b"), "HF failed: a; GitHub fallback also failed: b");
}

#[test]
fn engine_requirements_list_runtime_config_and_cache() {
    let reqs = engine_requirements("/rt", "/data", &None);
    assert_eq!(reqs.len(), 10);
    assert_eq!(reqs[0].text, "/rt/python310.dll");
    assert_eq!(reqs[3].kind, RequirementKind::Dir);
    assert_eq!(reqs[3].text, "/rt/Lib/site-packages/torch/lib");
    assert_eq!(reqs[4].text, "/data/checkpoints/config.yaml");
    assert_eq!(reqs[9].text, "/data/checkpoints/hf_cache/w2v-bert-2.0");

    let invalid = engine_requirements("/rt", "/data", &Some(None));
    assert_eq!(invalid[5].kind, RequirementKind::Missing);
    assert_eq!(invalid[5].text, "/data/checkpoints/config.yaml 不是有效 YAML");

    let fields = EngineConfigFields {
        gpt_checkpoint: Some(" gpt.pth ".into()),
        w2v_stat: None,
        s2mel_checkpoint: Some("s2mel.pth".into()),
        emo_matrix: Some("emo.pt".into()),
        spk_matrix: Some("spk.pt".into()),
        bpe_model: Some("bpe.model".into()),
        qwen_emo_path: Some("qwen".into()),
    };
    let full = engine_requirements("/rt", "/data", &Some(Some(fields)));
    assert_eq!(full.len(), 17);
    assert_eq!(full[5].text, "/data/checkpoints/gpt.pth");
    assert_eq!(full[6].text, "/data/checkpoints/config.yaml 中缺少字段 w2v_stat");
    assert_eq!(full[11].kind, RequirementKind::Dir);
}

#[test]
fn missing_resources_are_counted_and_listed() {
    assert!(missing_report(&[]).is_ok());
    assert_eq!(
        missing_report(&["a".to_string(), "b".to_string()]).unwrap_err(),
        "内置 IndexTTS2 资源不完整，共缺失 2 项:\na\nb"
    );
}

#[test]
fn click_through_follows_the_cursor() {
    let mut poll = HitTestPoll::new();
    let a = poll.step(true, Some(false));
    assert_eq!(a.set_ignore, Some(true));
    assert!(poll.was_ignored);
    assert_eq!(poll.step(true, Some(false)).set_ignore, None);
    assert_eq!(poll.step(true, Some(true)).set_ignore, Some(false));
    assert_eq!(poll.step(true, None).set_ignore, None);
    poll.step(true, Some(false));
    assert_eq!(poll.step(false, Some(false)).set_ignore, Some(false));
    assert!(!poll.was_ignored);
    let mut raised = 0;
    let mut p = HitTestPoll::new();
    for _ in 0..80 {
        if p.step(true, None).raise_bubble {
            raised += 1;
        }
    }
    assert_eq!(raised, 2);
}

fn listing(kind: Option<&str>, path: Option<&str>) -> (Option<String>, Option<String>) {
    (kind.map(|k| k.to_string()), path.map(|p| p.to_string()))
}

#[test]
fn repository_listing_keeps_files_below_the_model_folder() {
    let items = vec![
        listing(Some("blob"), Some("model/dict/user.dict.utf8")),
        listing(Some("tree"), Some("model/dict")),
        listing(Some("blob"), Some("model/")),
        listing(Some("blob"), Some("other/a.onnx")),
        listing(None, Some("model/b.onnx")),
        listing(Some("blob"), None),
        listing(Some("blob"), Some("model/espeak-ng-data/voices/!v/Mr serious")),
    ];
    assert_eq!(
        modelscope_blob_paths(&items, "model/"),
        vec!["model/dict/user.dict.utf8".to_string(), "model/espeak-ng-data/voices/!v/Mr serious".to_string()]
    );
    assert!(modelscope_blob_paths(&[], "model/").is_empty());
}

#[test]
fn engine_version_stamp_is_the_fnv1a_hash_in_hex() {
    assert_eq!(fnv1a_update(FNV_OFFSET_BASIS, b""), 0xcbf29ce484222325);
    assert_eq!(fnv1a_update(FNV_OFFSET_BASIS, b"a"), 0xaf63dc4c8601ec8c);
    assert_eq!(fnv1a_update(FNV_OFFSET_BASIS, b"foobar"), 0x85944171f73967e8);
    // Hashing in two parts is hashing the whole.
    assert_eq!(fnv1a_update(fnv1a_update(FNV_OFFSET_BASIS, b"foo"), b"bar"), 0x85944171f73967e8);
    assert_eq!(bundled_stamp_name(0xcbf29ce484222325), ".bundled-cbf29ce484222325");
    assert_eq!(bundled_stamp_name(255), ".bundled-00000000000000ff");
    assert_eq!(bundled_stamp_name(u64::MAX), ".bundled-ffffffffffffffff");
}

#[test]
fn main_window_returns_to_a_centred_normal_size() {
    assert_eq!(normal_size(1920, 1040), (1500, 800));
    assert_eq!(normal_size(1280, 720), (1280, 720));
    assert_eq!(centred_position(0, 0, 1920, 1040, 1500, 800), (210, 120));
    assert_eq!(centred_position(-1920, 40, 1920, 1040, 1501, 801), (-1920 + 209, 40 + 119));
    assert_eq!(centred_position(10, 20, 800, 600, 1000, 700), (10, 20));
}

#[test]
fn local_speech_layout_under_data_and_cache_folders() {
    let p = LocalTtsPaths::from_dirs("/data/app", "/cache/app");
    assert_eq!(p.root, "/data/app/models/tts-local");
    assert_eq!(p.assets, "/data/app/models/tts-local/assets");
    assert_eq!(p.voices, "/data/app/models/tts-local/voices");
    assert_eq!(p.cache, "/cache/app/tts-local-cache");
    assert_eq!(p.deberta_dir(), "/data/app/models/tts-local/assets/deberta");
    assert_eq!(LocalTtsPaths::primary_model_path("/v/alice", true), "/v/alice/model.sbv2");
    assert_eq!(LocalTtsPaths::primary_model_path("/v/alice", false), "/v/alice/model.onnx");
}

#[test]
fn download_reports_follow_the_route() {
    let p = paths();
    for (id, expected, voice) in [
        ("deberta-tokenizer", "/d/models/tts-local/assets/deberta/tokenizer.json", None),
        ("ling-v2-style", "/d/models/tts-local/voices/ling-v2/style_vectors.json", Some("ling-v2")),
        ("sherpa-matcha-zh", "/d/sherpa/sherpa-matcha-zh", None),
        ("ling-v2", "/d/models/tts-local/voices/ling-v2/model.onnx", Some("ling-v2")),
    ] {
        let entry = find(id).unwrap();
        let route = download_route(&entry, &p, "/d/sherpa").unwrap();
        let r = download_report(&entry, &route, &p, "/d/models/tts-local/voices/ling-v2/model.onnx".to_string(), 9);
        assert_eq!(r.path, expected);
        assert_eq!(r.voice_id.as_deref(), voice);
        assert_eq!(r.asset_id, id);
        assert_eq!(r.bytes, 9);
    }
}
