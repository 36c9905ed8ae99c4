use lingchat::affection::{AffectionVector, NegativeVector};
use lingchat::autostart::{
    boot_after_launch, boot_after_probe, boot_after_wait, boot_start, is_autostart_launch,
    resolve_probe_url, stored_bool, stored_string, BootAction, StoredValue, TtsServiceUrls,
};
use lingchat::codex::{auth_status, poll_status, CodexCredential, PollOutcome};
use lingchat::dlc::{detect_script_root, dlc_folder_name, entry_target, sort_dlcs, DlcInfo};
use lingchat::emotion::{build_plan, label_prompt, sanitize_label, EmotionPlan};
use lingchat::lighting::{
    reported_preset, requested_override, resolve_request, ApplyLightingRequest, LightingOverride,
    ReportLightingActiveRequest,
};
use lingchat::market::{
    after_install, cache_zip_name, check_sha256, download_sources, meta_urls, package_meta,
    registry_dir_of_path, release_download_url, removal_of, AfterInstall, BuildFields,
    InstalledRecord, ManifestFields, Removal,
};
use lingchat::market::{collect_packages, registry_dirs, sorted_unique};
use lingchat::memory::{debug_role, inspected_role_ids, runtime_note};
use lingchat::identity::identity_name;
use lingchat::tools::{platform_name, runtime_info, sort_names, TargetOs};
use lingchat::script::{is_protected_script, path_key, script_start_check, summary_of, ScriptStatus};

fn strings(v: &[&str]) -> Vec<String> {
    v.iter().map(|s| s.to_string()).collect()
}

#[test]
fn qwen_and_auto_cache_keys_are_stable() {
    assert_eq!(
        build_plan("qwen", "哭泣", "文本"),
        EmotionPlan::Analyze {
            cache_key: "label:委屈地哭着，带着哭腔".into(),
            prompt: "委屈地哭着，带着哭腔".into(),
        }
    );
    assert_eq!(
        build_plan("auto", "", "  hello  "),
        EmotionPlan::Analyze { cache_key: "auto:hello".into(), prompt: "hello".into() }
    );
}

#[test]
fn blend_plans_name_the_cleaned_tag() {
    assert_eq!(build_plan(" BLEND ", "【生气】", "测试"), EmotionPlan::Blend("生气".into()));
    assert_eq!(build_plan("blend", "[未知]", "x"), EmotionPlan::FollowReference);
    assert_eq!(build_plan("blend", "  ", "x"), EmotionPlan::FollowReference);
    assert_eq!(build_plan("qwen", "", "x"), EmotionPlan::FollowReference);
    assert_eq!(build_plan("auto", "高兴", "   "), EmotionPlan::FollowReference);
    assert_eq!(build_plan("other", "高兴", "x"), EmotionPlan::FollowReference);
}

#[test]
fn labels_are_cleaned_and_described() {
    assert_eq!(sanitize_label(" 【难 过】 "), "难过");
    assert_eq!(label_prompt("平静"), "平静自然，语气舒缓");
    assert_eq!(label_prompt("期待"), "期待");
}

#[test]
fn script_root_is_found_at_the_top_or_one_level_down() {
    assert_eq!(detect_script_root(&strings(&["story_config.yaml", "a/b.txt"])).unwrap(), "");
    assert_eq!(
        detect_script_root(&strings(&["pack/story_config.yaml", "pack/ch1.yaml"])).unwrap(),
        "pack/"
    );
    assert_eq!(
        detect_script_root(&strings(&["readme.txt"])).unwrap_err(),
        "DLC 包里找不到 story_config.yaml，不是有效的剧本包"
    );
    assert_eq!(
        detect_script_root(&strings(&["a/story_config.yaml", "b/story_config.yaml"])).unwrap_err(),
        "DLC 包里有多个 story_config.yaml，无法识别主剧本"
    );
    assert!(detect_script_root(&strings(&["a/b/story_config.yaml"])).is_err());
    assert!(detect_script_root(&strings(&["pack/xstory_config.yaml"])).is_err());
    assert!(detect_script_root(&strings(&["/story_config.yaml"])).is_err());
}

#[test]
fn dlc_folders_and_entries() {
    assert_eq!(dlc_folder_name("", "/downloads/horror.zip"), "horror");
    assert_eq!(dlc_folder_name("pack/", "/downloads/horror.zip"), "pack");
    assert_eq!(entry_target("pack/ch1.yaml", "pack/"), Some("ch1.yaml".to_string()));
    assert_eq!(entry_target("pack/", "pack/"), None);
    assert_eq!(entry_target("other/x", "pack/"), None);
    assert_eq!(entry_target("x", ""), Some("x".to_string()));
}

#[test]
fn registry_dirs_come_from_manifest_paths() {
    assert_eq!(registry_dir_of_path("registry/foo/manifest.toml"), Some("foo".to_string()));
    assert_eq!(registry_dir_of_path("registry/foo/build.json"), None);
    assert_eq!(registry_dir_of_path("other/foo/manifest.toml"), None);
    assert_eq!(registry_dir_of_path("registry/foo"), None);
}

#[test]
fn market_urls_and_names() {
    let urls = meta_urls("pkg", "manifest.toml");
    assert_eq!(urls.len(), 5);
    assert_eq!(
        urls[1],
        "https://raw.githubusercontent.com/zhangzm0/lingchat-marketplace/main/registry/pkg/manifest.toml"
    );
    assert_eq!(
        release_download_url("pkg", "1.2"),
        "https://github.com/zhangzm0/lingchat-marketplace/releases/download/pkg-1.2/pkg-1.2.zip"
    );
    let sources = download_sources("https://github.com/x.zip");
    assert_eq!(sources.len(), 4);
    assert_eq!(sources[0], "https://gh-proxy.com/https://github.com/x.zip");
    assert_eq!(sources[3], "https://github.com/x.zip");
    assert_eq!(cache_zip_name("pkg", "1.2"), "pkg-1.2.zip");
}

#[test]
fn package_meta_fills_in_missing_fields() {
    let manifest = ManifestFields {
        id: None,
        name: None,
        package_type: None,
        version: Some("2.0".into()),
        author: Some("a".into()),
        description: None,
    };
    let meta = package_meta("dir", manifest, None);
    assert_eq!(meta.id, "dir");
    assert_eq!(meta.name, "dir");
    assert_eq!(meta.package_type, "content");
    assert_eq!(
        meta.download_url.as_deref(),
        Some("https://github.com/zhangzm0/lingchat-marketplace/releases/download/dir-2.0/dir-2.0.zip")
    );
    let build = BuildFields {
        download_url: Some("https://example.com/p.zip".into()),
        sha256: Some("AB".into()),
        size: Some(3),
        review_report_url: None,
    };
    let manifest = ManifestFields {
        id: Some("id".into()),
        name: Some("n".into()),
        package_type: Some("plugin".into()),
        version: None,
        author: None,
        description: None,
    };
    let meta = package_meta("dir", manifest, Some(build));
    assert_eq!(meta.download_url.as_deref(), Some("https://example.com/p.zip"));
    assert_eq!(meta.version, "");
    assert_eq!(meta.size, Some(3));
}

#[test]
fn digests_compare_without_case() {
    assert!(check_sha256("ABCD", "abcd", "p", "1").is_ok());
    assert_eq!(
        check_sha256("ab", "cd", "p", "1").unwrap_err(),
        "sha256 校验失败（p 1）：声明 ab，实际 cd"
    );
}

#[test]
fn install_and_removal_steps_follow_the_package_type() {
    assert_eq!(after_install("plugin"), AfterInstall::ReloadPlugins);
    assert_eq!(after_install("character"), AfterInstall::RescanRoles);
    assert_eq!(after_install("script"), AfterInstall::RescanScripts);
    assert_eq!(after_install("content"), AfterInstall::Nothing);
    let record = |t: &str| InstalledRecord {
        id: "x".into(),
        version: "1".into(),
        package_type: t.into(),
        dir: "/d".into(),
    };
    assert_eq!(removal_of(&record("plugin")), Removal::DeletePlugin);
    assert_eq!(removal_of(&record("character")), Removal::DeleteCharacter);
    assert_eq!(removal_of(&record("script")), Removal::DeleteFolder { rescan_scripts: true });
    assert_eq!(removal_of(&record("content")), Removal::DeleteFolder { rescan_scripts: false });
}

fn urls() -> TtsServiceUrls {
    TtsServiceUrls {
        simple_vits: "http://vits".into(),
        sbv2: "  ".into(),
        sbv2api: String::new(),
        bv2: String::new(),
        gsv: "http://gsv".into(),
        aivis: String::new(),
        indextts: String::new(),
        opentts: String::new(),
        fish_s2: String::new(),
    }
}

#[test]
fn probe_urls_by_voice_type() {
    assert_eq!(resolve_probe_url(&urls(), "gsv"), Some("http://gsv".to_string()));
    assert_eq!(resolve_probe_url(&urls(), "sbv2"), None);
    assert_eq!(resolve_probe_url(&urls(), "unknown"), None);
}

#[test]
fn boot_steps() {
    match boot_start("localsbv2api", "run.bat", None) {
        BootAction::Finish(r) => assert!(r.embedded && r.ready && !r.launched),
        other => panic!("{other:?}"),
    }
    match boot_start("gsv", "   ", None) {
        BootAction::Finish(r) => assert!(!r.embedded && r.ready && !r.launched && r.error.is_none()),
        other => panic!("{other:?}"),
    }
    match boot_start("gsv", " run.bat ", Some("http://gsv".into())) {
        BootAction::Probe { url, attempts } => assert_eq!((url.as_str(), attempts), ("http://gsv", 1)),
        other => panic!("{other:?}"),
    }
    match boot_after_probe("gsv", " run.bat ", false) {
        BootAction::Launch { script } => assert_eq!(script, "run.bat"),
        other => panic!("{other:?}"),
    }
    match boot_after_launch("gsv", Some("http://gsv".into())) {
        BootAction::Probe { attempts, .. } => assert_eq!(attempts, 5),
        other => panic!("{other:?}"),
    }
    match boot_after_wait("gsv", false) {
        BootAction::Finish(r) => {
            assert!(r.launched && !r.ready);
            assert_eq!(r.error.as_deref(), Some("语音服务可能仍在启动，稍后会自动重试"));
        },
        other => panic!("{other:?}"),
    }
    assert!(matches!(boot_after_wait("gsv", true), BootAction::RefreshThenFinish(_)));
}

#[test]
fn stored_settings_read_back() {
    assert!(stored_bool(Some(StoredValue::Bool(true))));
    assert!(stored_bool(Some(StoredValue::Text("true".into()))));
    assert!(!stored_bool(Some(StoredValue::Text("yes".into()))));
    assert!(!stored_bool(None));
    assert_eq!(stored_string(Some(StoredValue::Number("42".into()))), "42");
    assert_eq!(stored_string(Some(StoredValue::Other)), "");
    assert!(is_autostart_launch(&strings(&["app", "--autostart"])));
    assert!(!is_autostart_launch(&strings(&["app"])));
}

#[test]
fn codex_statuses() {
    let s = auth_status(Some(CodexCredential { account_id: "acc".into(), expires: 9 }));
    assert!(s.logged_in);
    assert_eq!(s.expires, Some(9));
    assert!(!auth_status(None).logged_in);
    assert_eq!(poll_status(PollOutcome::SlowDown).status, "slow_down");
    let done = poll_status(PollOutcome::Complete("acc".into()));
    assert_eq!(done.status, "complete");
    assert_eq!(done.account_id.as_deref(), Some("acc"));
}

#[test]
fn lighting_requests() {
    let req = LightingOverride { preset: Some("Sunset".to_string()), params: Some(1u8) };
    assert_eq!(resolve_request(&req, None::<u8>, None).unwrap_err(),
        "未知光影预设: Sunset；可用值见 lighting_list_presets 工具返回值");
    let (preset, params) = resolve_request(&req, Some(7u8), Some("sunset".into())).unwrap();
    assert_eq!((preset.as_deref(), params), (Some("sunset"), 7));
    let none: LightingOverride<u8> = LightingOverride { preset: None, params: None };
    assert_eq!(resolve_request(&none, None, None).unwrap_err(), "lighting_apply 需要 preset 或 params");
    assert!(requested_override(ApplyLightingRequest::<u8> { preset: Some(String::new()), params: None }).is_none());
    let o = requested_override(ApplyLightingRequest { preset: Some(String::new()), params: Some(2u8) }).unwrap();
    assert_eq!((o.preset, o.params), (None, Some(2)));
    assert_eq!(reported_preset(ReportLightingActiveRequest { preset: Some(String::new()), source: "s".into() }), None);
}

#[test]
fn memory_runtime_notes() {
    assert_eq!(runtime_note(Some(true), false), None);
    assert_eq!(runtime_note(Some(false), true), Some("global_switch_off"));
    assert_eq!(runtime_note(None, false), Some("no_llm_configured"));
    assert_eq!(runtime_note(None, true), Some("not_synced_yet"));
    let r = debug_role(3, None, None, true);
    assert!(!r.runtime_present);
    assert_eq!(inspected_role_ids(vec![], vec![1, 2]), (vec![1, 2], false));
    assert_eq!(inspected_role_ids(vec![5], vec![1, 2]), (vec![5], true));
    assert_eq!(inspected_role_ids(vec![], vec![7, -1, 3, 3]), (vec![-1, 3, 3, 7], false));
    assert_eq!(inspected_role_ids(vec![9, 2], vec![1]), (vec![9, 2], true));
}

#[test]
fn scripts_are_summarised_and_protected() {
    let s = ScriptStatus {
        name: "n".into(),
        description: "d".into(),
        folder_key: "k".into(),
        intro_chapter: "c".into(),
        plugin_id: None,
    };
    assert_eq!(summary_of(&s).source, "game");
    assert!(is_protected_script("第七个测试剧本"));
    assert!(!is_protected_script("其他"));
}

#[test]
fn affection_additions_saturate_and_are_local() {
    let mut v = AffectionVector::default_value();
    assert!(v.add_delta("trust", 7));
    assert_eq!(v.get("trust"), Some(12));
    assert_eq!(v.get("fondness"), Some(10));
    assert!(v.add_delta("trust", i32::MAX));
    assert_eq!(v.get("trust"), Some(i32::MAX));
    assert!(!v.add_delta("unknown", 1));
    assert!(v.add_delta("fondness", 200));
    assert_eq!(v.get("fondness"), Some(210));
}

#[test]
fn negative_feelings_floor_at_zero() {
    let mut n = NegativeVector::default_value();
    assert!(n.add_delta("anger", -5));
    assert_eq!(n.get("anger"), Some(0));
    assert!(n.add_delta("hurt", 4));
    assert_eq!(n.peak(), 4);
    assert_eq!(n.get("nope"), None);
}

#[test]
fn affection_average_rounds_towards_zero() {
    let v = AffectionVector { fondness: -7, trust: 0, intimacy: 0, rapport: 0, interest: 0, longing: 0 };
    assert_eq!(v.average(), -1);
    assert_eq!(AffectionVector::default_value().average(), 5);
}

fn dlc_named(folder: &str, name: &str) -> DlcInfo {
    DlcInfo {
        folder_key: folder.to_string(),
        name: name.to_string(),
        description: String::new(),
        content_warning: None,
        version: "1".to_string(),
        author: String::new(),
        imported_at: String::new(),
    }
}

#[test]
fn dlcs_are_listed_by_name() {
    let listed = sort_dlcs(vec![
        dlc_named("c", "Zeta"),
        dlc_named("a", "Alpha"),
        dlc_named("b", "alpha"),
        dlc_named("d", "Alpha"),
    ]);
    let keys: Vec<&str> = listed.iter().map(|d| d.folder_key.as_str()).collect();
    assert_eq!(keys, vec!["a", "d", "c", "b"]);
    assert!(sort_dlcs(vec![]).is_empty());
}

#[test]
fn script_keys_follow_the_scripts_folder() {
    assert_eq!(path_key("/data/game_data/scripts/standalone/夏日"), "standalone/夏日");
    assert_eq!(path_key("/data/scripts"), "");
    assert_eq!(path_key("a/scripts/scripts/b"), "scripts/b");
    assert_eq!(path_key("/data/./scripts//x/"), "x");
    assert_eq!(path_key("/elsewhere/story"), "/elsewhere/story");
}

#[test]
fn registry_listing_gives_each_package_directory_once_in_order() {
    let paths: Vec<String> = [
        "registry/zeta/manifest.toml",
        "registry/alpha/manifest.toml",
        "registry/alpha/manifest.toml",
        "registry/alpha/build.json",
        "README.md",
        "registry/Beta/manifest.toml",
        "registry/beta/manifest.toml",
    ]
    .iter()
    .map(|s| s.to_string())
    .collect();
    assert_eq!(registry_dirs(&paths), vec!["Beta", "alpha", "beta", "zeta"]);
    assert!(registry_dirs(&[]).is_empty());
}

#[test]
fn market_index_keeps_the_packages_that_were_read() {
    let none: Vec<Result<u32, String>> = vec![];
    assert_eq!(collect_packages(none), Err("registry 目录为空".to_string()));
    let all_bad: Vec<Result<u32, String>> = vec![Err("a".into()), Err("b".into()), Err("c".into())];
    assert_eq!(collect_packages(all_bad), Err("市场索引拉取失败（3 个目录全部不可读）".to_string()));
    let mixed: Vec<Result<u32, String>> = vec![Ok(1), Err("x".into()), Ok(3)];
    assert_eq!(collect_packages(mixed), Ok(vec![1, 3]));
}

#[test]
fn identity_names_are_trimmed_and_not_blank() {
    assert_eq!(identity_name("  旅人 "), Ok("旅人".to_string()));
    assert_eq!(identity_name(" \t "), Err("身份名称不能为空".to_string()));
    assert_eq!(identity_name(""), Err("身份名称不能为空".to_string()));
}

#[test]
fn scripts_start_only_as_the_default_identity_and_one_at_a_time() {
    assert_eq!(script_start_check(7, 1, false, "冒险"), Err("请先解除扮演（切回默认身份）后再开始冒险".to_string()));
    assert_eq!(script_start_check(1, 1, true, "剧本"), Err("已有剧本或冒险正在进行中".to_string()));
    assert_eq!(script_start_check(1, 1, false, "剧本"), Ok(()));
}

#[test]
fn tool_runtime_facts_follow_the_platform() {
    let info = runtime_info(TargetOs::Android, true, false, 7, vec!["web_search".into(), "file_read".into(), "Run".into()]);
    assert_eq!(info.platform, "android");
    assert!(!info.command_available);
    assert!(info.file_ops_app_sandbox_only);
    assert_eq!(info.registered_tool_count, 7);
    assert_eq!(info.allowed_tools, vec!["Run".to_string(), "file_read".to_string(), "web_search".to_string()]);
    let desktop = runtime_info(TargetOs::Linux, false, false, 0, vec![]);
    assert_eq!(desktop.platform, "desktop");
    assert!(desktop.command_available);
    assert!(!desktop.file_ops_app_sandbox_only);
    assert_eq!(platform_name(TargetOs::Windows), "windows");
    assert_eq!(platform_name(TargetOs::Macos), "macos");
    assert_eq!(platform_name(TargetOs::Ios), "ios");
    assert_eq!(sort_names(vec!["b".into(), "a".into(), "b".into()]), vec!["a".to_string(), "b".to_string(), "b".to_string()]);
}

#[test]
fn category_names_are_listed_once_in_order() {
    let names: Vec<String> = ["战斗", "日常", "战斗", "Boss", "日常"].iter().map(|s| s.to_string()).collect();
    assert_eq!(sorted_unique(&names), vec!["Boss", "战斗", "日常"]);
}
