use lingchat::live2d::{has_url_scheme, validate_relative_path, unique_asset_name, Live2dModelInfo};
use lingchat::live2d_auto::{auto_bindings, Live2dEyeBlinkBinding, Live2dMotionBinding, Live2dVariant};
use lingchat::live2d_import::{
    check_clothes_variants, check_manifest_header, generated_settings, resolved_expressions,
    resolved_motions, scanned_expressions, scanned_motions, sort_by_path, unique_variant_name,
    validate_variant_bindings, variant_base_name, Live2dSettings,
};
use lingchat::live2d_import::{loose_name, EXPRESSION_SUFFIX, MOTION_SUFFIX};

fn found(pairs: &[(&str, &str)]) -> Vec<(String, String)> {
    pairs.iter().map(|(a, b)| (a.to_string(), b.to_string())).collect()
}

fn names(v: &[&str]) -> Vec<String> {
    v.iter().map(|s| s.to_string()).collect()
}

fn group(name: &str, files: &[&str]) -> (String, Vec<String>) {
    (name.to_string(), names(files))
}

fn expression_of<'a>(v: &'a Live2dVariant, emotion: &str) -> Option<&'a str> {
    v.expressions.iter().find(|(e, _)| e == emotion).map(|(_, x)| x.as_str())
}

fn motion_of<'a>(v: &'a Live2dVariant, emotion: &str) -> Option<&'a Live2dMotionBinding> {
    v.motions.iter().find(|(e, _)| e == emotion).map(|(_, m)| m)
}

#[test]
fn scans_loose_expressions_from_nested_typo_and_flat_directories() {
    let scan = sort_by_path(found(&[
        ("脸红", "expressions/脸红.exp3.json"),
        ("生气", "experssions/生气.exp3.json"),
        ("调皮", "调皮.exp3.json"),
    ]));
    let (exprs, _, scanned) = resolved_expressions(vec![], vec![], &scan);
    assert!(scanned);
    assert_eq!(exprs, vec!["生气", "脸红", "调皮"]);
}

#[test]
fn scans_loose_motions_as_one_group_per_file_named_by_stem() {
    let scan = sort_by_path(found(&[
        ("idle", "motions/idle.motion3.json"),
        ("喷水", "motions/喷水.motion3.json"),
        ("aidale", "aidale.motion3.json"),
    ]));
    let groups = resolved_motions(vec![], &scan);
    let mut group_names: Vec<String> = groups.iter().map(|g| g.0.clone()).collect();
    group_names.sort();
    assert_eq!(group_names, ["aidale", "idle", "喷水"]);
    let idle = groups.iter().find(|g| g.0 == "idle").unwrap();
    assert_eq!(idle.1, vec!["motions/idle.motion3.json"]);
    let aidale = groups.iter().find(|g| g.0 == "aidale").unwrap();
    assert_eq!(aidale.1, vec!["aidale.motion3.json"]);
    let variant = auto_bindings("m.model3.json".to_string(), &[], true, &groups);
    assert_eq!(variant.idle.map(|idle| idle.group), Some("idle".to_string()));
}

#[test]
fn sleep_is_not_treated_as_an_idle_group() {
    let groups = scanned_motions(&found(&[("sleep", "motions/sleep.motion3.json")]));
    let variant = auto_bindings("m.model3.json".to_string(), &[], true, &groups);
    assert_eq!(variant.idle, None);
}

#[test]
fn declared_references_win_over_loose_scan() {
    let scan = found(&[
        ("Decoy", "expressions/Decoy.exp3.json"),
        ("happy", "expressions/happy.exp3.json"),
    ]);
    let (exprs, files, scanned) = resolved_expressions(
        names(&["Happy"]),
        found(&[("Happy", "expressions/happy.exp3.json")]),
        &scan,
    );
    assert_eq!(exprs, vec!["Happy"]);
    assert_eq!(files, found(&[("Happy", "expressions/happy.exp3.json")]));
    let groups = resolved_motions(vec![group("Idle", &["motions/idle.motion3.json"])], &[]);
    assert_eq!(groups.len(), 1);
    let variant = auto_bindings("m.model3.json".to_string(), &exprs, scanned, &groups);
    assert_eq!(variant.default_expression.as_deref(), Some("Happy"));
    assert_eq!(variant.idle.map(|idle| idle.group), Some("Idle".to_string()));
}

#[test]
fn scanned_lists_do_not_invent_a_default_expression() {
    let scan = sort_by_path(found(&[
        ("love", "expressions/love.exp3.json"),
        ("blush", "expressions/blush.exp3.json"),
    ]));
    let (exprs, _, scanned) = resolved_expressions(vec![], vec![], &scan);
    let variant = auto_bindings("m.model3.json".to_string(), &exprs, scanned, &[]);
    assert_eq!(variant.default_expression, None);
}

#[test]
fn scanned_default_expression_is_used_when_explicitly_named() {
    let scan = sort_by_path(found(&[
        ("脸红", "expressions/脸红.exp3.json"),
        ("默认", "expressions/默认.exp3.json"),
    ]));
    let (exprs, _, scanned) = resolved_expressions(vec![], vec![], &scan);
    let variant = auto_bindings("m.model3.json".to_string(), &exprs, scanned, &[]);
    assert_eq!(variant.default_expression.as_deref(), Some("默认"));
}

#[test]
fn chinese_keywords_bind_scanned_expression_names() {
    let scan = sort_by_path(found(&[
        ("脸红", "expressions/脸红.exp3.json"),
        ("生气", "expressions/生气.exp3.json"),
        ("星星眼", "expressions/星星眼.exp3.json"),
    ]));
    let (exprs, _, scanned) = resolved_expressions(vec![], vec![], &scan);
    let variant = auto_bindings("m.model3.json".to_string(), &exprs, scanned, &[]);
    assert_eq!(expression_of(&variant, "害羞"), Some("脸红"));
    assert_eq!(expression_of(&variant, "生气"), Some("生气"));
    assert_eq!(expression_of(&variant, "兴奋"), Some("星星眼"));
}

#[test]
fn declared_motion_groups_can_bind_by_group_name_when_files_are_opaque() {
    let groups = vec![
        group("Idle", &["motions/idle.motion3.json"]),
        group("Happy", &["motions/m01.motion3.json"]),
    ];
    let variant = auto_bindings("m.model3.json".to_string(), &[], false, &groups);
    let happy = motion_of(&variant, "高兴").unwrap();
    assert_eq!(happy.group, "Happy");
    assert_eq!(happy.index, 0);
    assert_eq!(variant.idle.map(|idle| idle.group), Some("Idle".to_string()));
}

#[test]
fn duplicate_motion_stems_are_uniquified_in_sorted_path_order() {
    let scan = sort_by_path(found(&[
        ("idle", "motions/idle.motion3.json"),
        ("idle", "motions/extra/idle.motion3.json"),
    ]));
    let groups = scanned_motions(&scan);
    let idle = groups.iter().find(|g| g.0 == "idle").unwrap();
    assert_eq!(idle.1, vec!["motions/extra/idle.motion3.json"]);
    let idle2 = groups.iter().find(|g| g.0 == "idle_2").unwrap();
    assert_eq!(idle2.1, vec!["motions/idle.motion3.json"]);
}

#[test]
fn motion_files_bind_before_group_names_and_first_group_in_name_order_wins() {
    let groups = vec![
        group("zeta_happy", &["a.motion3.json"]),
        group("Background", &["happy_bg.motion3.json"]),
        group("alpha", &["x.motion3.json", "happy_jump.motion3.json"]),
    ];
    let variant = auto_bindings("m.model3.json".to_string(), &[], false, &groups);
    let happy = motion_of(&variant, "高兴").unwrap();
    assert_eq!(happy.group, "alpha");
    assert_eq!(happy.index, 1);
    assert!(!happy.loop_motion);
}

#[test]
fn first_expression_is_default_only_for_declared_lists() {
    let declared = names(&["smile", "00_Default"]);
    let variant = auto_bindings("m.model3.json".to_string(), &declared, false, &[]);
    assert_eq!(variant.default_expression.as_deref(), Some("00_Default"));
    let variant = auto_bindings("m.model3.json".to_string(), &names(&["smile"]), false, &[]);
    assert_eq!(variant.default_expression.as_deref(), Some("smile"));
    assert_eq!(expression_of(&variant, "高兴"), Some("smile"));
}

#[test]
fn scanned_expression_names_keep_the_first_file() {
    let files = scanned_expressions(&found(&[("a", "1.exp3.json"), ("a", "2.exp3.json"), ("b", "3.exp3.json")]));
    assert_eq!(files, found(&[("a", "1.exp3.json"), ("b", "3.exp3.json")]));
}

#[test]
fn variant_names_come_from_the_model_stem() {
    assert_eq!(variant_base_name("models/hiyori.model3.json"), "hiyori");
    assert_eq!(variant_base_name("a.model3.model3.json"), "a");
    assert_eq!(unique_variant_name("x/hiyori.model3.json", &names(&["hiyori"])), "hiyori_2");
    assert_eq!(unique_asset_name("idle", &names(&["idle", "idle_2"])), "idle_3");
}

#[test]
fn references_must_be_relative() {
    assert!(has_url_scheme("https://x"));
    assert!(!has_url_scheme("1http://x"));
    assert!(!has_url_scheme("a/b.png"));
    assert!(validate_relative_path("/abs.png", "Texture").is_err());
    assert_eq!(
        validate_relative_path("C:\\x", "Moc").unwrap_err(),
        "Moc 必须是相对路径: C:\\x"
    );
    assert!(validate_relative_path("tex/a.png", "Texture").is_ok());
}

fn info() -> Live2dModelInfo {
    Live2dModelInfo {
        variant: "v".to_string(),
        model: "m.model3.json".to_string(),
        expressions: names(&["Happy"]),
        motions: vec![group("Idle", &["idle.motion3.json"])],
    }
}

fn variant() -> Live2dVariant {
    Live2dVariant {
        model: "m.model3.json".to_string(),
        default_expression: Some("Happy".to_string()),
        expressions: vec![("高兴".to_string(), "Happy".to_string())],
        motions: vec![],
        idle: Some(Live2dMotionBinding { group: "Idle".to_string(), index: 0, loop_motion: true }),
        eye_blink: None,
        focus_anchor: None,
        lip_sync: None,
    }
}

#[test]
fn variant_bindings_are_checked_against_the_model() {
    assert!(validate_variant_bindings("v", &variant(), &info()).is_ok());
    let mut bad = variant();
    bad.default_expression = Some("Sad".to_string());
    assert_eq!(validate_variant_bindings("v", &bad, &info()).unwrap_err(), "variant v 的默认表情不存在: Sad");
    let mut bad = variant();
    bad.idle = Some(Live2dMotionBinding { group: "Idle".to_string(), index: 3, loop_motion: true });
    assert_eq!(
        validate_variant_bindings("v", &bad, &info()).unwrap_err(),
        "variant v 的 idle 动作索引 3 越界（组 Idle 共 1 个）"
    );
    let mut bad = variant();
    bad.motions = vec![(
        "生气".to_string(),
        Live2dMotionBinding { group: "Angry".to_string(), index: 0, loop_motion: false },
    )];
    assert_eq!(
        validate_variant_bindings("v", &bad, &info()).unwrap_err(),
        "variant v 的 情绪 生气 引用了不存在的动作组 Angry"
    );
}

#[test]
fn manifests_need_version_one_and_known_variants() {
    let mut settings = generated_settings(vec![("v".to_string(), variant())]);
    assert_eq!(settings.default_variant, "v");
    assert_eq!(settings.clothes_variants, vec![("default".to_string(), "v".to_string())]);
    assert!(check_manifest_header(&settings).is_ok());
    assert!(check_clothes_variants(&settings).is_ok());
    settings.clothes_variants.push(("泳装".to_string(), "swim".to_string()));
    assert_eq!(
        check_clothes_variants(&settings).unwrap_err(),
        "服装 泳装 映射到不存在的 variant: swim"
    );
    let bad = Live2dSettings { version: 2, ..settings };
    assert!(check_manifest_header(&bad).is_err());
}

#[test]
fn loose_files_are_named_without_their_whole_suffix() {
    assert_eq!(loose_name("哭.exp3.json", EXPRESSION_SUFFIX).as_deref(), Some("哭"));
    assert_eq!(loose_name("idle_01.motion3.json", MOTION_SUFFIX).as_deref(), Some("idle_01"));
    assert_eq!(loose_name(".exp3.json", EXPRESSION_SUFFIX), None);
    assert_eq!(loose_name("smile.json", EXPRESSION_SUFFIX), None);
    assert_eq!(loose_name("a.motion3.json", EXPRESSION_SUFFIX), None);
}

#[test]
fn generated_variants_blink_and_lip_sync() {
    let v = auto_bindings("m.model3.json".to_string(), &[], true, &[]);
    assert_eq!(
        v.eye_blink,
        Some(Live2dEyeBlinkBinding { left: "ParamEyeLOpen".to_string(), right: "ParamEyeROpen".to_string() })
    );
    let lip = v.lip_sync.unwrap();
    assert_eq!(lip.parameter, "ParamMouthOpenY");
    assert_eq!(f64::from_bits(lip.gain_bits), 1.0);
    assert!(v.focus_anchor.is_none());
}
