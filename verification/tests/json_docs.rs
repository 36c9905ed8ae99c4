use lingchat::json::{field, listing_paths, model_config_fields, str_field, tool_args_of, Json};
use lingchat::market::{after_download_attempt, find_package, package_download_url, DownloadStep, PackageMeta};
use lingchat::model3::{check_model_references, model_references, reference_items, Model3References};
use lingchat::path::{lies_within_root, path_is_absolute};
use lingchat::registry::tts_local_list_catalog;

fn s(x: &str) -> Json {
    Json::Str(x.to_string())
}

fn obj(members: Vec<(&str, Json)>) -> Json {
    Json::Object(members.into_iter().map(|(k, v)| (k.to_string(), v)).collect())
}

fn members_of(j: &Json) -> Vec<String> {
    match j {
        Json::Object(m) => m.iter().map(|(k, _)| k.clone()).collect(),
        _ => panic!("not an object"),
    }
}

#[test]
fn field_finds_members_of_objects_only() {
    let doc = obj(vec![("a", s("x")), ("b", Json::Bool(true))]);
    assert!(matches!(field(&doc, "b"), Some(Json::Bool(true))));
    assert!(field(&doc, "c").is_none());
    assert!(field(&s("a"), "a").is_none());
    assert_eq!(str_field(&doc, "a"), Some("x".to_string()));
    assert_eq!(str_field(&doc, "b"), None);
}

#[test]
fn model_config_defaults_fill_missing_or_non_string_fields() {
    let doc = obj(vec![("model_type", s("kokoro")), ("language", Json::Number("1".to_string()))]);
    assert_eq!(
        model_config_fields(&doc),
        ("kokoro".to_string(), "zh".to_string(), "female".to_string())
    );
    assert_eq!(
        model_config_fields(&Json::Null),
        ("vits".to_string(), "zh".to_string(), "female".to_string())
    );
}

#[test]
fn tool_args_unwrap_a_lone_arguments_object() {
    let doc = obj(vec![("arguments", obj(vec![("city", s("Paris"))]))]);
    let r = tool_args_of(Some(doc), None);
    assert_eq!(members_of(&r), vec!["city".to_string()]);
}

#[test]
fn tool_args_fall_back_to_params_and_keep_other_objects() {
    let doc = obj(vec![("params", obj(vec![("q", s("x"))]))]);
    assert_eq!(members_of(&tool_args_of(Some(doc), None)), vec!["q".to_string()]);
    let doc = obj(vec![("arguments", s("x"))]);
    assert_eq!(members_of(&tool_args_of(Some(doc), None)), vec!["arguments".to_string()]);
    let doc = obj(vec![("a", obj(vec![])), ("arguments", obj(vec![("x", Json::Null)]))]);
    assert_eq!(members_of(&tool_args_of(Some(doc), None)), vec!["a".to_string(), "arguments".to_string()]);
}

#[test]
fn tool_args_read_a_string_again_and_default_to_empty() {
    let inner = obj(vec![("k", Json::Null)]);
    let r = tool_args_of(Some(s("{\"k\":null}")), Some(inner));
    assert_eq!(members_of(&r), vec!["k".to_string()]);
    assert!(members_of(&tool_args_of(None, None)).is_empty());
    assert!(members_of(&tool_args_of(Some(s("text")), None)).is_empty());
    assert!(members_of(&tool_args_of(Some(Json::Array(vec![])), None)).is_empty());
}

#[test]
fn github_tree_listing_gives_each_path() {
    let doc = obj(vec![(
        "tree",
        Json::Array(vec![
            obj(vec![("path", s("registry/a/manifest.toml"))]),
            obj(vec![("type", s("blob"))]),
            obj(vec![("path", s("README.md"))]),
        ]),
    )]);
    assert_eq!(
        listing_paths(&doc, false),
        vec!["registry/a/manifest.toml".to_string(), "README.md".to_string()]
    );
    assert!(listing_paths(&doc, true).is_empty());
}

#[test]
fn jsdelivr_listing_walks_nested_folders() {
    let doc = obj(vec![(
        "files",
        Json::Array(vec![
            obj(vec![
                ("name", s("registry")),
                (
                    "files",
                    Json::Array(vec![obj(vec![
                        ("name", s("pkg")),
                        ("files", Json::Array(vec![obj(vec![("name", s("manifest.toml"))])])),
                    ])]),
                ),
            ]),
            obj(vec![("name", s("README.md"))]),
        ]),
    )]);
    assert_eq!(
        listing_paths(&doc, true),
        vec![
            "registry".to_string(),
            "registry/pkg".to_string(),
            "registry/pkg/manifest.toml".to_string(),
            "README.md".to_string(),
        ]
    );
}

#[test]
fn model_references_report_parse_and_shape_errors() {
    match model_references(Err("EOF".to_string())) {
        Err(e) => assert_eq!(e, "解析 model3 失败: EOF"),
        Ok(_) => panic!("expected an error"),
    }
    match model_references(Ok(obj(vec![("FileReferences", s("x"))]))) {
        Err(e) => assert_eq!(e, "model3 缺少 FileReferences"),
        Ok(_) => panic!("expected an error"),
    }
    let refs = model_references(Ok(obj(vec![("FileReferences", obj(vec![("Moc", s("m.moc3"))]))]))).unwrap();
    assert_eq!(refs.members.len(), 1);
}

fn sample_refs() -> Model3References {
    match obj(vec![
        ("Moc", s("m.moc3")),
        ("Textures", Json::Array(vec![s("t/0.png"), s("../../outside.png")])),
        ("Physics", s("m.physics3.json")),
    ]) {
        Json::Object(members) => Model3References { members },
        _ => unreachable!(),
    }
}

#[test]
fn reference_items_list_moc_textures_then_extras() {
    let items = reference_items(&sample_refs());
    let labels: Vec<&str> = items.iter().map(|(l, _)| l.as_str()).collect();
    assert_eq!(labels, vec!["Moc", "Texture", "Texture", "Physics"]);
    let empty = Model3References { members: vec![] };
    assert_eq!(reference_items(&empty), vec![("Moc".to_string(), None)]);
}

#[test]
fn model_references_must_stay_inside_the_import() {
    let refs = sample_refs();
    let r = check_model_references("/imp/model", "/imp", &refs, &[true, true, true, true]);
    assert_eq!(r, Err("Texture 文件必须位于本次导入的 Live2D 资源内: ../../outside.png".to_string()));
    let r = check_model_references("/imp/a/model", "/imp", &refs, &[true, true, true, true]);
    assert_eq!(r, Ok(()));
    let r = check_model_references("/imp/a/model", "/imp", &refs, &[true, false, true, true]);
    assert_eq!(r, Err("缺少 Texture 文件: t/0.png".to_string()));
    let empty = Model3References { members: vec![] };
    assert_eq!(check_model_references("/imp", "/imp", &empty, &[true]), Err("Moc 引用不是字符串".to_string()));
    let abs = match obj(vec![("Moc", s("/etc/m.moc3"))]) {
        Json::Object(members) => Model3References { members },
        _ => unreachable!(),
    };
    assert_eq!(
        check_model_references("/imp", "/imp", &abs, &[true]),
        Err("Moc 引用 必须是相对路径: /etc/m.moc3".to_string())
    );
}

#[test]
fn lexical_containment_resolves_dots() {
    assert!(lies_within_root("/a/b/../c", "/a"));
    assert!(lies_within_root("/a", "/a/"));
    assert!(!lies_within_root("/a/../b", "/a"));
    assert!(!lies_within_root("a/b", "/a"));
}

#[test]
fn drive_paths_are_absolute() {
    assert!(path_is_absolute("C:\\Users\\x.png"));
    assert!(path_is_absolute("d:/bg.png"));
    assert!(path_is_absolute("/bg.png"));
    assert!(!path_is_absolute("C:bg.png"));
    assert!(!path_is_absolute("bg.png"));
}

#[test]
fn listed_catalog_hides_bundled_assets() {
    let ids: Vec<String> = tts_local_list_catalog().into_iter().map(|a| a.id).collect();
    assert!(!ids.contains(&"deberta-tokenizer".to_string()));
    assert!(!ids.contains(&"ling-v2-style".to_string()));
    assert!(ids.contains(&"deberta".to_string()));
    assert_eq!(ids.len(), 6);
}

fn pkg(id: &str, version: &str) -> PackageMeta {
    PackageMeta {
        id: id.to_string(),
        name: id.to_string(),
        package_type: "content".to_string(),
        version: version.to_string(),
        author: None,
        description: None,
        download_url: None,
        sha256: None,
        size: None,
        review_report_url: None,
    }
}

#[test]
fn market_lookup_takes_the_first_match() {
    let index = vec![pkg("a", "1"), pkg("b", "2"), pkg("b", "3")];
    assert_eq!(find_package(index, "b").unwrap().version, "2");
    match find_package(vec![pkg("a", "1")], "z") {
        Err(e) => assert_eq!(e, "市场没有这个包: 'z'"),
        Ok(_) => panic!("expected an error"),
    }
    assert_eq!(package_download_url(&pkg("a", "1"), "a"), Err("包 'a' 缺少下载地址".to_string()));
}

#[test]
fn download_retries_once_then_moves_on() {
    assert!(matches!(after_download_attempt(0, 0, "m/u", 3, Ok(())), DownloadStep::Downloaded));
    assert!(matches!(
        after_download_attempt(0, 0, "m/u", 3, Err("x".to_string())),
        DownloadStep::Retry { delay_ms: 500 }
    ));
    match after_download_attempt(1, 1, "m/u", 3, Err("timeout".to_string())) {
        DownloadStep::NextSource { pause_ms, last_err } => {
            assert_eq!(pause_ms, 300);
            assert_eq!(last_err, "源 2 (m/u) 失败: timeout");
        },
        _ => panic!("expected the next source"),
    }
    match after_download_attempt(2, 1, "u", 3, Err("404".to_string())) {
        DownloadStep::Failed { message } => {
            assert_eq!(message, "下载失败（2 个镜像 + 主源均失败）: 源 3 (u) 失败: 404")
        },
        _ => panic!("expected a failure"),
    }
}
