use lingchat::local_tts::SherpaOnnxModelInfo;
use lingchat::sherpa_models::{
    config_or_defaults, first_model_file, parse_model_directory, pick_model_file, SherpaOnnxManager,
};

fn info(name: &str, size: u64, valid: bool) -> SherpaOnnxModelInfo {
    SherpaOnnxModelInfo {
        model_name: name.to_string(),
        model_path: format!("/m/{name}/model.onnx"),
        model_type: "vits".to_string(),
        language: "zh".to_string(),
        voice: "female".to_string(),
        size_bytes: size,
        is_valid: valid,
    }
}

#[test]
fn test_model_manager() {
    let manager = SherpaOnnxManager::new("/tmp/lingchat-models".to_string());
    assert_eq!(manager.model_dir(), "/tmp/lingchat-models/sherpa_onnx_models");

    let models = manager.get_models();
    assert!(models.is_empty());

    let (size, count) = manager.get_storage_stats();
    assert_eq!(size, 0);
    assert_eq!(count, 0);
}

#[test]
fn model_table_reads_back_what_was_added() {
    let mut manager = SherpaOnnxManager::new("/base".to_string());
    manager.add_model(info("a", 10, true));
    manager.add_model(info("b", 5, true));
    assert!(manager.model_exists("a"));
    assert!(!manager.model_exists("c"));
    assert_eq!(manager.get_model_size("b"), Some(5));
    assert_eq!(manager.get_model_path("a").as_deref(), Some("/m/a/model.onnx"));
    assert_eq!(manager.get_model_type("a").as_deref(), Some("vits"));
    assert_eq!(manager.get_model_language("a").as_deref(), Some("zh"));
    assert_eq!(manager.get_model_voice("a").as_deref(), Some("female"));
    assert_eq!(manager.get_model_size("c"), None);

    // Adding under a name already there replaces the entry.
    manager.add_model(info("a", 7, true));
    assert_eq!(manager.get_model_size("a"), Some(7));
    assert_eq!(manager.get_storage_stats(), (12, 2));
    let names: Vec<String> = manager.get_models().into_iter().map(|m| m.model_name).collect();
    assert_eq!(names, vec!["a".to_string(), "b".to_string()]);

    let removed = manager.remove_model("a").expect("entry a");
    assert_eq!(removed.size_bytes, 7);
    assert!(manager.remove_model("a").is_none());
    assert!(!manager.model_exists("a"));
    assert_eq!(manager.get_storage_stats(), (5, 1));
}

#[test]
fn cleanup_drops_only_invalid_models() {
    let mut manager = SherpaOnnxManager::new("/base".to_string());
    manager.add_model(info("a", 1, false));
    manager.add_model(info("b", 2, true));
    manager.add_model(info("c", 3, false));
    assert_eq!(manager.cleanup_invalid_models(), 2);
    assert!(manager.model_exists("b"));
    assert!(!manager.model_exists("a"));
    assert!(!manager.model_exists("c"));
    assert_eq!(manager.cleanup_invalid_models(), 0);
}

#[test]
fn unknown_models_do_not_validate() {
    let manager = SherpaOnnxManager::new("/base".to_string());
    assert_eq!(manager.validate_model("x"), Err("Model not found: x".to_string()));
    let mut manager = manager;
    manager.add_model(info("gone", 1, true));
    assert_eq!(manager.validate_model("gone"), Ok(false));
}

#[test]
fn model_files_are_looked_for_in_order() {
    assert_eq!(first_model_file("/m/x", &[false, true, true]).as_deref(), Some("/m/x/tts-model.onnx"));
    assert_eq!(first_model_file("/m/x", &[true, true, false]).as_deref(), Some("/m/x/model.onnx"));
    assert_eq!(first_model_file("/m/x", &[false, false, true]).as_deref(), Some("/m/x/sherpa-onnx-tts.onnx"));
    assert_eq!(first_model_file("/m/x", &[false, false, false]), None);
    assert_eq!(pick_model_file("/no/such/lingchat/folder"), None);
}

#[test]
fn model_folders_are_parsed_with_defaults() {
    let m = parse_model_directory("/models/vits-zh", Some("/models/vits-zh/model.onnx".to_string()), 42, None)
        .expect("entry");
    assert_eq!(m.model_name, "vits-zh");
    assert_eq!(m.model_type, "vits");
    assert_eq!(m.language, "zh");
    assert_eq!(m.voice, "female");
    assert_eq!(m.size_bytes, 42);
    assert!(m.is_valid);

    let c = config_or_defaults(Some("kokoro".to_string()), None, Some("male".to_string()));
    assert_eq!(c, ("kokoro".to_string(), "zh".to_string(), "male".to_string()));
    let m = parse_model_directory("/models/k/", Some("p".to_string()), 1, Some(c)).expect("entry");
    assert_eq!(m.model_name, "k");
    assert_eq!(m.model_type, "kokoro");
    assert_eq!(m.voice, "male");

    assert_eq!(
        parse_model_directory("/models/x", None, 0, None).unwrap_err(),
        "No model file found in directory"
    );
    assert_eq!(parse_model_directory("/", Some("p".to_string()), 0, None).unwrap_err(), "Invalid model directory name");
    assert_eq!(parse_model_directory("a/..", Some("p".to_string()), 0, None).unwrap_err(), "Invalid model directory name");
}
