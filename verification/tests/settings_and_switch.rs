use lingchat::cloud::{policy_of, voice_id_of, voice_status_of};
use lingchat::json::Json;
use lingchat::live2d::Live2dModelInfo;
use lingchat::live2d_import::{check_import_source, sort_by_variant};
use lingchat::local_tts::{after_switch_saved, switch_save_failed, SettingRollback, SwitchFollowUp};
use lingchat::settings::{saved_message, validate_llm_timeout};

fn s(x: &str) -> Json {
    Json::Str(x.to_string())
}

fn obj(members: Vec<(&str, Json)>) -> Json {
    Json::Object(members.into_iter().map(|(k, v)| (k.to_string(), v)).collect())
}

#[test]
fn cloud_answers_give_voice_id_and_lowercased_status() {
    let resp = obj(vec![("output", obj(vec![("voice_id", s("v-1")), ("status", s("OK"))]))]);
    assert_eq!(voice_id_of(&resp, "{}"), Ok("v-1".to_string()));
    assert_eq!(voice_status_of(&resp, "{}"), Ok("ok".to_string()));
    let empty = obj(vec![("output", obj(vec![]))]);
    assert_eq!(voice_id_of(&empty, "{\"output\":{}}"), Err("create_voice 响应缺少 voice_id: {\"output\":{}}".to_string()));
    assert_eq!(voice_status_of(&Json::Null, "null"), Err("query_voice 响应缺少 status: null".to_string()));
}

#[test]
fn upload_policy_reports_the_first_missing_field() {
    let full = obj(vec![
        ("upload_host", s("h")),
        ("upload_dir", s("d")),
        ("policy", s("p")),
        ("oss_access_key_id", s("k")),
        ("signature", s("sig")),
        ("x_oss_object_acl", s("acl")),
        ("x_oss_forbid_overwrite", s("true")),
    ]);
    let p = policy_of(&full, "{}").ok().unwrap();
    assert_eq!(p.upload_host, "h");
    assert_eq!(p.x_oss_forbid_overwrite, "true");
    let partial = obj(vec![("upload_host", s("h")), ("policy", Json::Number("1".to_string()))]);
    match policy_of(&partial, "X") {
        Err(e) => assert_eq!(e, "getPolicy 响应缺少 upload_dir: X"),
        Ok(_) => panic!("expected an error"),
    }
}

#[test]
fn import_may_not_come_from_above_the_role_folder() {
    let m = "不能从包含当前角色目录的上级目录导入 Live2D".to_string();
    assert_eq!(check_import_source("/game/roles", "/game/roles/alice"), Err(m.clone()));
    assert_eq!(check_import_source("/game/roles/alice", "/game/roles/alice"), Err(m));
    assert_eq!(check_import_source("/home/me/model", "/game/roles/alice"), Ok(()));
    assert_eq!(check_import_source("/game/roles/alice/live2d/src", "/game/roles/alice"), Ok(()));
}

fn info(variant: &str) -> Live2dModelInfo {
    Live2dModelInfo { variant: variant.to_string(), model: format!("{variant}.model3.json"), expressions: vec![], motions: vec![] }
}

#[test]
fn inspected_models_sort_by_variant() {
    let sorted = sort_by_variant(vec![info("summer"), info("casual"), info("night"), info("casual")]);
    let names: Vec<&str> = sorted.iter().map(|i| i.variant.as_str()).collect();
    assert_eq!(names, vec!["casual", "casual", "night", "summer"]);
}

#[test]
fn llm_timeout_is_an_integer_in_range() {
    assert_eq!(validate_llm_timeout("30", 5, 600), Ok(()));
    assert_eq!(validate_llm_timeout("abc", 5, 600), Err("LLM 请求空闲超时必须是整数".to_string()));
    assert_eq!(validate_llm_timeout("2", 5, 600), Err("LLM 请求空闲超时必须在 5–600 秒之间".to_string()));
    assert_eq!(saved_message(true), "配置已成功保存；记忆压缩相关设置将在重启 LingChat 后生效。");
    assert_eq!(saved_message(false), "配置已成功保存并已生效！");
}

#[test]
fn engine_switch_rolls_back_and_follows_up() {
    assert_eq!(switch_save_failed(Some(true), "disk full"), (SettingRollback::Restore(true), "save local TTS switch: disk full".to_string()));
    assert_eq!(switch_save_failed::<bool>(None, "x").0, SettingRollback::Delete);
    assert_eq!(after_switch_saved(false, true, true).0, SwitchFollowUp::UnloadAll);
    assert_eq!(after_switch_saved(true, false, true).0, SwitchFollowUp::InitEngine);
    assert_eq!(after_switch_saved(true, true, true).0, SwitchFollowUp::Nothing);
    assert_eq!(after_switch_saved(true, false, false).0, SwitchFollowUp::Nothing);
    let status = after_switch_saved(true, false, false).1;
    assert!(status.configured_enabled && status.effective_enabled);
}
