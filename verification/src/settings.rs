//! Validation of numeric settings submitted from the settings page.

use vstd::prelude::*;

use std::collections::BTreeMap;

use crate::text::{decimal, owned, parse_u64, parse_u64_spec, u64_to_string};

verus! {

/// `BTreeMap::get` by a `&str` key: the value whose `String` key has the
/// same text, or `None` when no key has it.
#[verifier::external_body]
fn lookup<'a>(values: &'a BTreeMap<String, String>, key: &str) -> (r: Option<&'a String>)
    ensures
        match r {
            Some(v) => exists|k: String| #[trigger]
                values@.contains_key(k) && k@ == key@ && values@[k] == *v,
            None => forall|k: String| #[trigger] values@.contains_key(k) ==> k@ != key@,
        },
{
    values.get(key)
}

/// The error `validate_u32_setting` reports for the raw text `raw`, if any.
pub open spec fn u32_setting_error(raw: Seq<char>, label: Seq<char>, min: u32, max: u32) -> Option<
    Seq<char>,
> {
    match parse_u64_spec(raw) {
        Some(n) if n <= u32::MAX => if min <= n && n <= max {
            None
        } else {
            Some(label + " 必须在 "@ + decimal(min as nat) + "–"@ + decimal(max as nat) + " 之间"@)
        },
        _ => Some(label + " 必须是 0–"@ + decimal(max as nat) + " 范围内的整数"@),
    }
}

/// Whether `r` is what `validate_u32_setting` answers for the raw text `raw`.
pub open spec fn u32_setting_outcome(
    r: Result<(), String>,
    raw: Seq<char>,
    label: Seq<char>,
    min: u32,
    max: u32,
) -> bool {
    match u32_setting_error(raw, label, min, max) {
        Some(msg) => r matches Err(e) && e@ == msg,
        None => r is Ok,
    }
}

/// Checks the raw text of one numeric setting against `min..=max`.
pub fn validate_u32_value(raw: &str, label: &str, min: u32, max: u32) -> (r: Result<(), String>)
    ensures
        u32_setting_outcome(r, raw@, label@, min, max),
{
    match parse_u64(raw) {
        Some(n) if n <= u32::MAX as u64 => {
            if min as u64 <= n && n <= max as u64 {
                Ok(())
            } else {
                let mut e = owned(label);
                e.append(" 必须在 ");
                e.append(u64_to_string(min as u64).as_str());
                e.append("–");
                e.append(u64_to_string(max as u64).as_str());
                e.append(" 之间");
                Err(e)
            }
        },
        _ => {
            let mut e = owned(label);
            e.append(" 必须是 0–");
            e.append(u64_to_string(max as u64).as_str());
            e.append(" 范围内的整数");
            Err(e)
        },
    }
}

/// Checks the setting stored under `key`, if present: it must be a
/// decimal integer within `min..=max`. A missing key passes.
pub fn validate_u32_setting(
    values: &BTreeMap<String, String>,
    key: &str,
    label: &str,
    min: u32,
    max: u32,
) -> (r: Result<(), String>)
    ensures
        (forall|k: String| #[trigger] values@.contains_key(k) ==> k@ != key@) ==> r is Ok,
        (exists|k: String| #[trigger] values@.contains_key(k) && k@ == key@) ==> exists|k: String|
            #[trigger] values@.contains_key(k) && k@ == key@ && u32_setting_outcome(
                r,
                values@[k]@,
                label@,
                min,
                max,
            ),
{
    match lookup(values, key) {
        None => Ok(()),
        Some(raw) => {
            let r = validate_u32_value(raw.as_str(), label, min, max);
            proof {
                let k = choose|k: String| #[trigger]
                    values@.contains_key(k) && k@ == key@ && values@[k] == *raw;
                assert(values@.contains_key(k) && k@ == key@ && u32_setting_outcome(
                    r,
                    values@[k]@,
                    label@,
                    min,
                    max,
                ));
            }
            r
        },
    }
}

/// Why the LLM idle timeout's raw text is refused, if it is: it must be a
/// decimal integer within `min..=max` seconds.
pub open spec fn llm_timeout_error(raw: Seq<char>, min: u64, max: u64) -> Option<Seq<char>> {
    match parse_u64_spec(raw) {
        None => Some("LLM 请求空闲超时必须是整数"@),
        Some(n) => if min <= n && n <= max {
            None
        } else {
            Some("LLM 请求空闲超时必须在 "@ + decimal(min as nat) + "–"@ + decimal(max as nat) + " 秒之间"@)
        },
    }
}

/// Checks the raw text of the LLM idle timeout against `min..=max`
/// seconds.
pub fn validate_llm_timeout(raw: &str, min: u64, max: u64) -> (r: Result<(), String>)
    ensures
        match llm_timeout_error(raw@, min, max) {
            Some(m) => r matches Err(e) && e@ == m,
            None => r is Ok,
        },
{
    match parse_u64(raw) {
        None => Err(owned("LLM 请求空闲超时必须是整数")),
        Some(n) => if min <= n && n <= max {
            Ok(())
        } else {
            let mut e = owned("LLM 请求空闲超时必须在 ");
            e.append(u64_to_string(min).as_str());
            e.append("–");
            e.append(u64_to_string(max).as_str());
            e.append(" 秒之间");
            Err(e)
        },
    }
}

/// The answer to a saved settings page: a change to the memory settings
/// takes effect after a restart, everything else at once.
pub fn saved_message(memory_settings_changed: bool) -> (r: String)
    ensures
        memory_settings_changed ==> r@ == "配置已成功保存；记忆压缩相关设置将在重启 LingChat 后生效。"@,
        !memory_settings_changed ==> r@ == "配置已成功保存并已生效！"@,
{
    if memory_settings_changed {
        owned("配置已成功保存；记忆压缩相关设置将在重启 LingChat 后生效。")
    } else {
        owned("配置已成功保存并已生效！")
    }
}

// ---------------------------------------------------------------------------
// Memory status
// ---------------------------------------------------------------------------

/// Where the memory embedding stands.
#[derive(Debug, Clone)]
pub struct EmbeddingStatusSnapshot {
    pub enabled: bool,
    pub configured: bool,
    pub ready: bool,
    pub dim: Option<usize>,
    pub model: Option<String>,
    pub model_dir: String,
    pub backend: String,
    pub default_model_dir: String,
    pub error: Option<String>,
    pub index_len: usize,
}

/// Where the semantic memory stands.
#[derive(Debug, Clone)]
pub struct SemanticMemoryStatusSnapshot {
    pub enabled: bool,
    pub opened: bool,
    pub embedding_ready: bool,
    pub db_path: String,
    pub count: usize,
    pub error: Option<String>,
}

/// A role the semantic memory manager offers.
#[derive(Debug, Clone)]
pub struct SemanticMemoryRole {
    pub id: i32,
    pub name: String,
    pub role_type: String,
    /// Whether it is the role of the current conversation.
    pub is_current: bool,
}

/// A semantic memory as shown (without its vector).
#[derive(Debug, Clone)]
pub struct SemanticMemoryItemDto {
    pub id: String,
    pub text: String,
    pub tags: Vec<String>,
    pub created_at: String,
}

/// The outcome of a write to the semantic memory.
#[derive(Debug, Clone)]
pub struct SemanticMemoryWriteResult {
    pub ok: bool,
    pub id: Option<String>,
    pub outcome: String,
}

} // verus!
