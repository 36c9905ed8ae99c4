//! Validation of the player's profile fields.

use vstd::prelude::*;

use crate::text::{chars_of, concat2, decimal, string_of, trim, trim_bounds, u64_to_string};

verus! {

/// A C0 control character other than line feed and tab.
pub open spec fn is_forbidden_control(c: char) -> bool {
    (c as u32) < 0x20 && c != '\n' && c != '\t'
}

pub open spec fn has_forbidden_control(s: Seq<char>) -> bool {
    exists|i: int| 0 <= i < s.len() && is_forbidden_control(#[trigger] s[i])
}

fn chars_have_forbidden_control(v: &[char]) -> (r: bool)
    ensures
        r == has_forbidden_control(v@),
{
    let mut i: usize = 0;
    while i < v.len()
        invariant
            i <= v.len(),
            forall|j: int| 0 <= j < i ==> !is_forbidden_control(#[trigger] v@[j]),
        decreases v.len() - i,
    {
        let c = v[i];
        if (c as u32) < 0x20 && c != '\n' && c != '\t' {
            assert(is_forbidden_control(v@[i as int]));
            return true;
        }
        i += 1;
    }
    false
}

/// Whether `value` holds a control character other than `\n` and `\t`.
pub fn contains_forbidden_control(value: &str) -> (r: bool)
    ensures
        r == has_forbidden_control(value@),
{
    let v = chars_of(value);
    chars_have_forbidden_control(v.as_slice())
}

pub open spec fn user_name_result(raw: Seq<char>) -> Result<Seq<char>, Seq<char>> {
    let t = trim(raw);
    if has_forbidden_control(t) {
        Err("玩家昵称不能包含控制字符"@)
    } else if t.len() == 0 || t.len() > 32 {
        Err("玩家昵称不能为空，且长度需为 1~32 个字符"@)
    } else {
        Ok(t)
    }
}

/// The player's nickname, trimmed: 1 to 32 characters without control
/// characters.
pub fn validate_user_name(raw: String) -> (r: Result<String, String>)
    ensures
        match user_name_result(raw@) {
            Ok(n) => r matches Ok(x) && x@ == n,
            Err(m) => r matches Err(e) && e@ == m,
        },
{
    let v = chars_of(raw.as_str());
    let (a, b) = trim_bounds(v.as_slice());
    let t = vstd::slice::slice_subrange(v.as_slice(), a, b);
    if chars_have_forbidden_control(t) {
        return Err("玩家昵称不能包含控制字符".to_owned());
    }
    if t.len() == 0 || t.len() > 32 {
        return Err("玩家昵称不能为空，且长度需为 1~32 个字符".to_owned());
    }
    Ok(string_of(t))
}

pub open spec fn optional_text_result(label: Seq<char>, value: Option<Seq<char>>, max_chars: usize) -> Result<
    Option<Seq<char>>,
    Seq<char>,
> {
    match value {
        None => Ok(None),
        Some(v) => {
            let t = trim(v);
            if has_forbidden_control(t) {
                Err(label + "不能包含除换行和制表符以外的控制字符"@)
            } else if t.len() > max_chars {
                Err(label + "长度不能超过 "@ + decimal(max_chars as nat) + " 个字符"@)
            } else {
                Ok(Some(t))
            }
        },
    }
}

pub open spec fn opt_string_view(o: Option<String>) -> Option<Seq<char>> {
    match o {
        Some(s) => Some(s@),
        None => None,
    }
}

pub open spec fn opt_text_matches(r: Result<Option<String>, String>, e: Result<Option<Seq<char>>, Seq<char>>) -> bool {
    match e {
        Ok(Some(t)) => r matches Ok(Some(x)) && x@ == t,
        Ok(None) => r matches Ok(None),
        Err(m) => r matches Err(x) && x@ == m,
    }
}

/// An optional profile text, trimmed, without control characters other
/// than `\n` and `\t`, at most `max_chars` characters.
pub fn validate_optional_text(label: &str, value: Option<String>, max_chars: usize) -> (r: Result<
    Option<String>,
    String,
>)
    ensures
        opt_text_matches(r, optional_text_result(label@, opt_string_view(value), max_chars)),
{
    let value = match value {
        None => {
            return Ok(None);
        },
        Some(v) => v,
    };
    let v = chars_of(value.as_str());
    let (a, b) = trim_bounds(v.as_slice());
    let t = vstd::slice::slice_subrange(v.as_slice(), a, b);
    if chars_have_forbidden_control(t) {
        return Err(concat2(label, "不能包含除换行和制表符以外的控制字符"));
    }
    if t.len() > max_chars {
        let mut e = concat2(label, "长度不能超过 ");
        e.append(u64_to_string(max_chars as u64).as_str());
        e.append(" 个字符");
        return Err(e);
    }
    Ok(Some(string_of(t)))
}

/// The fields of a player persona card.
#[derive(Debug, Clone)]
pub struct PlayerProfileData {
    pub user_name: String,
    pub user_subtitle: Option<String>,
    pub user_prompt: Option<String>,
    pub info: Option<String>,
    pub system_prompt_example: Option<String>,
}

/// Normalizes and checks a whole profile; the first failing field decides
/// the error.
pub fn validate_profile_fields(
    user_name: String,
    user_subtitle: Option<String>,
    user_prompt: Option<String>,
    info: Option<String>,
    system_prompt_example: Option<String>,
) -> (r: Result<PlayerProfileData, String>)
    ensures
        ({
            let n = user_name_result(user_name@);
            let s = optional_text_result("玩家副标题"@, opt_string_view(user_subtitle), 64);
            let p = optional_text_result("玩家设定"@, opt_string_view(user_prompt), 4000);
            let i = optional_text_result("玩家简介"@, opt_string_view(info), 4000);
            let x = optional_text_result(
                "玩家说话风格示例"@,
                opt_string_view(system_prompt_example),
                4000,
            );
            match (n, s, p, i, x) {
                (Ok(n), Ok(s), Ok(p), Ok(i), Ok(x)) => r matches Ok(d) && d.user_name@ == n
                    && opt_string_view(d.user_subtitle) == s && opt_string_view(d.user_prompt) == p
                    && opt_string_view(d.info) == i && opt_string_view(d.system_prompt_example)
                    == x,
                (Err(m), _, _, _, _) => r matches Err(e) && e@ == m,
                (Ok(_), Err(m), _, _, _) => r matches Err(e) && e@ == m,
                (Ok(_), Ok(_), Err(m), _, _) => r matches Err(e) && e@ == m,
                (Ok(_), Ok(_), Ok(_), Err(m), _) => r matches Err(e) && e@ == m,
                (Ok(_), Ok(_), Ok(_), Ok(_), Err(m)) => r matches Err(e) && e@ == m,
            }
        }),
{
    let user_name = match validate_user_name(user_name) {
        Ok(n) => n,
        Err(e) => {
            return Err(e);
        },
    };
    let user_subtitle = match validate_optional_text("玩家副标题", user_subtitle, 64) {
        Ok(v) => v,
        Err(e) => {
            return Err(e);
        },
    };
    let user_prompt = match validate_optional_text("玩家设定", user_prompt, 4000) {
        Ok(v) => v,
        Err(e) => {
            return Err(e);
        },
    };
    let info = match validate_optional_text("玩家简介", info, 4000) {
        Ok(v) => v,
        Err(e) => {
            return Err(e);
        },
    };
    let system_prompt_example = match validate_optional_text(
        "玩家说话风格示例",
        system_prompt_example,
        4000,
    ) {
        Ok(v) => v,
        Err(e) => {
            return Err(e);
        },
    };
    Ok(PlayerProfileData { user_name, user_subtitle, user_prompt, info, system_prompt_example })
}

} // verus!
