//! Emotion control for the IndexTTS2 voice: how a tag becomes a plan, a
//! blended emotion vector, a description for the emotion model, or
//! nothing (follow the reference recording).

use vstd::prelude::*;

use crate::media::listed_in;
use crate::text::{
    ascii_lower_seq, ascii_lowercase, char_is_whitespace, chars_of, is_whitespace, owned,
    push_char, str_eq, string_of, trim, trimmed,
};

verus! {

/// Tags that have a blended emotion vector.
pub const BLEND_LABELS: [&'static str; 56] = [
    "高兴", "开心", "喜悦", "快乐", "愉快", "幸福", "兴奋", "期待", "调皮", "情动", "生气", "愤怒",
    "恼火", "气愤", "暴怒", "难过", "悲伤", "伤心", "哭泣", "委屈", "伤感", "低落", "沮丧", "失落",
    "忧郁", "消沉", "害怕", "恐惧", "紧张", "不安", "慌张", "惊慌", "担心", "厌恶", "反感", "恶心",
    "嫌弃", "讨厌", "惊讶", "吃惊", "震惊", "诧异", "意外", "平静", "自然", "正常", "冷静", "淡定",
    "无语", "无奈", "尴尬", "自信", "害羞", "难为情", "认真", "疑惑",
];

/// Descriptions handed to the emotion model for some tags; any other tag
/// is handed over as it is.
pub const LABEL_PROMPTS: [(&'static str, &'static str); 19] = [
    ("高兴", "开心愉快，语气轻快"),
    ("调皮", "俏皮调侃，带着笑意"),
    ("情动", "温柔动情，略带羞怯"),
    ("生气", "生气恼火，语气激动"),
    ("哭泣", "委屈地哭着，带着哭腔"),
    ("害怕", "害怕不安，声音发紧"),
    ("紧张", "紧张局促，声音发紧"),
    ("慌张", "慌张失措，语速偏快"),
    ("担心", "担心忧虑，语气放轻"),
    ("尴尬", "尴尬窘迫，支支吾吾"),
    ("自信", "自信从容，语气坚定"),
    ("害羞", "害羞腼腆，声音变软"),
    ("认真", "认真专注，语气平稳"),
    ("无语", "无奈无语，语气平淡"),
    ("厌恶", "厌恶嫌弃，语气冷淡"),
    ("疑惑", "疑惑不解，带着疑问"),
    ("难为情", "难为情，不好意思，声音发虚"),
    ("惊讶", "惊讶诧异，音调抬高"),
    ("平静", "平静自然，语气舒缓"),
];

/// How a line is voiced.
#[derive(Debug, Clone, PartialEq, Eq)]
pub enum EmotionPlan {
    /// Use the blended vector of this tag (one of [`BLEND_LABELS`]).
    Blend(String),
    /// Ask the emotion model; its answer is cached under `cache_key`.
    Analyze { cache_key: String, prompt: String },
    /// No explicit emotion: follow the reference recording.
    FollowReference,
}

pub open spec fn is_label_noise(c: char) -> bool {
    is_whitespace(c) || c == '【' || c == '】' || c == '[' || c == ']'
}

/// A tag without whitespace and without the brackets it may come in.
pub open spec fn sanitize_label_spec(label: Seq<char>) -> Seq<char> {
    label.filter(|c: char| !is_label_noise(c))
}

pub fn sanitize_label(label: &str) -> (r: String)
    ensures
        r@ == sanitize_label_spec(label@),
{
    let v = chars_of(label);
    let mut r = String::new();
    let mut i: usize = 0;
    while i < v.len()
        invariant
            i <= v.len(),
            v@ == label@,
            r@ == sanitize_label_spec(v@.take(i as int)),
        decreases v.len() - i,
    {
        let c = v[i];
        assert(v@.take(i + 1).drop_last() =~= v@.take(i as int));
        proof {
            reveal(Seq::filter);
        }
        if !(char_is_whitespace(c) || c == '【' || c == '】' || c == '[' || c == ']') {
            push_char(&mut r, c);
        }
        i += 1;
    }
    assert(v@.take(v.len() as int) =~= v@);
    r
}

/// The description the first entry for `label` gives, if any.
pub open spec fn prompt_from(entries: Seq<(&'static str, &'static str)>, label: Seq<char>) -> Option<
    Seq<char>,
>
    decreases entries.len(),
{
    if entries.len() == 0 {
        None
    } else if entries[0].0@ == label {
        Some(entries[0].1@)
    } else {
        prompt_from(entries.drop_first(), label)
    }
}

/// The description of a tag for the emotion model.
pub open spec fn label_prompt_spec(label: Seq<char>) -> Seq<char> {
    match prompt_from(LABEL_PROMPTS@, label) {
        Some(p) => p,
        None => label,
    }
}

pub fn label_prompt(label: &str) -> (r: String)
    ensures
        r@ == label_prompt_spec(label@),
{
    let mut i: usize = 0;
    assert(LABEL_PROMPTS@.skip(0) =~= LABEL_PROMPTS@);
    while i < LABEL_PROMPTS.len()
        invariant
            i <= LABEL_PROMPTS@.len(),
            prompt_from(LABEL_PROMPTS@, label@) == prompt_from(LABEL_PROMPTS@.skip(i as int), label@),
        decreases LABEL_PROMPTS.len() - i,
    {
        let (tag, prompt) = LABEL_PROMPTS[i];
        assert(LABEL_PROMPTS@.skip(i as int)[0] == LABEL_PROMPTS@[i as int]);
        if str_eq(tag, label) {
            return owned(prompt);
        }
        assert(LABEL_PROMPTS@.skip(i as int).drop_first() =~= LABEL_PROMPTS@.skip(i + 1));
        i += 1;
    }
    owned(label)
}

/// Which plan a mode (`blend`, `qwen` or `auto`, trimmed, in any ASCII
/// case), tag and text lead to.
#[derive(Debug, Clone, Copy, PartialEq, Eq, Structural)]
pub enum PlanKind {
    Blend,
    AnalyzeLabel,
    AnalyzeText,
    FollowReference,
}

pub open spec fn plan_kind_spec(mode: Seq<char>, label: Seq<char>, text: Seq<char>) -> PlanKind {
    let m = ascii_lower_seq(trim(mode));
    let l = sanitize_label_spec(label);
    if m == "blend"@ {
        if l.len() > 0 && listed_in(BLEND_LABELS@, l) {
            PlanKind::Blend
        } else {
            PlanKind::FollowReference
        }
    } else if m == "qwen"@ && l.len() > 0 {
        PlanKind::AnalyzeLabel
    } else if m == "auto"@ && trim(text).len() > 0 {
        PlanKind::AnalyzeText
    } else {
        PlanKind::FollowReference
    }
}

fn is_blend_label(label: &str) -> (r: bool)
    ensures
        r == listed_in(BLEND_LABELS@, label@),
{
    let mut i: usize = 0;
    while i < BLEND_LABELS.len()
        invariant
            i <= BLEND_LABELS@.len(),
            forall|j: int| 0 <= j < i ==> (#[trigger] BLEND_LABELS@[j])@ != label@,
        decreases BLEND_LABELS.len() - i,
    {
        if str_eq(BLEND_LABELS[i], label) {
            return true;
        }
        i += 1;
    }
    false
}

pub fn build_plan(mode: &str, label: &str, text: &str) -> (r: EmotionPlan)
    ensures
        match plan_kind_spec(mode@, label@, text@) {
            PlanKind::Blend => r matches EmotionPlan::Blend(l) && l@ == sanitize_label_spec(label@),
            PlanKind::AnalyzeLabel => r matches EmotionPlan::Analyze { cache_key, prompt }
                && prompt@ == label_prompt_spec(sanitize_label_spec(label@)) && cache_key@
                == "label:"@ + prompt@,
            PlanKind::AnalyzeText => r matches EmotionPlan::Analyze { cache_key, prompt }
                && prompt@ == trim(text@) && cache_key@ == "auto:"@ + trim(text@),
            PlanKind::FollowReference => r == EmotionPlan::FollowReference,
        },
{
    let trimmed_mode = trimmed(mode);
    let mv = chars_of(trimmed_mode.as_str());
    let lowered = ascii_lowercase(mv.as_slice());
    let m = string_of(lowered.as_slice());
    let l = sanitize_label(label);
    let lv = chars_of(l.as_str());
    if str_eq(m.as_str(), "blend") {
        if lv.len() > 0 && is_blend_label(l.as_str()) {
            return EmotionPlan::Blend(l);
        }
        return EmotionPlan::FollowReference;
    }
    if str_eq(m.as_str(), "qwen") && lv.len() > 0 {
        let prompt = label_prompt(l.as_str());
        let mut cache_key = owned("label:");
        cache_key.append(prompt.as_str());
        return EmotionPlan::Analyze { cache_key, prompt };
    }
    let t = trimmed(text);
    let tv = chars_of(t.as_str());
    if str_eq(m.as_str(), "auto") && tv.len() > 0 {
        let mut cache_key = owned("auto:");
        cache_key.append(t.as_str());
        return EmotionPlan::Analyze { cache_key, prompt: t };
    }
    EmotionPlan::FollowReference
}

} // verus!
