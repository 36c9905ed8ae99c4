//! Automatic bindings for an imported Live2D model: which motion group is
//! the idle loop, which expression is the default, and which expression or
//! motion each emotion starts out with. The user may change all of them
//! later; these rules only give a starting point.

use vstd::prelude::*;

use crate::live2d::{
    is_default_expression_name, is_default_expression_spec, is_idle_group_name,
    is_idle_group_spec,
};
use crate::text::{
    ascii_lower_seq, ascii_lowercase, chars_match_at, chars_of, matches_at, owned, split_chars,
    split_on, str_eq,
};

verus! {

/// Expression rules: an emotion, then the keywords (separated by `|`) that an
/// expression name, ASCII-lowercased, must contain to be bound to it. The
/// Chinese keywords serve models exported with functional Chinese names.
pub const EXPRESSION_RULES: [(&'static str, &'static str); 20] = [
    ("正常", "default|normal|正常|默认"),
    ("平静", "calm|default|normal|平静|淡定"),
    ("高兴", "happy|smile|高兴|开心|笑"),
    ("兴奋", "kira|waku|happy|兴奋|星星眼"),
    ("生气", "angry|生气|怒"),
    ("害羞", "shy|blush|害羞|脸红|羞"),
    ("疑惑", "doubt|ask|疑惑|疑问|问号"),
    ("哭泣", "tear|sad|cry|哭|泪|悲伤"),
    ("惊讶", "surpris|惊讶|震惊|感叹号"),
    ("厌恶", "disgust|厌恶|嫌弃|反感"),
    ("担心", "troubled|worry|担心|忧|流汗"),
    ("认真", "serious|认真|正经"),
    ("紧张", "nervous|紧张|冷汗"),
    ("害怕", "scared|fear|害怕|恐惧"),
    ("慌张", "panic|慌张|慌乱"),
    ("无奈", "speechless|无奈|叹气|无语"),
    ("心动", "heart|love|心动|心跳|爱心"),
    ("调皮", "playful|调皮|吐舌|恶作剧"),
    ("难为情", "embarrass|难为情|尴尬"),
    ("自信", "confident|自信|得意"),
];

/// Motion rules, in the same form as [`EXPRESSION_RULES`].
pub const MOTION_RULES: [(&'static str, &'static str); 6] = [
    ("高兴", "waku|happy|高兴|开心|笑"),
    ("兴奋", "waku|happy|兴奋|欢呼"),
    ("生气", "angry|生气|怒"),
    ("疑惑", "doubt|疑惑|疑问"),
    ("担心", "troubled|担心|忧"),
    ("晕", "dizzy|晕"),
];

/// A motion picked for an emotion or for the idle loop.
#[derive(Debug, Clone, PartialEq, Eq)]
pub struct Live2dMotionBinding {
    pub group: String,
    pub index: usize,
    pub loop_motion: bool,
}

/// The two eye-openness parameters a model blinks with.
#[derive(Debug, Clone, PartialEq, Eq)]
pub struct Live2dEyeBlinkBinding {
    pub left: String,
    pub right: String,
}

/// A model parameter driven by a signal, with a gain. The gain is a
/// floating-point number, which the library carries as its IEEE-754 bit
/// pattern and never computes on.
#[derive(Debug, Clone, PartialEq, Eq)]
pub struct Live2dParameterBinding {
    pub parameter: String,
    pub gain_bits: u64,
}

/// Where the model looks, as fractions of the view; carried as the
/// IEEE-754 bit patterns of its two coordinates.
#[derive(Debug, Clone, Copy, PartialEq, Eq)]
pub struct Live2dFocusAnchor {
    pub x_bits: u64,
    pub y_bits: u64,
}

/// The bit pattern of a gain of exactly 1.
pub const UNIT_GAIN_BITS: u64 = 0x3FF0_0000_0000_0000;

/// The eye parameters of a generated variant.
pub const EYE_LEFT_PARAMETER: &'static str = "ParamEyeLOpen";
pub const EYE_RIGHT_PARAMETER: &'static str = "ParamEyeROpen";

/// The mouth parameter a generated variant lip-syncs with.
pub const MOUTH_PARAMETER: &'static str = "ParamMouthOpenY";

/// What a model variant binds: its model file, default expression, the
/// expression and motion each emotion uses, its idle loop, and the
/// parameters it blinks, looks and lip-syncs with.
#[derive(Debug, Clone)]
pub struct Live2dVariant {
    pub model: String,
    pub default_expression: Option<String>,
    /// Emotion -> expression name; each emotion once.
    pub expressions: Vec<(String, String)>,
    /// Emotion -> motion; each emotion once.
    pub motions: Vec<(String, Live2dMotionBinding)>,
    pub idle: Option<Live2dMotionBinding>,
    pub eye_blink: Option<Live2dEyeBlinkBinding>,
    pub focus_anchor: Option<Live2dFocusAnchor>,
    pub lip_sync: Option<Live2dParameterBinding>,
}

// ---------------------------------------------------------------------------
// Views
// ---------------------------------------------------------------------------

pub open spec fn names_view(v: Seq<String>) -> Seq<Seq<char>> {
    v.map_values(|s: String| s@)
}

pub open spec fn groups_view(g: Seq<(String, Vec<String>)>) -> Seq<(Seq<char>, Seq<Seq<char>>)> {
    g.map_values(|p: (String, Vec<String>)| (p.0@, names_view(p.1@)))
}

pub open spec fn rules_view(r: Seq<(&'static str, &'static str)>) -> Seq<(Seq<char>, Seq<char>)> {
    r.map_values(|p: (&'static str, &'static str)| (p.0@, p.1@))
}

// ---------------------------------------------------------------------------
// Substrings and keywords
// ---------------------------------------------------------------------------

/// Whether `p` occurs in `s`.
pub open spec fn contains_sub(s: Seq<char>, p: Seq<char>) -> bool {
    exists|i: int| matches_at(s, i, p)
}

pub fn chars_contains(s: &[char], p: &[char]) -> (r: bool)
    ensures
        r == contains_sub(s@, p@),
{
    if p.len() > s.len() {
        assert forall|i: int| !matches_at(s@, i, p@) by {}
        return false;
    }
    let last = s.len() - p.len();
    let mut at: usize = 0;
    while at < last
        invariant
            at <= last,
            last + p.len() == s.len(),
            forall|j: int| 0 <= j < at ==> !matches_at(s@, j, p@),
        decreases last - at,
    {
        if chars_match_at(s, at, p) {
            return true;
        }
        at += 1;
    }
    if chars_match_at(s, last, p) {
        return true;
    }
    assert forall|i: int| !matches_at(s@, i, p@) by {
        if 0 <= i && i < at {
        }
    }
    false
}

/// The keywords of a rule.
pub open spec fn rule_keywords(rule: Seq<char>) -> Seq<Seq<char>> {
    split_on(rule, '|')
}

/// Whether the (already lowercased) `lower` contains one of the rule's keywords.
pub open spec fn hits_rule(lower: Seq<char>, rule: Seq<char>) -> bool {
    exists|k: int|
        0 <= k < rule_keywords(rule).len() && contains_sub(lower, #[trigger] rule_keywords(rule)[k])
}

pub fn hits_rule_exec(lower: &[char], rule: &str) -> (r: bool)
    ensures
        r == hits_rule(lower@, rule@),
{
    let rc = chars_of(rule);
    let kws = split_chars(rc.as_slice(), '|');
    let mut k: usize = 0;
    while k < kws.len()
        invariant
            k <= kws.len(),
            rc@ == rule@,
            kws@.len() == rule_keywords(rule@).len(),
            forall|i: int| 0 <= i < kws@.len() ==> #[trigger] kws@[i]@ == rule_keywords(rule@)[i],
            forall|j: int|
                0 <= j < k ==> !contains_sub(lower@, #[trigger] rule_keywords(rule@)[j]),
        decreases kws.len() - k,
    {
        if chars_contains(lower, kws[k].as_slice()) {
            assert(kws@[k as int]@ == rule_keywords(rule@)[k as int]);
            return true;
        }
        k += 1;
    }
    false
}

// ---------------------------------------------------------------------------
// First name that passes a test
// ---------------------------------------------------------------------------

/// The tests names are searched by.
#[derive(Debug, Clone, Copy)]
pub enum NameTest {
    /// ASCII-lowercased, the name contains a keyword of the rule.
    Keywords(&'static str),
    /// The name says it is the default expression.
    DefaultExpression,
    /// The name is exactly this one.
    Exactly(&'static str),
    /// The name is an idle group's.
    IdleGroup,
}

pub open spec fn passes(t: NameTest, n: Seq<char>) -> bool {
    match t {
        NameTest::Keywords(rule) => hits_rule(ascii_lower_seq(n), rule@),
        NameTest::DefaultExpression => is_default_expression_spec(n),
        NameTest::Exactly(s) => n == s@,
        NameTest::IdleGroup => is_idle_group_spec(n),
    }
}

pub open spec fn test_fn(t: NameTest) -> spec_fn(Seq<char>) -> bool {
    |n: Seq<char>| passes(t, n)
}

/// Index of the first element of `s` that satisfies `p`.
pub open spec fn first_where(s: Seq<Seq<char>>, p: spec_fn(Seq<char>) -> bool) -> Option<int>
    decreases s.len(),
{
    if s.len() == 0 {
        None
    } else {
        match first_where(s.drop_last(), p) {
            Some(i) => Some(i),
            None => if p(s.last()) {
                Some(s.len() - 1)
            } else {
                None
            },
        }
    }
}

/// What [`first_where`] finds: the first element that satisfies `p`, or
/// nothing when none does.
pub proof fn lemma_first_where(s: Seq<Seq<char>>, p: spec_fn(Seq<char>) -> bool)
    ensures
        match first_where(s, p) {
            Some(i) => 0 <= i < s.len() && p(s[i]) && forall|j: int| 0 <= j < i ==> !p(s[j]),
            None => forall|j: int| 0 <= j < s.len() ==> !p(s[j]),
        },
    decreases s.len(),
{
    if s.len() > 0 {
        lemma_first_where(s.drop_last(), p);
        assert forall|j: int| 0 <= j < s.len() - 1 implies s.drop_last()[j] == s[j] by {}
    }
}

pub proof fn lemma_first_where_prefix(s: Seq<Seq<char>>, n: int, p: spec_fn(Seq<char>) -> bool)
    requires
        0 <= n <= s.len(),
        first_where(s.take(n), p) is Some,
    ensures
        first_where(s, p) == first_where(s.take(n), p),
    decreases s.len(),
{
    if n == s.len() {
        assert(s.take(n) =~= s);
    } else {
        assert(s.drop_last().take(n) =~= s.take(n));
        lemma_first_where_prefix(s.drop_last(), n, p);
    }
}

pub fn passes_exec(t: NameTest, n: &str) -> (r: bool)
    ensures
        r == passes(t, n@),
{
    match t {
        NameTest::Keywords(rule) => {
            let v = chars_of(n);
            let lower = ascii_lowercase(v.as_slice());
            hits_rule_exec(lower.as_slice(), rule)
        },
        NameTest::DefaultExpression => is_default_expression_name(n),
        NameTest::Exactly(s) => str_eq(n, s),
        NameTest::IdleGroup => is_idle_group_name(n),
    }
}

/// Index of the first name that passes `t`.
pub fn first_passing(names: &[String], t: NameTest) -> (r: Option<usize>)
    ensures
        match first_where(names_view(names@), test_fn(t)) {
            Some(i) => r == Some(i as usize),
            None => r is None,
        },
        r matches Some(x) ==> first_where(names_view(names@), test_fn(t)) == Some(x as int),
{
    let ghost views = names_view(names@);
    let mut i: usize = 0;
    while i < names.len()
        invariant
            i <= names.len(),
            views == names_view(names@),
            first_where(views.take(i as int), test_fn(t)) is None,
        decreases names.len() - i,
    {
        assert(views.take(i + 1).drop_last() =~= views.take(i as int));
        if passes_exec(t, names[i].as_str()) {
            assert(views.take(i + 1).last() == names@[i as int]@);
            proof {
                lemma_first_where_prefix(views, i + 1, test_fn(t));
            }
            return Some(i);
        }
        i += 1;
    }
    assert(views.take(names.len() as int) =~= views);
    None
}

// ---------------------------------------------------------------------------
// Default expression and idle group
// ---------------------------------------------------------------------------

/// The default expression. From scanned files only a name that says it is
/// the default will do (scanned names come in path order, so the first one
/// means nothing); from the model's own list `00_Default`, else the first.
pub open spec fn default_expression_spec(names: Seq<Seq<char>>, scanned: bool) -> Option<
    Seq<char>,
> {
    if scanned {
        match first_where(names, test_fn(NameTest::DefaultExpression)) {
            Some(i) => Some(names[i]),
            None => None,
        }
    } else {
        match first_where(names, test_fn(NameTest::Exactly("00_Default"))) {
            Some(i) => Some(names[i]),
            None => if names.len() > 0 {
                Some(names[0])
            } else {
                None
            },
        }
    }
}

pub fn default_expression(names: &[String], scanned: bool) -> (r: Option<String>)
    ensures
        match default_expression_spec(names_view(names@), scanned) {
            Some(n) => r matches Some(x) && x@ == n,
            None => r is None,
        },
{
    proof {
        lemma_first_where(names_view(names@), test_fn(NameTest::DefaultExpression));
        lemma_first_where(names_view(names@), test_fn(NameTest::Exactly("00_Default")));
    }
    if scanned {
        match first_passing(names, NameTest::DefaultExpression) {
            Some(i) => Some(names[i].clone()),
            None => None,
        }
    } else {
        let found = first_passing(names, NameTest::Exactly("00_Default"));
        if found.is_some() {
            let i = found.unwrap();
            return Some(names[i].clone());
        }
        if names.len() > 0 {
            Some(names[0].clone())
        } else {
            None
        }
    }
}

pub open spec fn group_names(groups: Seq<(Seq<char>, Seq<Seq<char>>)>) -> Seq<Seq<char>> {
    groups.map_values(|g: (Seq<char>, Seq<Seq<char>>)| g.0)
}

/// The idle group: exactly `Idle` when there is one, else the first group
/// that [`is_idle_group_spec`] accepts; and only if it holds a motion.
pub open spec fn idle_group_spec(groups: Seq<(Seq<char>, Seq<Seq<char>>)>) -> Option<Seq<char>> {
    let names = group_names(groups);
    let pick = match first_where(names, test_fn(NameTest::Exactly("Idle"))) {
        Some(i) => Some(i),
        None => first_where(names, test_fn(NameTest::IdleGroup)),
    };
    match pick {
        Some(i) => if groups[i].1.len() > 0 {
            Some(groups[i].0)
        } else {
            None
        },
        None => None,
    }
}

fn group_name_list(groups: &[(String, Vec<String>)]) -> (r: Vec<String>)
    ensures
        names_view(r@) == group_names(groups_view(groups@)),
{
    let mut r: Vec<String> = Vec::new();
    let mut i: usize = 0;
    while i < groups.len()
        invariant
            i <= groups.len(),
            names_view(r@) == group_names(groups_view(groups@)).take(i as int),
        decreases groups.len() - i,
    {
        let ghost before = r@;
        let name = groups[i].0.clone();
        r.push(name);
        assert(r@ == before.push(name));
        assert(names_view(r@) =~= names_view(before).push(name@));
        assert(group_names(groups_view(groups@)).take(i + 1) =~= group_names(
            groups_view(groups@),
        ).take(i as int).push(groups@[i as int].0@));
        i += 1;
    }
    assert(group_names(groups_view(groups@)).take(groups.len() as int) =~= group_names(
        groups_view(groups@),
    ));
    r
}

/// The looping idle motion: the first motion of the idle group.
pub fn idle_binding(groups: &[(String, Vec<String>)]) -> (r: Option<Live2dMotionBinding>)
    ensures
        match idle_group_spec(groups_view(groups@)) {
            Some(g) => r matches Some(b) && b.group@ == g && b.index == 0 && b.loop_motion,
            None => r is None,
        },
{
    let names = group_name_list(groups);
    let exact = first_passing(names.as_slice(), NameTest::Exactly("Idle"));
    let pick = if exact.is_some() {
        exact
    } else {
        first_passing(names.as_slice(), NameTest::IdleGroup)
    };
    if pick.is_none() {
        return None;
    }
    let i = pick.unwrap();
    proof {
        lemma_first_where(names_view(names@), test_fn(NameTest::Exactly("Idle")));
        lemma_first_where(names_view(names@), test_fn(NameTest::IdleGroup));
    }
    if groups[i].1.len() > 0 {
        Some(Live2dMotionBinding { group: groups[i].0.clone(), index: 0, loop_motion: true })
    } else {
        None
    }
}

// ---------------------------------------------------------------------------
// Expression bindings
// ---------------------------------------------------------------------------

/// Emotion -> expression, in rule order: for each rule the first expression
/// that hits it; rules that no expression hits are left out.
pub open spec fn expression_bindings_spec(
    names: Seq<Seq<char>>,
    rules: Seq<(Seq<char>, Seq<char>)>,
) -> Seq<(Seq<char>, Seq<char>)>
    decreases rules.len(),
{
    if rules.len() == 0 {
        seq![]
    } else {
        let prev = expression_bindings_spec(names, rules.drop_last());
        let rule = rules.last();
        match first_where(names, |n: Seq<char>| hits_rule(ascii_lower_seq(n), rule.1)) {
            Some(i) => prev.push((rule.0, names[i])),
            None => prev,
        }
    }
}

pub open spec fn pair_views(v: Seq<(String, String)>) -> Seq<(Seq<char>, Seq<char>)> {
    v.map_values(|p: (String, String)| (p.0@, p.1@))
}

pub fn expression_bindings(names: &[String]) -> (r: Vec<(String, String)>)
    ensures
        pair_views(r@) == expression_bindings_spec(names_view(names@), rules_view(EXPRESSION_RULES@)),
{
    let ghost rules = rules_view(EXPRESSION_RULES@);
    let mut r: Vec<(String, String)> = Vec::new();
    let mut k: usize = 0;
    while k < EXPRESSION_RULES.len()
        invariant
            k <= EXPRESSION_RULES@.len(),
            rules == rules_view(EXPRESSION_RULES@),
            pair_views(r@) == expression_bindings_spec(names_view(names@), rules.take(k as int)),
        decreases EXPRESSION_RULES.len() - k,
    {
        let (emotion, rule) = EXPRESSION_RULES[k];
        assert(rules.take(k + 1).drop_last() =~= rules.take(k as int));
        assert(rules.take(k + 1).last() == (emotion@, rule@));
        assert(test_fn(NameTest::Keywords(rule)) =~= (|n: Seq<char>| hits_rule(ascii_lower_seq(n), rule@)));
        let found = first_passing(names, NameTest::Keywords(rule));
        if found.is_some() {
            let i = found.unwrap();
            proof {
                lemma_first_where(names_view(names@), test_fn(NameTest::Keywords(rule)));
            }
            r.push((owned(emotion), names[i].clone()));
            assert(pair_views(r@) =~= expression_bindings_spec(
                names_view(names@),
                rules.take(k + 1),
            ));
        }
        k += 1;
    }
    assert(rules.take(EXPRESSION_RULES@.len() as int) =~= rules);
    r
}

// ---------------------------------------------------------------------------
// Motion bindings
// ---------------------------------------------------------------------------

/// The order `String` sorts by: lexicographic by code point.
pub open spec fn name_lt(a: Seq<char>, b: Seq<char>) -> bool {
    exists|k: int| #[trigger] first_difference(a, b, k)
}

/// `a` and `b` agree before `k`, and at `k` `a` is smaller (or ends first).
pub open spec fn first_difference(a: Seq<char>, b: Seq<char>, k: int) -> bool {
    &&& 0 <= k <= a.len()
    &&& k <= b.len()
    &&& a.take(k) == b.take(k)
    &&& ((k == a.len() && k < b.len()) || (k < a.len() && k < b.len() && (a[k] as int) < (
        b[k] as int)))
}

/// [`name_lt`] is transitive.
pub proof fn lemma_name_lt_transitive(a: Seq<char>, b: Seq<char>, c: Seq<char>)
    requires
        name_lt(a, b),
        name_lt(b, c),
    ensures
        name_lt(a, c),
{
    let k1 = choose|k: int| #[trigger] first_difference(a, b, k);
    let k2 = choose|k: int| #[trigger] first_difference(b, c, k);
    let k = if k1 < k2 {
        k1
    } else {
        k2
    };
    assert forall|j: int| 0 <= j < k implies a[j] == c[j] by {
        assert(a.take(k1)[j] == b.take(k1)[j]);
        assert(b.take(k2)[j] == c.take(k2)[j]);
    }
    assert(a.take(k) =~= c.take(k));
    if k1 < k2 {
        if k1 < a.len() {
            assert(b.take(k2)[k1] == c.take(k2)[k1]);
        }
    } else if k2 < k1 {
        assert(a.take(k1)[k2] == b.take(k1)[k2]);
    }
    assert(first_difference(a, c, k));
}

/// Of two different names one sorts before the other.
pub proof fn lemma_name_lt_total(a: Seq<char>, b: Seq<char>)
    ensures
        a == b || name_lt(a, b) || name_lt(b, a),
{
    assert(a.take(0) =~= b.take(0));
    lemma_name_lt_total_from(a, b, 0);
}

proof fn lemma_name_lt_total_from(a: Seq<char>, b: Seq<char>, n: int)
    requires
        0 <= n <= a.len(),
        n <= b.len(),
        a.take(n) == b.take(n),
    ensures
        a == b || name_lt(a, b) || name_lt(b, a),
    decreases a.len() - n,
{
    if n == a.len() && n == b.len() {
        assert(a =~= a.take(n));
        assert(b =~= b.take(n));
    } else if n == a.len() {
        assert(first_difference(a, b, n));
    } else if n == b.len() {
        assert(first_difference(b, a, n));
    } else if a[n] != b[n] {
        if (a[n] as int) < (b[n] as int) {
            assert(first_difference(a, b, n));
        } else {
            assert(first_difference(b, a, n));
        }
    } else {
        assert(a.take(n + 1) =~= a.take(n).push(a[n]));
        assert(b.take(n + 1) =~= b.take(n).push(b[n]));
        lemma_name_lt_total_from(a, b, n + 1);
    }
}

/// A name is never smaller than itself.
pub proof fn lemma_name_lt_irreflexive(a: Seq<char>)
    ensures
        !name_lt(a, a),
{
}

pub fn chars_lt(a: &[char], b: &[char]) -> (r: bool)
    ensures
        r == name_lt(a@, b@),
{
    let mut i: usize = 0;
    while i < a.len() && i < b.len() && a[i] == b[i]
        invariant
            i <= a.len(),
            i <= b.len(),
            a@.take(i as int) == b@.take(i as int),
        decreases a.len() - i,
    {
        assert(a@.take(i + 1) =~= a@.take(i as int).push(a@[i as int]));
        assert(b@.take(i + 1) =~= b@.take(i as int).push(b@[i as int]));
        i += 1;
    }
    let r = if i == a.len() {
        i < b.len()
    } else if i == b.len() {
        false
    } else {
        a[i] < b[i]
    };
    if r {
        assert(first_difference(a@, b@, i as int));
    } else {
        assert forall|k: int| !first_difference(a@, b@, k) by {
            if first_difference(a@, b@, k) {
                if k < i {
                    assert(a@.take(i as int)[k] == b@.take(i as int)[k]);
                } else if k > i {
                    assert(a@.take(k)[i as int] == b@.take(k)[i as int]);
                }
            }
        }
    }
    r
}

pub fn str_lt(a: &str, b: &str) -> (r: bool)
    ensures
        r == name_lt(a@, b@),
{
    let va = chars_of(a);
    let vb = chars_of(b);
    chars_lt(va.as_slice(), vb.as_slice())
}

/// Which motion of a group fits a rule: the first file whose path hits it;
/// else, when the group's own name hits it, the group's first motion.
pub open spec fn motion_index_spec(name: Seq<char>, files: Seq<Seq<char>>, rule: Seq<char>) -> Option<
    int,
> {
    match first_where(files, |f: Seq<char>| hits_rule(ascii_lower_seq(f), rule)) {
        Some(i) => Some(i),
        None => if hits_rule(ascii_lower_seq(name), rule) {
            Some(0)
        } else {
            None
        },
    }
}

/// A group may react to an emotion when it is neither the idle group nor
/// `Background`, holds a motion, and fits the rule.
pub open spec fn motion_candidate(group: (Seq<char>, Seq<Seq<char>>), rule: Seq<char>) -> bool {
    &&& !is_idle_group_spec(group.0)
    &&& group.0 != "Background"@
    &&& group.1.len() > 0
    &&& motion_index_spec(group.0, group.1, rule) is Some
}

/// The candidate group with the smallest name (the first in name order).
pub open spec fn motion_choice(groups: Seq<(Seq<char>, Seq<Seq<char>>)>, rule: Seq<char>) -> Option<
    int,
>
    decreases groups.len(),
{
    if groups.len() == 0 {
        None
    } else {
        let prev = motion_choice(groups.drop_last(), rule);
        if motion_candidate(groups.last(), rule) && (prev is None || name_lt(
            groups.last().0,
            groups[prev.unwrap()].0,
        )) {
            Some(groups.len() - 1)
        } else {
            prev
        }
    }
}

/// [`motion_choice`] picks a candidate that no other candidate sorts
/// before, and picks nothing only when there is no candidate.
pub proof fn lemma_motion_choice(groups: Seq<(Seq<char>, Seq<Seq<char>>)>, rule: Seq<char>)
    ensures
        match motion_choice(groups, rule) {
            Some(g) => 0 <= g < groups.len() && motion_candidate(groups[g], rule) && forall|j: int|
                0 <= j < groups.len() && motion_candidate(groups[j], rule) ==> !name_lt(
                    groups[j].0,
                    groups[g].0,
                ),
            None => forall|j: int| 0 <= j < groups.len() ==> !motion_candidate(groups[j], rule),
        },
    decreases groups.len(),
{
    if groups.len() > 0 {
        let d = groups.drop_last();
        lemma_motion_choice(d, rule);
        assert forall|j: int| 0 <= j < d.len() implies d[j] == groups[j] by {}
        let prev = motion_choice(d, rule);
        let n = groups.len() - 1;
        if motion_candidate(groups.last(), rule) && (prev is None || name_lt(
            groups.last().0,
            groups[prev.unwrap()].0,
        )) {
            match prev {
                Some(p) => {
                    assert forall|j: int|
                        0 <= j < groups.len() && motion_candidate(groups[j], rule) implies !name_lt(
                        groups[j].0,
                        groups[n].0,
                    ) by {
                        if j == n {
                            lemma_name_lt_irreflexive(groups[n].0);
                        } else if name_lt(groups[j].0, groups[n].0) {
                            lemma_name_lt_transitive(groups[j].0, groups[n].0, groups[p].0);
                        }
                    }
                },
                None => {
                    assert forall|j: int|
                        0 <= j < groups.len() && motion_candidate(groups[j], rule) implies !name_lt(
                        groups[j].0,
                        groups[n].0,
                    ) by {
                        if j == n {
                            lemma_name_lt_irreflexive(groups[n].0);
                        }
                    }
                },
            }
        }
    }
}

pub fn motion_index(name: &str, files: &[String], rule: &'static str) -> (r: Option<usize>)
    ensures
        match motion_index_spec(name@, names_view(files@), rule@) {
            Some(i) => r == Some(i as usize),
            None => r is None,
        },
        r matches Some(x) ==> motion_index_spec(name@, names_view(files@), rule@) == Some(x as int),
{
    assert(test_fn(NameTest::Keywords(rule)) =~= (|f: Seq<char>| hits_rule(ascii_lower_seq(f), rule@)));
    assert(first_where(names_view(files@), test_fn(NameTest::Keywords(rule))) == first_where(
        names_view(files@),
        |f: Seq<char>| hits_rule(ascii_lower_seq(f), rule@),
    ));
    proof {
        lemma_first_where(names_view(files@), test_fn(NameTest::Keywords(rule)));
    }
    let found = first_passing(files, NameTest::Keywords(rule));
    if found.is_some() {
        return found;
    }
    if passes_exec(NameTest::Keywords(rule), name) {
        Some(0)
    } else {
        None
    }
}

fn is_motion_candidate(group: &(String, Vec<String>), rule: &'static str) -> (r: bool)
    ensures
        r == motion_candidate((group.0@, names_view(group.1@)), rule@),
{
    if is_idle_group_name(group.0.as_str()) || str_eq(group.0.as_str(), "Background") {
        return false;
    }
    if group.1.len() == 0 {
        return false;
    }
    motion_index(group.0.as_str(), group.1.as_slice(), rule).is_some()
}

/// The group bound to a rule.
pub fn choose_motion_group(groups: &[(String, Vec<String>)], rule: &'static str) -> (r: Option<
    usize,
>)
    ensures
        match motion_choice(groups_view(groups@), rule@) {
            Some(g) => r == Some(g as usize),
            None => r is None,
        },
{
    let ghost gv = groups_view(groups@);
    let mut best: Option<usize> = None;
    let mut i: usize = 0;
    while i < groups.len()
        invariant
            i <= groups.len(),
            gv == groups_view(groups@),
            match motion_choice(gv.take(i as int), rule@) {
                Some(g) => best == Some(g as usize),
                None => best is None,
            },
            best matches Some(b) ==> b < i,
        decreases groups.len() - i,
    {
        let ghost t = gv.take(i + 1);
        assert(t.drop_last() =~= gv.take(i as int));
        proof {
            lemma_motion_choice(gv.take(i as int), rule@);
            lemma_motion_choice(t, rule@);
        }
        assert(t.last() == (groups@[i as int].0@, names_view(groups@[i as int].1@)));
        if is_motion_candidate(&groups[i], rule) {
            let better = match best {
                None => true,
                Some(b) => {
                    assert(t[b as int] == gv[b as int]);
                    str_lt(groups[i].0.as_str(), groups[b].0.as_str())
                },
            };
            if better {
                best = Some(i);
            }
        }
        i += 1;
    }
    assert(gv.take(groups.len() as int) =~= gv);
    best
}

/// Emotion -> (group, motion index), in rule order; rules that no group
/// fits are left out.
pub open spec fn motion_bindings_spec(
    groups: Seq<(Seq<char>, Seq<Seq<char>>)>,
    rules: Seq<(Seq<char>, Seq<char>)>,
) -> Seq<(Seq<char>, Seq<char>, int)>
    decreases rules.len(),
{
    if rules.len() == 0 {
        seq![]
    } else {
        let prev = motion_bindings_spec(groups, rules.drop_last());
        let rule = rules.last();
        match motion_choice(groups, rule.1) {
            Some(g) => prev.push(
                (rule.0, groups[g].0, motion_index_spec(groups[g].0, groups[g].1, rule.1).unwrap()),
            ),
            None => prev,
        }
    }
}

pub open spec fn binding_views(v: Seq<(String, Live2dMotionBinding)>) -> Seq<(Seq<char>, Seq<char>, int)> {
    v.map_values(|p: (String, Live2dMotionBinding)| (p.0@, p.1.group@, p.1.index as int))
}

pub fn motion_bindings(groups: &[(String, Vec<String>)]) -> (r: Vec<(String, Live2dMotionBinding)>)
    ensures
        binding_views(r@) == motion_bindings_spec(groups_view(groups@), rules_view(MOTION_RULES@)),
        forall|i: int| 0 <= i < r@.len() ==> !(#[trigger] r@[i]).1.loop_motion,
{
    let ghost rules = rules_view(MOTION_RULES@);
    let ghost gv = groups_view(groups@);
    let mut r: Vec<(String, Live2dMotionBinding)> = Vec::new();
    let mut k: usize = 0;
    while k < MOTION_RULES.len()
        invariant
            k <= MOTION_RULES@.len(),
            rules == rules_view(MOTION_RULES@),
            gv == groups_view(groups@),
            binding_views(r@) == motion_bindings_spec(gv, rules.take(k as int)),
            forall|i: int| 0 <= i < r@.len() ==> !(#[trigger] r@[i]).1.loop_motion,
        decreases MOTION_RULES.len() - k,
    {
        let (emotion, rule) = MOTION_RULES[k];
        assert(rules.take(k + 1).drop_last() =~= rules.take(k as int));
        assert(rules.take(k + 1).last() == (emotion@, rule@));
        let chosen = choose_motion_group(groups, rule);
        if chosen.is_some() {
            let g = chosen.unwrap();
            proof {
                lemma_motion_choice(gv, rule@);
            }
            assert(gv[g as int] == (groups@[g as int].0@, names_view(groups@[g as int].1@)));
            let idx = motion_index(groups[g].0.as_str(), groups[g].1.as_slice(), rule);
            let index = idx.unwrap();
            let ghost before = r@;
            let entry = (
                owned(emotion),
                Live2dMotionBinding { group: groups[g].0.clone(), index, loop_motion: false },
            );
            r.push(entry);
            assert(r@ == before.push(entry));
            assert(binding_views(r@) =~= binding_views(before).push(
                (emotion@, groups@[g as int].0@, index as int),
            ));
            assert(motion_index_spec(gv[g as int].0, gv[g as int].1, rule@) == Some(index as int));
            assert(binding_views(r@) =~= motion_bindings_spec(gv, rules.take(k + 1)));
        }
        k += 1;
    }
    assert(rules.take(MOTION_RULES@.len() as int) =~= rules);
    r
}

// ---------------------------------------------------------------------------
// All of it
// ---------------------------------------------------------------------------

/// The variant an import starts a model with, from its expression names
/// (and whether they were scanned from files rather than declared) and its
/// motion groups.
pub fn auto_bindings(
    model: String,
    expressions: &[String],
    scanned_expressions: bool,
    groups: &[(String, Vec<String>)],
) -> (r: Live2dVariant)
    ensures
        r.model == model,
        match default_expression_spec(names_view(expressions@), scanned_expressions) {
            Some(n) => r.default_expression matches Some(x) && x@ == n,
            None => r.default_expression is None,
        },
        pair_views(r.expressions@) == expression_bindings_spec(
            names_view(expressions@),
            rules_view(EXPRESSION_RULES@),
        ),
        binding_views(r.motions@) == motion_bindings_spec(
            groups_view(groups@),
            rules_view(MOTION_RULES@),
        ),
        match idle_group_spec(groups_view(groups@)) {
            Some(g) => r.idle matches Some(b) && b.group@ == g && b.index == 0 && b.loop_motion,
            None => r.idle is None,
        },
        r.eye_blink matches Some(e) && e.left@ == EYE_LEFT_PARAMETER@ && e.right@ == EYE_RIGHT_PARAMETER@,
        r.focus_anchor is None,
        r.lip_sync matches Some(l) && l.parameter@ == MOUTH_PARAMETER@ && l.gain_bits == UNIT_GAIN_BITS,
        r.wf(),
{
    let r = Live2dVariant {
        model,
        default_expression: default_expression(expressions, scanned_expressions),
        expressions: expression_bindings(expressions),
        motions: motion_bindings(groups),
        idle: idle_binding(groups),
        eye_blink: Some(
            Live2dEyeBlinkBinding { left: owned(EYE_LEFT_PARAMETER), right: owned(EYE_RIGHT_PARAMETER) },
        ),
        focus_anchor: None,
        lip_sync: Some(Live2dParameterBinding { parameter: owned(MOUTH_PARAMETER), gain_bits: UNIT_GAIN_BITS }),
    };
    proof {
        lemma_auto_bindings_wf(r.expressions@, r.motions@, names_view(expressions@), groups_view(groups@));
    }
    r
}

} // verus!

verus! {

/// The emotions of [`EXPRESSION_RULES`] are all different.
proof fn lemma_expression_rule_names_distinct()
    ensures
        forall|i: int, j: int| 0 <= i < j < EXPRESSION_RULES@.len() ==> #[trigger] EXPRESSION_RULES@[i].0@ != #[trigger] EXPRESSION_RULES@[j].0@,
{
    reveal_strlit("兴奋");
    reveal_strlit("厌恶");
    reveal_strlit("哭泣");
    reveal_strlit("害怕");
    reveal_strlit("害羞");
    reveal_strlit("平静");
    reveal_strlit("心动");
    reveal_strlit("惊讶");
    reveal_strlit("慌张");
    reveal_strlit("担心");
    reveal_strlit("无奈");
    reveal_strlit("正常");
    reveal_strlit("生气");
    reveal_strlit("疑惑");
    reveal_strlit("紧张");
    reveal_strlit("自信");
    reveal_strlit("认真");
    reveal_strlit("调皮");
    reveal_strlit("难为情");
    reveal_strlit("高兴");
    let s = seq!["正常"@, "平静"@, "高兴"@, "兴奋"@, "生气"@, "害羞"@, "疑惑"@, "哭泣"@, "惊讶"@, "厌恶"@, "担心"@, "认真"@, "紧张"@, "害怕"@, "慌张"@, "无奈"@, "心动"@, "调皮"@, "难为情"@, "自信"@];
    assert(EXPRESSION_RULES@[0].0 == "正常");
    assert(EXPRESSION_RULES@[1].0 == "平静");
    assert(EXPRESSION_RULES@[2].0 == "高兴");
    assert(EXPRESSION_RULES@[3].0 == "兴奋");
    assert(EXPRESSION_RULES@[4].0 == "生气");
    assert(EXPRESSION_RULES@[5].0 == "害羞");
    assert(EXPRESSION_RULES@[6].0 == "疑惑");
    assert(EXPRESSION_RULES@[7].0 == "哭泣");
    assert(EXPRESSION_RULES@[8].0 == "惊讶");
    assert(EXPRESSION_RULES@[9].0 == "厌恶");
    assert(EXPRESSION_RULES@[10].0 == "担心");
    assert(EXPRESSION_RULES@[11].0 == "认真");
    assert(EXPRESSION_RULES@[12].0 == "紧张");
    assert(EXPRESSION_RULES@[13].0 == "害怕");
    assert(EXPRESSION_RULES@[14].0 == "慌张");
    assert(EXPRESSION_RULES@[15].0 == "无奈");
    assert(EXPRESSION_RULES@[16].0 == "心动");
    assert(EXPRESSION_RULES@[17].0 == "调皮");
    assert(EXPRESSION_RULES@[18].0 == "难为情");
    assert(EXPRESSION_RULES@[19].0 == "自信");
    assert forall|i: int| 0 <= i < EXPRESSION_RULES@.len() implies EXPRESSION_RULES@[i].0@ == s[i] by {
        if i == 0 {
        } else if i == 1 {
        } else if i == 2 {
        } else if i == 3 {
        } else if i == 4 {
        } else if i == 5 {
        } else if i == 6 {
        } else if i == 7 {
        } else if i == 8 {
        } else if i == 9 {
        } else if i == 10 {
        } else if i == 11 {
        } else if i == 12 {
        } else if i == 13 {
        } else if i == 14 {
        } else if i == 15 {
        } else if i == 16 {
        } else if i == 17 {
        } else if i == 18 {
        } else if i == 19 {
        }
    }
    assert forall|i: int, j: int| 0 <= i < j < 20 implies s[i] != s[j] by {
        if i == 0 {
            if j == 1 {
                assert(s[0][0] != s[1][0]);
            } else if j == 2 {
                assert(s[0][0] != s[2][0]);
            } else if j == 3 {
                assert(s[0][0] != s[3][0]);
            } else if j == 4 {
                assert(s[0][0] != s[4][0]);
            } else if j == 5 {
                assert(s[0][0] != s[5][0]);
            } else if j == 6 {
                assert(s[0][0] != s[6][0]);
            } else if j == 7 {
                assert(s[0][0] != s[7][0]);
            } else if j == 8 {
                assert(s[0][0] != s[8][0]);
            } else if j == 9 {
                assert(s[0][0] != s[9][0]);
            } else if j == 10 {
                assert(s[0][0] != s[10][0]);
            } else if j == 11 {
                assert(s[0][0] != s[11][0]);
            } else if j == 12 {
                assert(s[0][0] != s[12][0]);
            } else if j == 13 {
                assert(s[0][0] != s[13][0]);
            } else if j == 14 {
                assert(s[0][0] != s[14][0]);
            } else if j == 15 {
                assert(s[0][0] != s[15][0]);
            } else if j == 16 {
                assert(s[0][0] != s[16][0]);
            } else if j == 17 {
                assert(s[0][0] != s[17][0]);
            } else if j == 18 {
                assert(s[0].len() != s[18].len());
            } else if j == 19 {
                assert(s[0][0] != s[19][0]);
            }
        } else if i == 1 {
            if j == 2 {
                assert(s[1][0] != s[2][0]);
            } else if j == 3 {
                assert(s[1][0] != s[3][0]);
            } else if j == 4 {
                assert(s[1][0] != s[4][0]);
            } else if j == 5 {
                assert(s[1][0] != s[5][0]);
            } else if j == 6 {
                assert(s[1][0] != s[6][0]);
            } else if j == 7 {
                assert(s[1][0] != s[7][0]);
            } else if j == 8 {
                assert(s[1][0] != s[8][0]);
            } else if j == 9 {
                assert(s[1][0] != s[9][0]);
            } else if j == 10 {
                assert(s[1][0] != s[10][0]);
            } else if j == 11 {
                assert(s[1][0] != s[11][0]);
            } else if j == 12 {
                assert(s[1][0] != s[12][0]);
            } else if j == 13 {
                assert(s[1][0] != s[13][0]);
            } else if j == 14 {
                assert(s[1][0] != s[14][0]);
            } else if j == 15 {
                assert(s[1][0] != s[15][0]);
            } else if j == 16 {
                assert(s[1][0] != s[16][0]);
            } else if j == 17 {
                assert(s[1][0] != s[17][0]);
            } else if j == 18 {
                assert(s[1].len() != s[18].len());
            } else if j == 19 {
                assert(s[1][0] != s[19][0]);
            }
        } else if i == 2 {
            if j == 3 {
                assert(s[2][0] != s[3][0]);
            } else if j == 4 {
                assert(s[2][0] != s[4][0]);
            } else if j == 5 {
                assert(s[2][0] != s[5][0]);
            } else if j == 6 {
                assert(s[2][0] != s[6][0]);
            } else if j == 7 {
                assert(s[2][0] != s[7][0]);
            } else if j == 8 {
                assert(s[2][0] != s[8][0]);
            } else if j == 9 {
                assert(s[2][0] != s[9][0]);
            } else if j == 10 {
                assert(s[2][0] != s[10][0]);
            } else if j == 11 {
                assert(s[2][0] != s[11][0]);
            } else if j == 12 {
                assert(s[2][0] != s[12][0]);
            } else if j == 13 {
                assert(s[2][0] != s[13][0]);
            } else if j == 14 {
                assert(s[2][0] != s[14][0]);
            } else if j == 15 {
                assert(s[2][0] != s[15][0]);
            } else if j == 16 {
                assert(s[2][0] != s[16][0]);
            } else if j == 17 {
                assert(s[2][0] != s[17][0]);
            } else if j == 18 {
                assert(s[2].len() != s[18].len());
            } else if j == 19 {
                assert(s[2][0] != s[19][0]);
            }
        } else if i == 3 {
            if j == 4 {
                assert(s[3][0] != s[4][0]);
            } else if j == 5 {
                assert(s[3][0] != s[5][0]);
            } else if j == 6 {
                assert(s[3][0] != s[6][0]);
            } else if j == 7 {
                assert(s[3][0] != s[7][0]);
            } else if j == 8 {
                assert(s[3][0] != s[8][0]);
            } else if j == 9 {
                assert(s[3][0] != s[9][0]);
            } else if j == 10 {
                assert(s[3][0] != s[10][0]);
            } else if j == 11 {
                assert(s[3][0] != s[11][0]);
            } else if j == 12 {
                assert(s[3][0] != s[12][0]);
            } else if j == 13 {
                assert(s[3][0] != s[13][0]);
            } else if j == 14 {
                assert(s[3][0] != s[14][0]);
            } else if j == 15 {
                assert(s[3][0] != s[15][0]);
            } else if j == 16 {
                assert(s[3][0] != s[16][0]);
            } else if j == 17 {
                assert(s[3][0] != s[17][0]);
            } else if j == 18 {
                assert(s[3].len() != s[18].len());
            } else if j == 19 {
                assert(s[3][0] != s[19][0]);
            }
        } else if i == 4 {
            if j == 5 {
                assert(s[4][0] != s[5][0]);
            } else if j == 6 {
                assert(s[4][0] != s[6][0]);
            } else if j == 7 {
                assert(s[4][0] != s[7][0]);
            } else if j == 8 {
                assert(s[4][0] != s[8][0]);
            } else if j == 9 {
                assert(s[4][0] != s[9][0]);
            } else if j == 10 {
                assert(s[4][0] != s[10][0]);
            } else if j == 11 {
                assert(s[4][0] != s[11][0]);
            } else if j == 12 {
                assert(s[4][0] != s[12][0]);
            } else if j == 13 {
                assert(s[4][0] != s[13][0]);
            } else if j == 14 {
                assert(s[4][0] != s[14][0]);
            } else if j == 15 {
                assert(s[4][0] != s[15][0]);
            } else if j == 16 {
                assert(s[4][0] != s[16][0]);
            } else if j == 17 {
                assert(s[4][0] != s[17][0]);
            } else if j == 18 {
                assert(s[4].len() != s[18].len());
            } else if j == 19 {
                assert(s[4][0] != s[19][0]);
            }
        } else if i == 5 {
            if j == 6 {
                assert(s[5][0] != s[6][0]);
            } else if j == 7 {
                assert(s[5][0] != s[7][0]);
            } else if j == 8 {
                assert(s[5][0] != s[8][0]);
            } else if j == 9 {
                assert(s[5][0] != s[9][0]);
            } else if j == 10 {
                assert(s[5][0] != s[10][0]);
            } else if j == 11 {
                assert(s[5][0] != s[11][0]);
            } else if j == 12 {
                assert(s[5][0] != s[12][0]);
            } else if j == 13 {
                assert(s[5][1] != s[13][1]);
            } else if j == 14 {
                assert(s[5][0] != s[14][0]);
            } else if j == 15 {
                assert(s[5][0] != s[15][0]);
            } else if j == 16 {
                assert(s[5][0] != s[16][0]);
            } else if j == 17 {
                assert(s[5][0] != s[17][0]);
            } else if j == 18 {
                assert(s[5].len() != s[18].len());
            } else if j == 19 {
                assert(s[5][0] != s[19][0]);
            }
        } else if i == 6 {
            if j == 7 {
                assert(s[6][0] != s[7][0]);
            } else if j == 8 {
                assert(s[6][0] != s[8][0]);
            } else if j == 9 {
                assert(s[6][0] != s[9][0]);
            } else if j == 10 {
                assert(s[6][0] != s[10][0]);
            } else if j == 11 {
                assert(s[6][0] != s[11][0]);
            } else if j == 12 {
                assert(s[6][0] != s[12][0]);
            } else if j == 13 {
                assert(s[6][0] != s[13][0]);
            } else if j == 14 {
                assert(s[6][0] != s[14][0]);
            } else if j == 15 {
                assert(s[6][0] != s[15][0]);
            } else if j == 16 {
                assert(s[6][0] != s[16][0]);
            } else if j == 17 {
                assert(s[6][0] != s[17][0]);
            } else if j == 18 {
                assert(s[6].len() != s[18].len());
            } else if j == 19 {
                assert(s[6][0] != s[19][0]);
            }
        } else if i == 7 {
            if j == 8 {
                assert(s[7][0] != s[8][0]);
            } else if j == 9 {
                assert(s[7][0] != s[9][0]);
            } else if j == 10 {
                assert(s[7][0] != s[10][0]);
            } else if j == 11 {
                assert(s[7][0] != s[11][0]);
            } else if j == 12 {
                assert(s[7][0] != s[12][0]);
            } else if j == 13 {
                assert(s[7][0] != s[13][0]);
            } else if j == 14 {
                assert(s[7][0] != s[14][0]);
            } else if j == 15 {
                assert(s[7][0] != s[15][0]);
            } else if j == 16 {
                assert(s[7][0] != s[16][0]);
            } else if j == 17 {
                assert(s[7][0] != s[17][0]);
            } else if j == 18 {
                assert(s[7].len() != s[18].len());
            } else if j == 19 {
                assert(s[7][0] != s[19][0]);
            }
        } else if i == 8 {
            if j == 9 {
                assert(s[8][0] != s[9][0]);
            } else if j == 10 {
                assert(s[8][0] != s[10][0]);
            } else if j == 11 {
                assert(s[8][0] != s[11][0]);
            } else if j == 12 {
                assert(s[8][0] != s[12][0]);
            } else if j == 13 {
                assert(s[8][0] != s[13][0]);
            } else if j == 14 {
                assert(s[8][0] != s[14][0]);
            } else if j == 15 {
                assert(s[8][0] != s[15][0]);
            } else if j == 16 {
                assert(s[8][0] != s[16][0]);
            } else if j == 17 {
                assert(s[8][0] != s[17][0]);
            } else if j == 18 {
                assert(s[8].len() != s[18].len());
            } else if j == 19 {
                assert(s[8][0] != s[19][0]);
            }
        } else if i == 9 {
            if j == 10 {
                assert(s[9][0] != s[10][0]);
            } else if j == 11 {
                assert(s[9][0] != s[11][0]);
            } else if j == 12 {
                assert(s[9][0] != s[12][0]);
            } else if j == 13 {
                assert(s[9][0] != s[13][0]);
            } else if j == 14 {
                assert(s[9][0] != s[14][0]);
            } else if j == 15 {
                assert(s[9][0] != s[15][0]);
            } else if j == 16 {
                assert(s[9][0] != s[16][0]);
            } else if j == 17 {
                assert(s[9][0] != s[17][0]);
            } else if j == 18 {
                assert(s[9].len() != s[18].len());
            } else if j == 19 {
                assert(s[9][0] != s[19][0]);
            }
        } else if i == 10 {
            if j == 11 {
                assert(s[10][0] != s[11][0]);
            } else if j == 12 {
                assert(s[10][0] != s[12][0]);
            } else if j == 13 {
                assert(s[10][0] != s[13][0]);
            } else if j == 14 {
                assert(s[10][0] != s[14][0]);
            } else if j == 15 {
                assert(s[10][0] != s[15][0]);
            } else if j == 16 {
                assert(s[10][0] != s[16][0]);
            } else if j == 17 {
                assert(s[10][0] != s[17][0]);
            } else if j == 18 {
                assert(s[10].len() != s[18].len());
            } else if j == 19 {
                assert(s[10][0] != s[19][0]);
            }
        } else if i == 11 {
            if j == 12 {
                assert(s[11][0] != s[12][0]);
            } else if j == 13 {
                assert(s[11][0] != s[13][0]);
            } else if j == 14 {
                assert(s[11][0] != s[14][0]);
            } else if j == 15 {
                assert(s[11][0] != s[15][0]);
            } else if j == 16 {
                assert(s[11][0] != s[16][0]);
            } else if j == 17 {
                assert(s[11][0] != s[17][0]);
            } else if j == 18 {
                assert(s[11].len() != s[18].len());
            } else if j == 19 {
                assert(s[11][0] != s[19][0]);
            }
        } else if i == 12 {
            if j == 13 {
                assert(s[12][0] != s[13][0]);
            } else if j == 14 {
                assert(s[12][0] != s[14][0]);
            } else if j == 15 {
                assert(s[12][0] != s[15][0]);
            } else if j == 16 {
                assert(s[12][0] != s[16][0]);
            } else if j == 17 {
                assert(s[12][0] != s[17][0]);
            } else if j == 18 {
                assert(s[12].len() != s[18].len());
            } else if j == 19 {
                assert(s[12][0] != s[19][0]);
            }
        } else if i == 13 {
            if j == 14 {
                assert(s[13][0] != s[14][0]);
            } else if j == 15 {
                assert(s[13][0] != s[15][0]);
            } else if j == 16 {
                assert(s[13][0] != s[16][0]);
            } else if j == 17 {
                assert(s[13][0] != s[17][0]);
            } else if j == 18 {
                assert(s[13].len() != s[18].len());
            } else if j == 19 {
                assert(s[13][0] != s[19][0]);
            }
        } else if i == 14 {
            if j == 15 {
                assert(s[14][0] != s[15][0]);
            } else if j == 16 {
                assert(s[14][0] != s[16][0]);
            } else if j == 17 {
                assert(s[14][0] != s[17][0]);
            } else if j == 18 {
                assert(s[14].len() != s[18].len());
            } else if j == 19 {
                assert(s[14][0] != s[19][0]);
            }
        } else if i == 15 {
            if j == 16 {
                assert(s[15][0] != s[16][0]);
            } else if j == 17 {
                assert(s[15][0] != s[17][0]);
            } else if j == 18 {
                assert(s[15].len() != s[18].len());
            } else if j == 19 {
                assert(s[15][0] != s[19][0]);
            }
        } else if i == 16 {
            if j == 17 {
                assert(s[16][0] != s[17][0]);
            } else if j == 18 {
                assert(s[16].len() != s[18].len());
            } else if j == 19 {
                assert(s[16][0] != s[19][0]);
            }
        } else if i == 17 {
            if j == 18 {
                assert(s[17].len() != s[18].len());
            } else if j == 19 {
                assert(s[17][0] != s[19][0]);
            }
        } else if i == 18 {
            if j == 19 {
                assert(s[18].len() != s[19].len());
            }
        }
    }
}

/// The emotions of [`MOTION_RULES`] are all different.
proof fn lemma_motion_rule_names_distinct()
    ensures
        forall|i: int, j: int| 0 <= i < j < MOTION_RULES@.len() ==> #[trigger] MOTION_RULES@[i].0@ != #[trigger] MOTION_RULES@[j].0@,
{
    reveal_strlit("兴奋");
    reveal_strlit("担心");
    reveal_strlit("晕");
    reveal_strlit("生气");
    reveal_strlit("疑惑");
    reveal_strlit("高兴");
    let s = seq!["高兴"@, "兴奋"@, "生气"@, "疑惑"@, "担心"@, "晕"@];
    assert(MOTION_RULES@[0].0 == "高兴");
    assert(MOTION_RULES@[1].0 == "兴奋");
    assert(MOTION_RULES@[2].0 == "生气");
    assert(MOTION_RULES@[3].0 == "疑惑");
    assert(MOTION_RULES@[4].0 == "担心");
    assert(MOTION_RULES@[5].0 == "晕");
    assert forall|i: int| 0 <= i < MOTION_RULES@.len() implies MOTION_RULES@[i].0@ == s[i] by {
        if i == 0 {
        } else if i == 1 {
        } else if i == 2 {
        } else if i == 3 {
        } else if i == 4 {
        } else if i == 5 {
        }
    }
    assert forall|i: int, j: int| 0 <= i < j < 6 implies s[i] != s[j] by {
        if i == 0 {
            if j == 1 {
                assert(s[0][0] != s[1][0]);
            } else if j == 2 {
                assert(s[0][0] != s[2][0]);
            } else if j == 3 {
                assert(s[0][0] != s[3][0]);
            } else if j == 4 {
                assert(s[0][0] != s[4][0]);
            } else if j == 5 {
                assert(s[0].len() != s[5].len());
            }
        } else if i == 1 {
            if j == 2 {
                assert(s[1][0] != s[2][0]);
            } else if j == 3 {
                assert(s[1][0] != s[3][0]);
            } else if j == 4 {
                assert(s[1][0] != s[4][0]);
            } else if j == 5 {
                assert(s[1].len() != s[5].len());
            }
        } else if i == 2 {
            if j == 3 {
                assert(s[2][0] != s[3][0]);
            } else if j == 4 {
                assert(s[2][0] != s[4][0]);
            } else if j == 5 {
                assert(s[2].len() != s[5].len());
            }
        } else if i == 3 {
            if j == 4 {
                assert(s[3][0] != s[4][0]);
            } else if j == 5 {
                assert(s[3].len() != s[5].len());
            }
        } else if i == 4 {
            if j == 5 {
                assert(s[4].len() != s[5].len());
            }
        }
    }
}

} // verus!

verus! {

/// Each key of these pairs occurs once.
pub open spec fn keys_unique<T>(v: Seq<(String, T)>) -> bool {
    forall|i: int, j: int| 0 <= i < j < v.len() ==> #[trigger] v[i].0@ != #[trigger] v[j].0@
}

impl Live2dVariant {
    /// Each emotion is bound to one expression and one motion at most.
    pub open spec fn wf(&self) -> bool {
        keys_unique(self.expressions@) && keys_unique(self.motions@)
    }
}

/// Rule names that occur once each.
pub open spec fn rule_names_distinct(rules: Seq<(Seq<char>, Seq<char>)>) -> bool {
    forall|a: int, b: int| 0 <= a < b < rules.len() ==> #[trigger] rules[a].0 != #[trigger] rules[b].0
}

proof fn lemma_expression_binding_keys(names: Seq<Seq<char>>, rules: Seq<(Seq<char>, Seq<char>)>)
    ensures
        forall|i: int| 0 <= i < expression_bindings_spec(names, rules).len() ==> exists|k: int|
            0 <= k < rules.len() && #[trigger] expression_bindings_spec(names, rules)[i].0 == rules[k].0,
        rule_names_distinct(rules) ==> forall|i: int, j: int|
            0 <= i < j < expression_bindings_spec(names, rules).len() ==> #[trigger] expression_bindings_spec(names, rules)[i].0
                != #[trigger] expression_bindings_spec(names, rules)[j].0,
    decreases rules.len(),
{
    if rules.len() > 0 {
        let d = rules.drop_last();
        lemma_expression_binding_keys(names, d);
        let prev = expression_bindings_spec(names, d);
        let out = expression_bindings_spec(names, rules);
        assert forall|i: int| 0 <= i < out.len() implies exists|k: int|
            0 <= k < rules.len() && #[trigger] out[i].0 == rules[k].0 by {
            if i < prev.len() {
                assert(out[i] == prev[i]);
                let k = choose|k: int| 0 <= k < d.len() && prev[i].0 == d[k].0;
                assert(d[k] == rules[k]);
            } else {
                assert(out[i].0 == rules[rules.len() - 1].0);
            }
        }
        if rule_names_distinct(rules) {
            assert(rule_names_distinct(d)) by {
                assert forall|a: int, b: int| 0 <= a < b < d.len() implies #[trigger] d[a].0 != #[trigger] d[b].0 by {
                    assert(d[a] == rules[a] && d[b] == rules[b]);
                }
            }
            assert forall|i: int, j: int| 0 <= i < j < out.len() implies #[trigger] out[i].0 != #[trigger] out[j].0 by {
                assert(out[i] == prev[i]);
                if j < prev.len() {
                    assert(out[j] == prev[j]);
                } else {
                    let k = choose|k: int| 0 <= k < d.len() && prev[i].0 == d[k].0;
                    assert(d[k] == rules[k]);
                    assert(out[j].0 == rules[rules.len() - 1].0);
                }
            }
        }
    }
}

proof fn lemma_motion_binding_keys(groups: Seq<(Seq<char>, Seq<Seq<char>>)>, rules: Seq<(Seq<char>, Seq<char>)>)
    ensures
        forall|i: int| 0 <= i < motion_bindings_spec(groups, rules).len() ==> exists|k: int|
            0 <= k < rules.len() && #[trigger] motion_bindings_spec(groups, rules)[i].0 == rules[k].0,
        rule_names_distinct(rules) ==> forall|i: int, j: int|
            0 <= i < j < motion_bindings_spec(groups, rules).len() ==> #[trigger] motion_bindings_spec(groups, rules)[i].0
                != #[trigger] motion_bindings_spec(groups, rules)[j].0,
    decreases rules.len(),
{
    if rules.len() > 0 {
        let d = rules.drop_last();
        lemma_motion_binding_keys(groups, d);
        let prev = motion_bindings_spec(groups, d);
        let out = motion_bindings_spec(groups, rules);
        assert forall|i: int| 0 <= i < out.len() implies exists|k: int|
            0 <= k < rules.len() && #[trigger] out[i].0 == rules[k].0 by {
            if i < prev.len() {
                assert(out[i] == prev[i]);
                let k = choose|k: int| 0 <= k < d.len() && prev[i].0 == d[k].0;
                assert(d[k] == rules[k]);
            } else {
                assert(out[i].0 == rules[rules.len() - 1].0);
            }
        }
        if rule_names_distinct(rules) {
            assert(rule_names_distinct(d)) by {
                assert forall|a: int, b: int| 0 <= a < b < d.len() implies #[trigger] d[a].0 != #[trigger] d[b].0 by {
                    assert(d[a] == rules[a] && d[b] == rules[b]);
                }
            }
            assert forall|i: int, j: int| 0 <= i < j < out.len() implies #[trigger] out[i].0 != #[trigger] out[j].0 by {
                assert(out[i] == prev[i]);
                if j < prev.len() {
                    assert(out[j] == prev[j]);
                } else {
                    let k = choose|k: int| 0 <= k < d.len() && prev[i].0 == d[k].0;
                    assert(d[k] == rules[k]);
                    assert(out[j].0 == rules[rules.len() - 1].0);
                }
            }
        }
    }
}

/// Every variant `auto_bindings` makes binds each emotion once.
proof fn lemma_auto_bindings_wf(expressions: Seq<(String, String)>, motions: Seq<(String, Live2dMotionBinding)>, names: Seq<Seq<char>>, groups: Seq<(Seq<char>, Seq<Seq<char>>)>)
    requires
        pair_views(expressions) == expression_bindings_spec(names, rules_view(EXPRESSION_RULES@)),
        binding_views(motions) == motion_bindings_spec(groups, rules_view(MOTION_RULES@)),
    ensures
        keys_unique(expressions),
        keys_unique(motions),
{
    lemma_expression_rule_names_distinct();
    lemma_motion_rule_names_distinct();
    let er = rules_view(EXPRESSION_RULES@);
    let mr = rules_view(MOTION_RULES@);
    assert(rule_names_distinct(er)) by {
        assert forall|a: int, b: int| 0 <= a < b < er.len() implies #[trigger] er[a].0 != #[trigger] er[b].0 by {
            assert(er[a].0 == EXPRESSION_RULES@[a].0@ && er[b].0 == EXPRESSION_RULES@[b].0@);
        }
    }
    assert(rule_names_distinct(mr)) by {
        assert forall|a: int, b: int| 0 <= a < b < mr.len() implies #[trigger] mr[a].0 != #[trigger] mr[b].0 by {
            assert(mr[a].0 == MOTION_RULES@[a].0@ && mr[b].0 == MOTION_RULES@[b].0@);
        }
    }
    lemma_expression_binding_keys(names, er);
    lemma_motion_binding_keys(groups, mr);
    assert forall|i: int, j: int| 0 <= i < j < expressions.len() implies #[trigger] expressions[i].0@ != #[trigger] expressions[j].0@ by {
        assert(pair_views(expressions)[i].0 == expressions[i].0@);
        assert(pair_views(expressions)[j].0 == expressions[j].0@);
    }
    assert forall|i: int, j: int| 0 <= i < j < motions.len() implies #[trigger] motions[i].0@ != #[trigger] motions[j].0@ by {
        assert(binding_views(motions)[i].0 == motions[i].0@);
        assert(binding_views(motions)[j].0 == motions[j].0@);
    }
}

} // verus!
