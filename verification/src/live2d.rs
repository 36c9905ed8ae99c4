//! Live2D resource rules: relative references, names of scanned motion
//! groups and which expression may act as the default.

use vstd::prelude::*;

use vstd::relations::injective_on;
use vstd::set_lib::{lemma_int_range, lemma_len_subset, lemma_map_size, set_int_range};

use crate::text::{
    ascii_lower_seq, ascii_lowercase, first_index_of, lemma_first_index_of, char_is_ascii_alnum, char_is_ascii_alpha, chars_eq,
    chars_of, concat3, decimal, is_ascii_alnum, is_ascii_alpha, lemma_decimal_injective, owned,
    starts_with, str_eq, str_starts_with, u64_to_string,
};

verus! {

/// Where a model being imported comes from.
#[derive(Debug, Clone, Copy, PartialEq, Eq, Structural)]
pub enum Live2dSourceKind {
    Directory,
    Zip,
}

/// A model found in an imported package.
#[derive(Debug, Clone)]
pub struct Live2dModelInfo {
    pub variant: String,
    pub model: String,
    pub expressions: Vec<String>,
    /// Motion group -> files relative to the model directory; each group
    /// once.
    pub motions: Vec<(String, Vec<String>)>,
}

/// Expressions and motion groups available to one variant at run time.
#[derive(Debug, Clone)]
pub struct Live2dVariantAssets {
    /// Expression name -> path relative to the model directory.
    pub expressions: Vec<(String, String)>,
    /// Motion group -> files relative to the model directory.
    pub motions: Vec<(String, Vec<String>)>,
}

pub open spec fn is_scheme_char(c: char) -> bool {
    is_ascii_alnum(c) || c == '+' || c == '-' || c == '.'
}

/// Whether `value` begins with a URL scheme: an ASCII letter followed by
/// letters, digits, `+`, `-` or `.`, up to the first `:`.
pub open spec fn has_url_scheme_spec(value: Seq<char>) -> bool {
    match first_index_of(value, ':') {
        Some(i) => i > 0 && is_ascii_alpha(value[0]) && forall|j: int|
            1 <= j < i ==> is_scheme_char(#[trigger] value[j]),
        None => false,
    }
}

pub fn has_url_scheme(value: &str) -> (r: bool)
    ensures
        r == has_url_scheme_spec(value@),
{
    let v = chars_of(value);
    proof {
        lemma_first_index_of(v@, ':');
    }
    let mut colon: usize = 0;
    while colon < v.len() && v[colon] != ':'
        invariant
            colon <= v.len(),
            v@ == value@,
            forall|j: int| 0 <= j < colon ==> v@[j] != ':',
        decreases v.len() - colon,
    {
        colon += 1;
    }
    if colon == v.len() {
        return false;
    }
    assert(first_index_of(v@, ':') == Some(colon as int));
    if colon == 0 || !char_is_ascii_alpha(v[0]) {
        return false;
    }
    let mut j: usize = 1;
    while j < colon
        invariant
            1 <= j <= colon < v.len(),
            v@ == value@,
            first_index_of(v@, ':') == Some(colon as int),
            forall|k: int| 1 <= k < j ==> is_scheme_char(#[trigger] v@[k]),
        decreases colon - j,
    {
        let c = v[j];
        if !(char_is_ascii_alnum(c) || c == '+' || c == '-' || c == '.') {
            assert(!is_scheme_char(v@[j as int]));
            return false;
        }
        j += 1;
    }
    true
}

pub open spec fn relative_path_error(value: Seq<char>, label: Seq<char>) -> Option<Seq<char>> {
    if has_url_scheme_spec(value) || starts_with(value, "/"@) || starts_with(value, "\\"@) {
        Some(label + " 必须是相对路径: "@ + value)
    } else {
        None
    }
}

/// Rejects references that are URLs or absolute paths.
pub fn validate_relative_path(value: &str, label: &str) -> (r: Result<(), String>)
    ensures
        match relative_path_error(value@, label@) {
            Some(m) => r matches Err(e) && e@ == m,
            None => r is Ok,
        },
{
    if has_url_scheme(value) || str_starts_with(value, "/") || str_starts_with(value, "\\") {
        let mut e = concat3(label, " 必须是相对路径: ", value);
        return Err(e);
    }
    Ok(())
}

// ---------------------------------------------------------------------------
// Motion group names
// ---------------------------------------------------------------------------

/// The `index`-th alternative of a taken name: `{base}_{index}`.
pub open spec fn numbered_name(base: Seq<char>, index: nat) -> Seq<char> {
    base + seq!['_'] + decimal(index)
}

pub open spec fn name_taken(used: Seq<String>, name: Seq<char>) -> bool {
    exists|i: int| 0 <= i < used.len() && (#[trigger] used[i])@ == name
}

fn is_taken(used: &[String], name: &str) -> (r: bool)
    ensures
        r == name_taken(used@, name@),
{
    let mut i: usize = 0;
    while i < used.len()
        invariant
            i <= used@.len(),
            forall|j: int| 0 <= j < i ==> (#[trigger] used@[j])@ != name@,
        decreases used.len() - i,
    {
        if str_eq(used[i].as_str(), name) {
            return true;
        }
        i += 1;
    }
    false
}

proof fn lemma_numbered_name_injective(base: Seq<char>, a: nat, b: nat)
    requires
        numbered_name(base, a) == numbered_name(base, b),
    ensures
        a == b,
{
    let k: int = base.len() + 1int;
    assert(numbered_name(base, a).skip(k) =~= decimal(a));
    assert(numbered_name(base, b).skip(k) =~= decimal(b));
    lemma_decimal_injective(a, b);
}

/// If the names numbered 2..=k are all taken, at least k - 1 names are taken.
proof fn lemma_taken_bound(base: Seq<char>, used: Seq<String>, k: int)
    requires
        k >= 2,
        forall|j: int| 2 <= j <= k ==> name_taken(used, #[trigger] numbered_name(base, j as nat)),
    ensures
        k - 1 <= used.len(),
{
    let views = used.map_values(|s: String| s@);
    let f = |j: int| numbered_name(base, j as nat);
    let x = set_int_range(2, k + 1);
    lemma_int_range(2, k + 1);
    assert(injective_on(f, x)) by {
        assert forall|a: int, b: int| x.contains(a) && x.contains(b) && #[trigger] f(a) == #[trigger] f(
            b,
        ) implies a == b by {
            lemma_numbered_name_injective(base, a as nat, b as nat);
        }
    }
    let y = x.map(f);
    lemma_map_size(x, y, f);
    assert(y.subset_of(views.to_set())) by {
        assert forall|n: Seq<char>| y.contains(n) implies views.to_set().contains(n) by {
            let j = choose|j: int| x.contains(j) && f(j) == n;
            assert(name_taken(used, numbered_name(base, j as nat)));
            let i = choose|i: int| 0 <= i < used.len() && (#[trigger] used[i])@ == numbered_name(
                base,
                j as nat,
            );
            assert(views[i] == n);
        }
    }
    views.lemma_cardinality_of_set();
    lemma_len_subset(y, views.to_set());
}

pub open spec fn unique_name_ok(base: Seq<char>, used: Seq<String>, r: Seq<char>) -> bool {
    if !name_taken(used, base) {
        r == base
    } else {
        exists|k: nat|
            k >= 2 && r == numbered_name(base, k) && !name_taken(used, r) && forall|j: nat|
                2 <= j < k ==> name_taken(used, #[trigger] numbered_name(base, j))
    }
}

/// `base` if it is free, otherwise `{base}_{n}` for the smallest n >= 2
/// that is free.
pub fn unique_asset_name(base: &str, used: &[String]) -> (r: String)
    requires
        used@.len() < usize::MAX - 2,
    ensures
        unique_name_ok(base@, used@, r@),
{
    if !is_taken(used, base) {
        return owned(base);
    }
    let mut index: usize = 2;
    loop
        invariant
            2 <= index <= used@.len() + 2,
            used@.len() < usize::MAX - 2,
            name_taken(used@, base@),
            forall|j: nat| 2 <= j < index ==> name_taken(used@, #[trigger] numbered_name(base@, j)),
        decreases used@.len() + 2 - index,
    {
        let number = u64_to_string(index as u64);
        let candidate = concat3(base, "_", number.as_str());
        assert(candidate@ == numbered_name(base@, index as nat)) by {
            reveal_strlit("_");
        }
        if !is_taken(used, candidate.as_str()) {
            return candidate;
        }
        proof {
            assert forall|j: int| 2 <= j <= index implies name_taken(
                used@,
                #[trigger] numbered_name(base@, j as nat),
            ) by {
                if j < index {
                    assert(name_taken(used@, numbered_name(base@, j as nat)));
                }
            }
            lemma_taken_bound(base@, used@, index as int);
        }
        index += 1;
    }
}

/// Whether a motion group is the idle group: `Idle` in any ASCII case, or
/// `待机`.
pub open spec fn is_idle_group_spec(group: Seq<char>) -> bool {
    group == "Idle"@ || ascii_lower_seq(group) == "idle"@ || group == "待机"@
}

pub fn is_idle_group_name(group: &str) -> (r: bool)
    ensures
        r == is_idle_group_spec(group@),
{
    if str_eq(group, "Idle") {
        return true;
    }
    let v = chars_of(group);
    let lower = ascii_lowercase(v.as_slice());
    let idle = chars_of("idle");
    if chars_eq(lower.as_slice(), idle.as_slice()) {
        return true;
    }
    str_eq(group, "待机")
}

/// Whether a scanned expression may serve as the default one: only names
/// that say so explicitly.
pub open spec fn is_default_expression_spec(name: Seq<char>) -> bool {
    name == "00_Default"@ || ascii_lower_seq(name) == "default"@ || name == "默认"@ || name
        == "正常"@
}

pub fn is_default_expression_name(name: &str) -> (r: bool)
    ensures
        r == is_default_expression_spec(name@),
{
    if str_eq(name, "00_Default") {
        return true;
    }
    let v = chars_of(name);
    let lower = ascii_lowercase(v.as_slice());
    let d = chars_of("default");
    if chars_eq(lower.as_slice(), d.as_slice()) {
        return true;
    }
    str_eq(name, "默认") || str_eq(name, "正常")
}

} // verus!
