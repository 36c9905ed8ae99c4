//! Importing a Live2D package: naming what a loose scan found, naming the
//! variants of a package without a manifest, and checking a manifest's
//! bindings against the models it ships.

use vstd::prelude::*;

use crate::live2d::{unique_asset_name, unique_name_ok, Live2dModelInfo};
use crate::live2d_auto::{
    chars_lt, first_where, group_names, groups_view, lemma_first_where, lemma_name_lt_irreflexive,
    lemma_name_lt_transitive, name_lt, names_view, pair_views, str_lt, Live2dMotionBinding,
    Live2dVariant, keys_unique,
};
use crate::path::{file_stem, file_stem_spec, lies_within, lies_within_root};
use crate::text::{chars_ends_with, decimal, ends_with, owned, str_eq, string_of, u64_to_string};

verus! {

/// A package's Live2D configuration.
#[derive(Debug, Clone)]
pub struct Live2dSettings {
    pub version: u32,
    pub default_variant: String,
    /// Variant name -> variant; each name once.
    pub variants: Vec<(String, Live2dVariant)>,
    /// Outfit -> variant name; each outfit once.
    pub clothes_variants: Vec<(String, String)>,
}

impl Live2dSettings {
    /// Each variant and each outfit is named once, and each variant binds
    /// each emotion once.
    pub open spec fn wf(&self) -> bool {
        &&& keys_unique(self.variants@)
        &&& keys_unique(self.clothes_variants@)
        &&& forall|i: int| 0 <= i < self.variants@.len() ==> (#[trigger] self.variants@[i]).1.wf()
    }
}

// ---------------------------------------------------------------------------
// Loose files
// ---------------------------------------------------------------------------

/// The expression suffix of a loose scan.
pub const EXPRESSION_SUFFIX: &'static str = ".exp3.json";

/// The motion suffix of a loose scan.
pub const MOTION_SUFFIX: &'static str = ".motion3.json";

/// The name a loose file is found under: its file name without `suffix`
/// (the whole suffix, not only the last extension, so `哭.exp3.json` is
/// `哭`); nothing when the name does not end in it or nothing is left.
pub open spec fn loose_name_spec(file_name: Seq<char>, suffix: Seq<char>) -> Option<Seq<char>> {
    if ends_with(file_name, suffix) && file_name.len() > suffix.len() {
        Some(file_name.subrange(0, file_name.len() - suffix.len()))
    } else {
        None
    }
}

pub fn loose_name(file_name: &str, suffix: &str) -> (r: Option<String>)
    ensures
        match loose_name_spec(file_name@, suffix@) {
            Some(n) => r matches Some(x) && x@ == n,
            None => r is None,
        },
{
    let v = crate::text::chars_of(file_name);
    let sv = crate::text::chars_of(suffix);
    if !chars_ends_with(v.as_slice(), sv.as_slice()) || v.len() <= sv.len() {
        return None;
    }
    let n = v.len() - sv.len();
    let mut stem: Vec<char> = Vec::new();
    let mut i: usize = 0;
    while i < n
        invariant
            i <= n,
            n <= v@.len(),
            stem@ == v@.subrange(0, i as int),
        decreases n - i,
    {
        stem.push(v[i]);
        assert(stem@ =~= v@.subrange(0, i + 1));
        i += 1;
    }
    Some(string_of(stem.as_slice()))
}

pub open spec fn has_name(v: Seq<(Seq<char>, Seq<char>)>, n: Seq<char>) -> bool {
    exists|i: int| 0 <= i < v.len() && (#[trigger] v[i]).0 == n
}

/// Scanned `(name, file)` pairs, keeping the first file of each name: the
/// engine looks expressions up by name, so only the first one could ever be
/// reached.
pub open spec fn first_per_name(found: Seq<(Seq<char>, Seq<char>)>) -> Seq<(Seq<char>, Seq<char>)>
    decreases found.len(),
{
    if found.len() == 0 {
        seq![]
    } else {
        let prev = first_per_name(found.drop_last());
        if has_name(prev, found.last().0) {
            prev
        } else {
            prev.push(found.last())
        }
    }
}

fn contains_name(v: &Vec<(String, String)>, n: &str) -> (r: bool)
    ensures
        r == has_name(pair_views(v@), n@),
{
    let mut i: usize = 0;
    while i < v.len()
        invariant
            i <= v.len(),
            forall|j: int| 0 <= j < i ==> (#[trigger] pair_views(v@)[j]).0 != n@,
        decreases v.len() - i,
    {
        assert(pair_views(v@)[i as int].0 == v@[i as int].0@);
        if str_eq(v[i].0.as_str(), n) {
            return true;
        }
        i += 1;
    }
    false
}

/// Expressions found by a loose scan (in path order), one file per name.
pub fn scanned_expressions(found: &[(String, String)]) -> (r: Vec<(String, String)>)
    ensures
        pair_views(r@) == first_per_name(pair_views(found@)),
{
    let ghost fv = pair_views(found@);
    let mut r: Vec<(String, String)> = Vec::new();
    let mut i: usize = 0;
    while i < found.len()
        invariant
            i <= found.len(),
            fv == pair_views(found@),
            pair_views(r@) == first_per_name(fv.take(i as int)),
        decreases found.len() - i,
    {
        assert(fv.take(i + 1).drop_last() =~= fv.take(i as int));
        assert(fv.take(i + 1).last() == (found@[i as int].0@, found@[i as int].1@));
        if !contains_name(&r, found[i].0.as_str()) {
            let ghost before = r@;
            let entry = (found[i].0.clone(), found[i].1.clone());
            r.push(entry);
            assert(r@ == before.push(entry));
            assert(pair_views(r@) =~= pair_views(before).push(fv.take(i + 1).last()));
        }
        i += 1;
    }
    assert(fv.take(found.len() as int) =~= fv);
    r
}

/// Scanned `(name, path)` pairs in path order (no path sorts before an
/// earlier one).
pub open spec fn path_sorted(v: Seq<(Seq<char>, Seq<char>)>) -> bool {
    forall|i: int, j: int| 0 <= i < j < v.len() ==> !name_lt(#[trigger] v[j].1, #[trigger] v[i].1)
}

/// Sorts scanned `(name, path)` pairs by path (the same pairs, each as
/// often as found). The names handed out later depend on this order, so it
/// must be the same at import and at run time.
pub fn sort_by_path(found: Vec<(String, String)>) -> (r: Vec<(String, String)>)
    ensures
        path_sorted(pair_views(r@)),
        r@.to_multiset() == found@.to_multiset(),
{
    let mut r: Vec<(String, String)> = Vec::new();
    let mut k: usize = 0;
    assert(found@.take(0) =~= r@);
    while k < found.len()
        invariant
            k <= found@.len(),
            path_sorted(pair_views(r@)),
            r@.to_multiset() == found@.take(k as int).to_multiset(),
        decreases found.len() - k,
    {
        let x = (found[k].0.clone(), found[k].1.clone());
        assert(x == found@[k as int]);
        let ghost rv = pair_views(r@);
        let mut pos: usize = 0;
        while pos < r.len() && !str_lt(x.1.as_str(), r[pos].1.as_str())
            invariant
                pos <= r@.len(),
                rv == pair_views(r@),
                forall|i: int| 0 <= i < pos ==> !name_lt(x.1@, #[trigger] rv[i].1),
            decreases r.len() - pos,
        {
            pos += 1;
        }
        let ghost before = r@;
        r.insert(pos, x);
        proof {
            let nv = pair_views(r@);
            assert(r@ == before.insert(pos as int, x));
            assert forall|i: int, j: int| 0 <= i < j < nv.len() implies !name_lt(
                #[trigger] nv[j].1,
                #[trigger] nv[i].1,
            ) by {
                if j < pos {
                    assert(nv[i] == rv[i] && nv[j] == rv[j]);
                } else if i > pos {
                    assert(nv[i] == rv[i - 1] && nv[j] == rv[j - 1]);
                } else if j == pos {
                    assert(nv[i] == rv[i] && nv[j].1 == x.1@);
                } else if i == pos {
                    assert(nv[i].1 == x.1@ && nv[j] == rv[j - 1]);
                    if name_lt(nv[j].1, x.1@) {
                        assert(pos < before.len());
                        assert(name_lt(x.1@, rv[pos as int].1));
                        lemma_name_lt_transitive(nv[j].1, x.1@, rv[pos as int].1);
                        if j - 1 == pos {
                            lemma_name_lt_irreflexive(rv[pos as int].1);
                        }
                    }
                } else {
                    assert(i < pos < j);
                    assert(nv[i] == rv[i] && nv[j] == rv[j - 1]);
                }
            }
            assert(found@.take(k + 1) =~= found@.take(k as int).push(found@[k as int]));
            vstd::seq_lib::to_multiset_insert(before, pos as int, x);
            vstd::seq_lib::to_multiset_build(found@.take(k as int), found@[k as int]);
            assert(before.insert(pos as int, x).to_multiset() == before.to_multiset().insert(x));
            assert(found@.take(k as int).push(found@[k as int]).to_multiset()
                == found@.take(k as int).to_multiset().insert(found@[k as int]));
        }
        k += 1;
    }
    assert(found@.take(found.len() as int) =~= found@);
    r
}

pub open spec fn group_name_strings(v: Seq<(String, Vec<String>)>) -> Seq<String> {
    v.map_values(|p: (String, Vec<String>)| p.0)
}

/// Motions found by a loose scan (in path order): every file is a group of
/// its own, named by its stem, with `_2`, `_3`, ... added to a stem already
/// taken by an earlier file.
pub fn scanned_motions(found: &[(String, String)]) -> (r: Vec<(String, Vec<String>)>)
    requires
        found@.len() < usize::MAX - 2,
    ensures
        r@.len() == found@.len(),
        forall|i: int|
            0 <= i < r@.len() ==> names_view((#[trigger] r@[i]).1@) == seq![found@[i].1@]
                && unique_name_ok(found@[i].0@, group_name_strings(r@.take(i)), r@[i].0@),
{
    let mut r: Vec<(String, Vec<String>)> = Vec::new();
    let mut used: Vec<String> = Vec::new();
    let mut i: usize = 0;
    while i < found.len()
        invariant
            i <= found.len(),
            found@.len() < usize::MAX - 2,
            r@.len() == i,
            used@ == group_name_strings(r@),
            forall|j: int|
                0 <= j < r@.len() ==> names_view((#[trigger] r@[j]).1@) == seq![found@[j].1@]
                    && unique_name_ok(found@[j].0@, group_name_strings(r@.take(j)), r@[j].0@),
        decreases found.len() - i,
    {
        let name = unique_asset_name(found[i].0.as_str(), used.as_slice());
        let ghost before = r@;
        let files = vec![found[i].1.clone()];
        assert(names_view(files@) =~= seq![found@[i as int].1@]);
        used.push(name.clone());
        let entry = (name, files);
        r.push(entry);
        assert(r@ == before.push(entry));
        assert(r@.take(i as int) =~= before);
        assert(group_name_strings(r@) =~= group_name_strings(before).push(entry.0));
        assert forall|j: int| 0 <= j < i implies r@.take(j) =~= before.take(j) by {}
        i += 1;
    }
    r
}

pub open spec fn first_names(v: Seq<(Seq<char>, Seq<char>)>) -> Seq<Seq<char>> {
    v.map_values(|p: (Seq<char>, Seq<char>)| p.0)
}

/// The expressions of a model: the ones its `model3.json` declares (names,
/// and name -> file), or, when it declares none, those a loose scan found
/// (in path order, first file of each name). The flag tells which.
pub fn resolved_expressions(
    declared_names: Vec<String>,
    declared_files: Vec<(String, String)>,
    scanned: &[(String, String)],
) -> (r: (Vec<String>, Vec<(String, String)>, bool))
    ensures
        declared_names@.len() > 0 ==> r.0 == declared_names && r.1 == declared_files && !r.2,
        declared_names@.len() == 0 ==> pair_views(r.1@) == first_per_name(pair_views(scanned@))
            && names_view(r.0@) == first_names(pair_views(r.1@)) && r.2,
{
    if declared_names.len() > 0 {
        return (declared_names, declared_files, false);
    }
    let files = scanned_expressions(scanned);
    let mut names: Vec<String> = Vec::new();
    let mut i: usize = 0;
    while i < files.len()
        invariant
            i <= files@.len(),
            names_view(names@) == first_names(pair_views(files@).take(i as int)),
        decreases files.len() - i,
    {
        let ghost before = names@;
        let name = files[i].0.clone();
        names.push(name);
        assert(names@ == before.push(name));
        assert(pair_views(files@).take(i + 1) =~= pair_views(files@).take(i as int).push(
            (files@[i as int].0@, files@[i as int].1@),
        ));
        assert(names_view(names@) =~= names_view(before).push(name@));
        assert(first_names(pair_views(files@).take(i + 1)) =~= first_names(
            pair_views(files@).take(i as int),
        ).push(files@[i as int].0@));
        assert(names_view(names@) =~= first_names(pair_views(files@).take(i + 1)));
        i += 1;
    }
    assert(pair_views(files@).take(files@.len() as int) =~= pair_views(files@));
    (names, files, true)
}

/// The motion groups of a model: the ones its `model3.json` declares, or,
/// when it declares none, one group per file a loose scan found.
pub fn resolved_motions(declared: Vec<(String, Vec<String>)>, scanned: &[(String, String)]) -> (r: Vec<
    (String, Vec<String>),
>)
    requires
        scanned@.len() < usize::MAX - 2,
    ensures
        declared@.len() > 0 ==> r == declared,
        declared@.len() == 0 ==> r@.len() == scanned@.len() && forall|i: int|
            0 <= i < r@.len() ==> names_view((#[trigger] r@[i]).1@) == seq![scanned@[i].1@]
                && unique_name_ok(scanned@[i].0@, group_name_strings(r@.take(i)), r@[i].0@),
{
    if declared.len() > 0 {
        declared
    } else {
        scanned_motions(scanned)
    }
}

// ---------------------------------------------------------------------------
// Variant names
// ---------------------------------------------------------------------------

/// `s` with every trailing repetition of `p` removed (`trim_end_matches`).
pub open spec fn trim_end_all(s: Seq<char>, p: Seq<char>) -> Seq<char>
    decreases s.len(),
{
    if p.len() > 0 && ends_with(s, p) {
        trim_end_all(s.take(s.len() - p.len()), p)
    } else {
        s
    }
}

/// A variant's name before it is made unique: the model file's stem (or
/// `model`), without its `.model3` endings.
pub open spec fn variant_base_spec(model_file: Seq<char>) -> Seq<char> {
    let stem = match file_stem_spec(model_file) {
        Some(s) => s,
        None => "model"@,
    };
    trim_end_all(stem, ".model3"@)
}

pub fn variant_base_name(model_file: &str) -> (r: String)
    ensures
        r@ == variant_base_spec(model_file@),
{
    let mut cur: Vec<char> = match file_stem(model_file) {
        Some(s) => s,
        None => {
            let m = crate::text::chars_of("model");
            m
        },
    };
    let suffix = crate::text::chars_of(".model3");
    proof {
        reveal_strlit(".model3");
    }
    let ghost stem = cur@;
    assert(trim_end_all(stem, ".model3"@) == trim_end_all(cur@, ".model3"@));
    while chars_ends_with(cur.as_slice(), suffix.as_slice())
        invariant
            suffix@ == ".model3"@,
            suffix@.len() > 0,
            trim_end_all(stem, ".model3"@) == trim_end_all(cur@, ".model3"@),
        decreases cur@.len(),
    {
        let keep = cur.len() - suffix.len();
        let ghost before = cur@;
        cur.truncate(keep);
        assert(cur@ =~= before.take(before.len() - suffix@.len()));
    }
    string_of(cur.as_slice())
}

/// A name for the variant of `model_file` that no existing variant has.
pub fn unique_variant_name(model_file: &str, existing: &[String]) -> (r: String)
    requires
        existing@.len() < usize::MAX - 2,
    ensures
        unique_name_ok(variant_base_spec(model_file@), existing@, r@),
{
    let base = variant_base_name(model_file);
    unique_asset_name(base.as_str(), existing)
}

// ---------------------------------------------------------------------------
// Manifest checks
// ---------------------------------------------------------------------------

pub open spec fn variant_names(s: Live2dSettings) -> Seq<Seq<char>> {
    s.variants@.map_values(|p: (String, Live2dVariant)| p.0@)
}

fn has_variant(s: &Live2dSettings, name: &str) -> (r: bool)
    ensures
        r == variant_names(*s).contains(name@),
{
    let mut i: usize = 0;
    while i < s.variants.len()
        invariant
            i <= s.variants@.len(),
            forall|j: int| 0 <= j < i ==> variant_names(*s)[j] != name@,
        decreases s.variants.len() - i,
    {
        if str_eq(s.variants[i].0.as_str(), name) {
            assert(variant_names(*s)[i as int] == name@);
            return true;
        }
        i += 1;
    }
    false
}

/// A manifest must be version 1 and name an existing default variant.
pub fn check_manifest_header(s: &Live2dSettings) -> (r: Result<(), String>)
    ensures
        (s.version == 1 && variant_names(*s).contains(s.default_variant@)) <==> r is Ok,
        r matches Err(e) ==> e@ == "lingchat-live2d.json 必须是 version 1 且包含 default_variant"@,
{
    if s.version != 1 || !has_variant(s, s.default_variant.as_str()) {
        return Err(owned("lingchat-live2d.json 必须是 version 1 且包含 default_variant"));
    }
    Ok(())
}

/// The first outfit that maps to a variant the manifest lacks.
pub open spec fn clothes_error(s: Live2dSettings, clothes: Seq<(String, String)>) -> Option<
    Seq<char>,
>
    decreases clothes.len(),
{
    if clothes.len() == 0 {
        None
    } else {
        match clothes_error(s, clothes.drop_last()) {
            Some(e) => Some(e),
            None => {
                let c = clothes.last();
                if variant_names(s).contains(c.1@) {
                    None
                } else {
                    Some("服装 "@ + c.0@ + " 映射到不存在的 variant: "@ + c.1@)
                }
            },
        }
    }
}

pub fn check_clothes_variants(s: &Live2dSettings) -> (r: Result<(), String>)
    ensures
        match clothes_error(*s, s.clothes_variants@) {
            Some(m) => r matches Err(e) && e@ == m,
            None => r is Ok,
        },
{
    let ghost cv = s.clothes_variants@;
    let mut i: usize = 0;
    while i < s.clothes_variants.len()
        invariant
            i <= cv.len(),
            cv == s.clothes_variants@,
            clothes_error(*s, cv.take(i as int)) is None,
        decreases s.clothes_variants.len() - i,
    {
        assert(cv.take(i + 1).drop_last() =~= cv.take(i as int));
        let (clothes, variant) = (&s.clothes_variants[i].0, &s.clothes_variants[i].1);
        if !has_variant(s, variant.as_str()) {
            let mut m = owned("服装 ");
            m.append(clothes.as_str());
            m.append(" 映射到不存在的 variant: ");
            m.append(variant.as_str());
            proof {
                lemma_clothes_error_prefix(*s, cv, i + 1);
            }
            return Err(m);
        }
        i += 1;
    }
    assert(cv.take(cv.len() as int) =~= cv);
    Ok(())
}

proof fn lemma_clothes_error_prefix(s: Live2dSettings, clothes: Seq<(String, String)>, n: int)
    requires
        0 <= n <= clothes.len(),
        clothes_error(s, clothes.take(n)) is Some,
    ensures
        clothes_error(s, clothes) == clothes_error(s, clothes.take(n)),
    decreases clothes.len(),
{
    if n == clothes.len() {
        assert(clothes.take(n) =~= clothes);
    } else {
        assert(clothes.drop_last().take(n) =~= clothes.take(n));
        lemma_clothes_error_prefix(s, clothes.drop_last(), n);
    }
}

// ---------------------------------------------------------------------------
// Binding checks
// ---------------------------------------------------------------------------

/// Where a motion group sits among the model's groups.
pub open spec fn group_position(groups: Seq<(Seq<char>, Seq<Seq<char>>)>, name: Seq<char>) -> Option<
    int,
> {
    first_where(group_names(groups), is_named(name))
}

pub open spec fn is_named(name: Seq<char>) -> spec_fn(Seq<char>) -> bool {
    |n: Seq<char>| n == name
}

/// Why a motion binding does not fit the model: its group is missing, or
/// its index is past the group's end.
pub open spec fn motion_binding_error(
    variant: Seq<char>,
    label: Seq<char>,
    group: Seq<char>,
    index: nat,
    groups: Seq<(Seq<char>, Seq<Seq<char>>)>,
) -> Option<Seq<char>> {
    match group_position(groups, group) {
        None => Some("variant "@ + variant + " 的 "@ + label + " 引用了不存在的动作组 "@ + group),
        Some(i) => if index >= groups[i].1.len() {
            Some(
                "variant "@ + variant + " 的 "@ + label + " 动作索引 "@ + decimal(index)
                    + " 越界（组 "@ + group + " 共 "@ + decimal(groups[i].1.len()) + " 个）"@,
            )
        } else {
            None
        },
    }
}

fn group_index(groups: &[(String, Vec<String>)], name: &str) -> (r: Option<usize>)
    ensures
        match group_position(groups_view(groups@), name@) {
            Some(i) => r matches Some(x) && x as int == i,
            None => r is None,
        },
        r matches Some(x) ==> x < groups@.len(),
{
    let ghost names = group_names(groups_view(groups@));
    let ghost p = is_named(name@);
    proof {
        lemma_first_where(names, p);
    }
    let mut i: usize = 0;
    while i < groups.len()
        invariant
            i <= groups@.len(),
            names == group_names(groups_view(groups@)),
            p == is_named(name@),
            forall|j: int| 0 <= j < i ==> !p(names[j]),
        decreases groups.len() - i,
    {
        assert(names[i as int] == groups@[i as int].0@);
        if str_eq(groups[i].0.as_str(), name) {
            assert(p(names[i as int]));
            proof {
                lemma_first_where(names, p);
            }
            return Some(i);
        }
        i += 1;
    }
    None
}

pub fn validate_motion_binding(
    variant_name: &str,
    label: &str,
    binding: &Live2dMotionBinding,
    info: &Live2dModelInfo,
) -> (r: Result<(), String>)
    ensures
        match motion_binding_error(
            variant_name@,
            label@,
            binding.group@,
            binding.index as nat,
            groups_view(info.motions@),
        ) {
            Some(m) => r matches Err(e) && e@ == m,
            None => r is Ok,
        },
{
    let ghost groups = groups_view(info.motions@);
    let motions = info.motions.as_slice();
    assert(motions@ == info.motions@);
    let gname = binding.group.as_str();
    assert(gname@ == binding.group@);
    let found = group_index(motions, gname);
    let mut m = owned("variant ");
    m.append(variant_name);
    m.append(" 的 ");
    m.append(label);
    if found.is_none() {
        m.append(" 引用了不存在的动作组 ");
        m.append(binding.group.as_str());
        return Err(m);
    }
    let i = found.unwrap();
    let len = info.motions[i].1.len();
    assert(group_position(groups, binding.group@) == Some(i as int));
    assert(groups[i as int].1.len() == len);
    if binding.index >= len {
        assert(binding.index as u64 as nat == binding.index as nat);
        assert(len as u64 as nat == len as nat);
        let index_text = u64_to_string(binding.index as u64);
        let len_text = u64_to_string(len as u64);
        m.append(" 动作索引 ");
        m.append(index_text.as_str());
        m.append(" 越界（组 ");
        m.append(binding.group.as_str());
        m.append(" 共 ");
        m.append(len_text.as_str());
        m.append(" 个）");
        return Err(m);
    }
    Ok(())
}

/// The first emotion bound to an expression the model lacks.
pub open spec fn expression_binding_error(
    variant: Seq<char>,
    bound: Seq<(String, String)>,
    known: Seq<Seq<char>>,
) -> Option<Seq<char>>
    decreases bound.len(),
{
    if bound.len() == 0 {
        None
    } else {
        match expression_binding_error(variant, bound.drop_last(), known) {
            Some(e) => Some(e),
            None => {
                let b = bound.last();
                if known.contains(b.1@) {
                    None
                } else {
                    Some("variant "@ + variant + " 的情绪 "@ + b.0@ + " 引用了不存在的表情: "@ + b.1@)
                }
            },
        }
    }
}

/// The first emotion bound to a motion the model lacks.
pub open spec fn emotion_motion_error(
    variant: Seq<char>,
    bound: Seq<(String, Live2dMotionBinding)>,
    groups: Seq<(Seq<char>, Seq<Seq<char>>)>,
) -> Option<Seq<char>>
    decreases bound.len(),
{
    if bound.len() == 0 {
        None
    } else {
        match emotion_motion_error(variant, bound.drop_last(), groups) {
            Some(e) => Some(e),
            None => {
                let b = bound.last();
                motion_binding_error(variant, "情绪 "@ + b.0@, b.1.group@, b.1.index as nat, groups)
            },
        }
    }
}

/// The first binding of a variant that its model cannot honour, checked in
/// this order: the default expression, the emotion expressions, the idle
/// motion, the emotion motions.
pub open spec fn variant_binding_error(
    variant_name: Seq<char>,
    v: Live2dVariant,
    info: Live2dModelInfo,
) -> Option<Seq<char>> {
    let known = names_view(info.expressions@);
    let groups = groups_view(info.motions@);
    if v.default_expression is Some && !known.contains(v.default_expression.unwrap()@) {
        Some("variant "@ + variant_name + " 的默认表情不存在: "@ + v.default_expression.unwrap()@)
    } else {
        match expression_binding_error(variant_name, v.expressions@, known) {
            Some(e) => Some(e),
            None => {
                let idle_error = match v.idle {
                    Some(b) => motion_binding_error(
                        variant_name,
                        "idle"@,
                        b.group@,
                        b.index as nat,
                        groups,
                    ),
                    None => None,
                };
                match idle_error {
                    Some(e) => Some(e),
                    None => emotion_motion_error(variant_name, v.motions@, groups),
                }
            },
        }
    }
}

fn knows_expression(info: &Live2dModelInfo, name: &str) -> (r: bool)
    ensures
        r == names_view(info.expressions@).contains(name@),
{
    let mut i: usize = 0;
    while i < info.expressions.len()
        invariant
            i <= info.expressions@.len(),
            forall|j: int| 0 <= j < i ==> names_view(info.expressions@)[j] != name@,
        decreases info.expressions.len() - i,
    {
        if str_eq(info.expressions[i].as_str(), name) {
            assert(names_view(info.expressions@)[i as int] == name@);
            return true;
        }
        i += 1;
    }
    false
}

proof fn lemma_expression_error_prefix(
    variant: Seq<char>,
    bound: Seq<(String, String)>,
    known: Seq<Seq<char>>,
    n: int,
)
    requires
        0 <= n <= bound.len(),
        expression_binding_error(variant, bound.take(n), known) is Some,
    ensures
        expression_binding_error(variant, bound, known) == expression_binding_error(
            variant,
            bound.take(n),
            known,
        ),
    decreases bound.len(),
{
    if n == bound.len() {
        assert(bound.take(n) =~= bound);
    } else {
        assert(bound.drop_last().take(n) =~= bound.take(n));
        lemma_expression_error_prefix(variant, bound.drop_last(), known, n);
    }
}

proof fn lemma_motion_error_prefix(
    variant: Seq<char>,
    bound: Seq<(String, Live2dMotionBinding)>,
    groups: Seq<(Seq<char>, Seq<Seq<char>>)>,
    n: int,
)
    requires
        0 <= n <= bound.len(),
        emotion_motion_error(variant, bound.take(n), groups) is Some,
    ensures
        emotion_motion_error(variant, bound, groups) == emotion_motion_error(
            variant,
            bound.take(n),
            groups,
        ),
    decreases bound.len(),
{
    if n == bound.len() {
        assert(bound.take(n) =~= bound);
    } else {
        assert(bound.drop_last().take(n) =~= bound.take(n));
        lemma_motion_error_prefix(variant, bound.drop_last(), groups, n);
    }
}

/// Checks every binding of a variant against the model it names.
pub fn validate_variant_bindings(
    variant_name: &str,
    variant: &Live2dVariant,
    info: &Live2dModelInfo,
) -> (r: Result<(), String>)
    ensures
        match variant_binding_error(variant_name@, *variant, *info) {
            Some(m) => r matches Err(e) && e@ == m,
            None => r is Ok,
        },
{
    let ghost known = names_view(info.expressions@);
    let ghost groups = groups_view(info.motions@);
    if let Some(expression) = &variant.default_expression {
        if !knows_expression(info, expression.as_str()) {
            let mut m = owned("variant ");
            m.append(variant_name);
            m.append(" 的默认表情不存在: ");
            m.append(expression.as_str());
            return Err(m);
        }
    }
    let ghost ev = variant.expressions@;
    let mut i: usize = 0;
    while i < variant.expressions.len()
        invariant
            i <= ev.len(),
            ev == variant.expressions@,
            known == names_view(info.expressions@),
            !(variant.default_expression is Some && !known.contains(
                variant.default_expression.unwrap()@,
            )),
            expression_binding_error(variant_name@, ev.take(i as int), known) is None,
        decreases variant.expressions.len() - i,
    {
        assert(ev.take(i + 1).drop_last() =~= ev.take(i as int));
        let (emotion, expression) = (&variant.expressions[i].0, &variant.expressions[i].1);
        if !knows_expression(info, expression.as_str()) {
            let mut m = owned("variant ");
            m.append(variant_name);
            m.append(" 的情绪 ");
            m.append(emotion.as_str());
            m.append(" 引用了不存在的表情: ");
            m.append(expression.as_str());
            proof {
                lemma_expression_error_prefix(variant_name@, ev, known, i + 1);
            }
            return Err(m);
        }
        i += 1;
    }
    assert(ev.take(ev.len() as int) =~= ev);
    if let Some(idle) = &variant.idle {
        let checked = validate_motion_binding(variant_name, "idle", idle, info);
        if checked.is_err() {
            proof {
                reveal_strlit("idle");
            }
            return checked;
        }
    }
    proof {
        reveal_strlit("idle");
    }
    let ghost mv = variant.motions@;
    let mut k: usize = 0;
    while k < variant.motions.len()
        invariant
            k <= mv.len(),
            mv == variant.motions@,
            groups == groups_view(info.motions@),
            known == names_view(info.expressions@),
            !(variant.default_expression is Some && !known.contains(
                variant.default_expression.unwrap()@,
            )),
            expression_binding_error(variant_name@, variant.expressions@, known) is None,
            variant.idle matches Some(b) ==> motion_binding_error(
                variant_name@,
                "idle"@,
                b.group@,
                b.index as nat,
                groups,
            ) is None,
            emotion_motion_error(variant_name@, mv.take(k as int), groups) is None,
        decreases variant.motions.len() - k,
    {
        assert(mv.take(k + 1).drop_last() =~= mv.take(k as int));
        let label = crate::text::concat2("情绪 ", variant.motions[k].0.as_str());
        let checked = validate_motion_binding(variant_name, label.as_str(), &variant.motions[k].1, info);
        if checked.is_err() {
            proof {
                lemma_motion_error_prefix(variant_name@, mv, groups, k + 1);
            }
            return checked;
        }
        k += 1;
    }
    assert(mv.take(mv.len() as int) =~= mv);
    Ok(())
}

/// The configuration generated for a package without a manifest: the
/// inspected variants, the first of them as the default, worn by the
/// `default` outfit.
pub fn generated_settings(variants: Vec<(String, Live2dVariant)>) -> (r: Live2dSettings)
    requires
        variants@.len() > 0,
        keys_unique(variants@),
        forall|i: int| 0 <= i < variants@.len() ==> (#[trigger] variants@[i]).1.wf(),
    ensures
        r.wf(),
        r.version == 1,
        r.variants == variants,
        r.default_variant@ == variants@[0].0@,
        r.clothes_variants@.len() == 1,
        r.clothes_variants@[0].0@ == "default"@,
        r.clothes_variants@[0].1@ == variants@[0].0@,
{
    let default_variant = variants[0].0.clone();
    let clothes = vec![(owned("default"), default_variant.clone())];
    proof {
        reveal_strlit("default");
    }
    Live2dSettings { version: 1, default_variant, variants, clothes_variants: clothes }
}

} // verus!

verus! {

/// An import may not come from a folder that holds the role's own folder
/// (the source is compared with the role folder as resolved paths).
pub fn check_import_source(source: &str, role_root: &str) -> (r: Result<(), String>)
    ensures
        lies_within(role_root@, source@) <==> r is Err,
        r matches Err(e) ==> e@ == "不能从包含当前角色目录的上级目录导入 Live2D"@,
{
    if lies_within_root(role_root, source) {
        return Err(owned("不能从包含当前角色目录的上级目录导入 Live2D"));
    }
    Ok(())
}

/// Inspected models in order of their variant names (no variant sorts
/// before an earlier one).
pub open spec fn variant_sorted(v: Seq<Live2dModelInfo>) -> bool {
    forall|i: int, j: int| 0 <= i < j < v.len() ==> !name_lt(#[trigger] v[j].variant@, #[trigger] v[i].variant@)
}

/// Sorts inspected models by variant name: the same models, each as often
/// as given.
pub fn sort_by_variant(infos: Vec<Live2dModelInfo>) -> (r: Vec<Live2dModelInfo>)
    ensures
        variant_sorted(r@),
        r@.to_multiset() == infos@.to_multiset(),
{
    let ghost all = infos@;
    let mut rest = infos;
    let mut r: Vec<Live2dModelInfo> = Vec::new();
    let mut k: usize = 0;
    let n = rest.len();
    assert(all.take(0) =~= r@);
    assert(rest@ =~= all.skip(0));
    while k < n
        invariant
            k <= n,
            n == all.len(),
            rest@ == all.skip(k as int),
            variant_sorted(r@),
            r@.to_multiset() == all.take(k as int).to_multiset(),
        decreases n - k,
    {
        let ghost before_rest = rest@;
        let x = rest.remove(0);
        assert(x == all[k as int]);
        assert(rest@ =~= all.skip(k + 1));
        let ghost rv = r@;
        let mut pos: usize = 0;
        while pos < r.len() && !str_lt(x.variant.as_str(), r[pos].variant.as_str())
            invariant
                pos <= r@.len(),
                rv == r@,
                forall|i: int| 0 <= i < pos ==> !name_lt(x.variant@, #[trigger] rv[i].variant@),
            decreases r.len() - pos,
        {
            pos += 1;
        }
        let ghost before = r@;
        let ghost xv = x;
        r.insert(pos, x);
        proof {
            let nv = r@;
            assert(nv == before.insert(pos as int, xv));
            assert forall|i: int, j: int| 0 <= i < j < nv.len() implies !name_lt(
                #[trigger] nv[j].variant@,
                #[trigger] nv[i].variant@,
            ) by {
                if j < pos {
                    assert(nv[i] == rv[i] && nv[j] == rv[j]);
                } else if i > pos {
                    assert(nv[i] == rv[i - 1] && nv[j] == rv[j - 1]);
                } else if j == pos {
                    assert(nv[i] == rv[i] && nv[j] == xv);
                } else if i == pos {
                    assert(nv[i] == xv && nv[j] == rv[j - 1]);
                    if name_lt(nv[j].variant@, xv.variant@) {
                        assert(pos < before.len());
                        assert(name_lt(xv.variant@, rv[pos as int].variant@));
                        lemma_name_lt_transitive(nv[j].variant@, xv.variant@, rv[pos as int].variant@);
                        if j - 1 == pos {
                            lemma_name_lt_irreflexive(rv[pos as int].variant@);
                        }
                    }
                } else {
                    assert(i < pos < j);
                    assert(nv[i] == rv[i] && nv[j] == rv[j - 1]);
                }
            }
            assert(all.take(k + 1) =~= all.take(k as int).push(all[k as int]));
            vstd::seq_lib::to_multiset_insert(before, pos as int, xv);
            vstd::seq_lib::to_multiset_build(all.take(k as int), all[k as int]);
        }
        k += 1;
    }
    assert(all.take(n as int) =~= all);
    r
}

} // verus!
