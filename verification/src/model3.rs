//! A Live2D model's `model3.json`: its `FileReferences`, and the check that
//! each file it references is a relative path to a file inside the import.

use vstd::prelude::*;

use crate::json::{member, member_index, member_spec, text_of, text_value, Json};
use crate::live2d::{relative_path_error, validate_relative_path};
use crate::path::{join, join_spec, lies_within, lies_within_root, path_is_file};
use crate::text::{chars_eq, chars_of, concat2, concat3, owned};

verus! {

/// The members of a model's `FileReferences` object.
#[derive(Debug)]
pub struct Model3References {
    pub members: Vec<(String, Json)>,
}

/// What the parse of a `model3.json` gives: `doc` is the parsed document,
/// or the parser's message when the text is not JSON.
pub fn model_references(doc: Result<Json, String>) -> (r: Result<Model3References, String>)
    ensures
        match doc {
            Err(e) => r matches Err(m) && m@ == "解析 model3 失败: "@ + e@,
            Ok(d) => match crate::json::field_spec(d, "FileReferences"@) {
                Some(Json::Object(members)) => r matches Ok(refs) && refs.members == members,
                _ => r matches Err(m) && m@ == "model3 缺少 FileReferences"@,
            },
        },
{
    match doc {
        Err(e) => Err(concat2("解析 model3 失败: ", e.as_str())),
        Ok(Json::Object(mut members)) => match member_index(&members, "FileReferences") {
            Some(i) => match members.remove(i).1 {
                Json::Object(m) => Ok(Model3References { members: m }),
                _ => Err(owned("model3 缺少 FileReferences")),
            },
            None => Err(owned("model3 缺少 FileReferences")),
        },
        Ok(_) => Err(owned("model3 缺少 FileReferences")),
    }
}

/// One referenced file: the label it is reported under, and its text when
/// the reference is a string.
pub open spec fn reference_item(label: Seq<char>, value: Json) -> (Seq<char>, Option<Seq<char>>) {
    (label, text_of(value))
}

/// The reference under `key`, where there is one.
pub open spec fn optional_reference(members: Seq<(String, Json)>, key: Seq<char>) -> Seq<(Seq<char>, Option<Seq<char>>)> {
    match member_spec(members, key) {
        Some(v) => seq![reference_item(key, v)],
        None => Seq::empty(),
    }
}

/// The textures, where `Textures` is an array.
pub open spec fn texture_references(members: Seq<(String, Json)>) -> Seq<(Seq<char>, Option<Seq<char>>)> {
    match member_spec(members, "Textures"@) {
        Some(Json::Array(ts)) => ts@.map_values(|t: Json| reference_item("Texture"@, t)),
        _ => Seq::empty(),
    }
}

/// The files a model references, in the order they are checked: the Moc
/// (a missing one counts as a reference that is not a string), each
/// texture, then Physics, Pose, UserData and DisplayInfo where given.
pub open spec fn reference_items_spec(members: Seq<(String, Json)>) -> Seq<(Seq<char>, Option<Seq<char>>)> {
    let moc = match member_spec(members, "Moc"@) {
        Some(v) => reference_item("Moc"@, v),
        None => reference_item("Moc"@, Json::Null),
    };
    seq![moc] + texture_references(members) + optional_reference(members, "Physics"@)
        + optional_reference(members, "Pose"@) + optional_reference(members, "UserData"@)
        + optional_reference(members, "DisplayInfo"@)
}

pub open spec fn item_views(v: Seq<(String, Option<String>)>) -> Seq<(Seq<char>, Option<Seq<char>>)> {
    v.map_values(
        |x: (String, Option<String>)|
            (
                x.0@,
                match x.1 {
                    Some(s) => Some(s@),
                    None => None,
                },
            ),
    )
}

fn push_item(out: &mut Vec<(String, Option<String>)>, label: &str, value: &Json)
    ensures
        item_views(final(out)@) == item_views(old(out)@).push(reference_item(label@, *value)),
{
    let t = text_value(value);
    out.push((owned(label), t));
    assert(item_views(out@) =~= item_views(old(out)@).push(reference_item(label@, *value)));
}

fn push_optional(out: &mut Vec<(String, Option<String>)>, members: &Vec<(String, Json)>, key: &str)
    ensures
        item_views(final(out)@) == item_views(old(out)@) + optional_reference(members@, key@),
{
    match member(members, key) {
        Some(v) => push_item(out, key, v),
        None => {},
    }
    assert(item_views(out@) =~= item_views(old(out)@) + optional_reference(members@, key@));
}

/// The files a model references (see `reference_items_spec`).
pub fn reference_items(refs: &Model3References) -> (r: Vec<(String, Option<String>)>)
    ensures
        item_views(r@) == reference_items_spec(refs.members@),
{
    let members = &refs.members;
    let mut out: Vec<(String, Option<String>)> = Vec::new();
    proof {
        reveal_strlit("Moc");
        reveal_strlit("Texture");
    }
    match member(members, "Moc") {
        Some(v) => push_item(&mut out, "Moc", v),
        None => push_item(&mut out, "Moc", &Json::Null),
    }
    let ghost head = item_views(out@);
    match member(members, "Textures") {
        Some(Json::Array(ts)) => {
            let mut k: usize = 0;
            while k < ts.len()
                invariant
                    k <= ts@.len(),
                    item_views(out@) == head + ts@.take(k as int).map_values(
                        |t: Json| reference_item("Texture"@, t),
                    ),
                decreases ts.len() - k,
            {
                let ghost before = item_views(out@);
                push_item(&mut out, "Texture", &ts[k]);
                assert(ts@.take(k + 1).map_values(|t: Json| reference_item("Texture"@, t))
                    =~= ts@.take(k as int).map_values(|t: Json| reference_item("Texture"@, t)).push(
                    reference_item("Texture"@, ts@[k as int])));
                k += 1;
            }
            assert(ts@.take(ts.len() as int) =~= ts@);
        },
        _ => {
            assert(item_views(out@) =~= head + texture_references(members@));
        },
    }
    assert(item_views(out@) == head + texture_references(members@));
    push_optional(&mut out, members, "Physics");
    push_optional(&mut out, members, "Pose");
    push_optional(&mut out, members, "UserData");
    push_optional(&mut out, members, "DisplayInfo");
    assert(item_views(out@) =~= reference_items_spec(members@));
    out
}

} // verus!

verus! {

/// Why one reference is refused, if it is: it is not a string; it is not a
/// relative path; no file stands there (`present` is false); or, resolved
/// against the model's folder, it leaves `root`. Paths are resolved by
/// their text alone.
pub open spec fn reference_error(
    model_dir: Seq<char>,
    root: Seq<char>,
    item: (Seq<char>, Option<Seq<char>>),
    present: bool,
) -> Option<Seq<char>> {
    let label = item.0;
    match item.1 {
        None => Some(label + " 引用不是字符串"@),
        Some(rel) => match relative_path_error(rel, label + " 引用"@) {
            Some(m) => Some(m),
            None => if !present {
                Some("缺少 "@ + label + " 文件: "@ + rel)
            } else if !lies_within(join_spec(model_dir, rel), root) {
                Some(label + " 文件必须位于本次导入的 Live2D 资源内: "@ + rel)
            } else {
                None
            },
        },
    }
}

/// The first refusal among `items`, each with its `present` flag.
pub open spec fn first_reference_error(
    model_dir: Seq<char>,
    root: Seq<char>,
    items: Seq<(Seq<char>, Option<Seq<char>>)>,
    present: Seq<bool>,
) -> Option<Seq<char>>
    decreases items.len(),
{
    if items.len() == 0 || present.len() != items.len() {
        None
    } else {
        match first_reference_error(model_dir, root, items.drop_last(), present.drop_last()) {
            Some(e) => Some(e),
            None => reference_error(model_dir, root, items.last(), present.last()),
        }
    }
}

fn check_reference(model_dir: &str, root: &str, label: &str, text: &Option<String>, present: bool) -> (r: Result<(), String>)
    ensures
        match reference_error(
            model_dir@,
            root@,
            (
                label@,
                match text {
                    Some(s) => Some(s@),
                    None => None,
                },
            ),
            present,
        ) {
            Some(m) => r matches Err(e) && e@ == m,
            None => r is Ok,
        },
{
    let rel = match text {
        None => return Err(concat2(label, " 引用不是字符串")),
        Some(s) => s.as_str(),
    };
    let tag = concat2(label, " 引用");
    validate_relative_path(rel, tag.as_str())?;
    if !present {
        let mut e = concat3("缺少 ", label, " 文件: ");
        e.append(rel);
        return Err(e);
    }
    let resolved = join(model_dir, rel);
    if !lies_within_root(resolved.as_str(), root) {
        return Err(concat3(label, " 文件必须位于本次导入的 Live2D 资源内: ", rel));
    }
    Ok(())
}

/// Checks the files a model references, in order, and reports the first
/// refusal. `present[i]` says whether a file stands where the `i`-th
/// reference points.
pub fn check_model_references(model_dir: &str, resource_root: &str, refs: &Model3References, present: &[bool]) -> (r: Result<(), String>)
    requires
        present@.len() == reference_items_spec(refs.members@).len(),
    ensures
        match first_reference_error(model_dir@, resource_root@, reference_items_spec(refs.members@), present@) {
            Some(m) => r matches Err(e) && e@ == m,
            None => r is Ok,
        },
{
    let items = reference_items(refs);
    let ghost iv = item_views(items@);
    let mut k: usize = 0;
    while k < items.len()
        invariant
            k <= items@.len(),
            iv == item_views(items@),
            iv == reference_items_spec(refs.members@),
            present@.len() == iv.len(),
            first_reference_error(model_dir@, resource_root@, iv.take(k as int), present@.take(k as int)) is None,
        decreases items.len() - k,
    {
        assert(iv.take(k + 1).drop_last() =~= iv.take(k as int));
        assert(present@.take(k + 1).drop_last() =~= present@.take(k as int));
        let item = &items[k];
        let res = check_reference(model_dir, resource_root, item.0.as_str(), &item.1, present[k]);
        if let Err(e) = res {
            proof {
                lemma_first_error_prefix(model_dir@, resource_root@, iv, present@, k + 1);
            }
            return Err(e);
        }
        k += 1;
    }
    assert(iv.take(items.len() as int) =~= iv);
    assert(present@.take(items.len() as int) =~= present@);
    Ok(())
}

proof fn lemma_first_error_prefix(
    model_dir: Seq<char>,
    root: Seq<char>,
    items: Seq<(Seq<char>, Option<Seq<char>>)>,
    present: Seq<bool>,
    k: int,
)
    requires
        0 <= k <= items.len(),
        present.len() == items.len(),
        first_reference_error(model_dir, root, items.take(k), present.take(k)) is Some,
    ensures
        first_reference_error(model_dir, root, items, present) == first_reference_error(
            model_dir,
            root,
            items.take(k),
            present.take(k),
        ),
    decreases items.len(),
{
    if k < items.len() {
        assert(items.take(k) =~= items.drop_last().take(k));
        assert(present.take(k) =~= present.drop_last().take(k));
        lemma_first_error_prefix(model_dir, root, items.drop_last(), present.drop_last(), k);
    } else {
        assert(items.take(k) =~= items);
        assert(present.take(k) =~= present);
    }
}

/// Checks the files a model references against the disk: each string
/// reference is looked up as a file under `model_dir`, and the result is
/// what `check_model_references` gives for what was found.
pub fn check_model_files(model_dir: &str, resource_root: &str, refs: &Model3References) -> (r: Result<(), String>)
    ensures
        exists|present: Seq<bool>|
            present.len() == reference_items_spec(refs.members@).len() && match #[trigger] first_reference_error(
                model_dir@,
                resource_root@,
                reference_items_spec(refs.members@),
                present,
            ) {
                Some(m) => r matches Err(e) && e@ == m,
                None => r is Ok,
            },
{
    let items = reference_items(refs);
    let mut present: Vec<bool> = Vec::new();
    let mut k: usize = 0;
    while k < items.len()
        invariant
            k <= items@.len(),
            present@.len() == k,
        decreases items.len() - k,
    {
        let found = match &items[k].1 {
            Some(rel) => path_is_file(join(model_dir, rel.as_str()).as_str()),
            None => false,
        };
        present.push(found);
        k += 1;
    }
    assert(item_views(items@).len() == items@.len());
    let r = check_model_references(model_dir, resource_root, refs, present.as_slice());
    assert(present@.len() == reference_items_spec(refs.members@).len());
    r
}

} // verus!
