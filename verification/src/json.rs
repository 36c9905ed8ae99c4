//! JSON documents as the library reads them: the values a parse gives,
//! member lookups, and what is read from model configurations, tool calls,
//! repository listings and the cloud voice service's replies.

use vstd::prelude::*;

use crate::sherpa_models::config_or_defaults;
use crate::scene::string_views;
use crate::text::{chars_of, concat3, owned, str_eq};

verus! {

/// A JSON value. An object keeps its members in order, each key once (as
/// a parse gives them).
#[derive(Debug)]
pub enum Json {
    Null,
    Bool(bool),
    /// A number, written out as the parser writes it.
    Number(String),
    Str(String),
    Array(Vec<Json>),
    Object(Vec<(String, Json)>),
}

/// Where the member `key` first stands among an object's members.
pub open spec fn first_key_index(members: Seq<(String, Json)>, key: Seq<char>) -> Option<int>
    decreases members.len(),
{
    if members.len() == 0 {
        None
    } else {
        match first_key_index(members.drop_last(), key) {
            Some(i) => Some(i),
            None => if members.last().0@ == key {
                Some(members.len() - 1)
            } else {
                None
            },
        }
    }
}

pub proof fn lemma_first_key_prefix(members: Seq<(String, Json)>, key: Seq<char>, k: int)
    requires
        0 <= k <= members.len(),
        first_key_index(members.take(k), key) is Some,
    ensures
        first_key_index(members, key) == first_key_index(members.take(k), key),
    decreases members.len(),
{
    if k < members.len() {
        assert(members.take(k) =~= members.drop_last().take(k));
        lemma_first_key_prefix(members.drop_last(), key, k);
    } else {
        assert(members.take(k) =~= members);
    }
}

pub proof fn lemma_first_key_range(members: Seq<(String, Json)>, key: Seq<char>)
    ensures
        first_key_index(members, key) matches Some(i) ==> 0 <= i < members.len() && members[i].0@ == key,
    decreases members.len(),
{
    if members.len() > 0 {
        lemma_first_key_range(members.drop_last(), key);
    }
}

/// `value.get(key)`: the member `key` of an object; nothing for any other
/// value or a missing key.
pub open spec fn field_spec(j: Json, key: Seq<char>) -> Option<Json> {
    match j {
        Json::Object(members) => member_spec(members@, key),
        _ => None,
    }
}

/// The value of the first member named `key`.
pub open spec fn member_spec(members: Seq<(String, Json)>, key: Seq<char>) -> Option<Json> {
    match first_key_index(members, key) {
        Some(i) => Some(members[i].1),
        None => None,
    }
}

/// The text of a string value.
pub open spec fn text_of(j: Json) -> Option<Seq<char>> {
    match j {
        Json::Str(s) => Some(s@),
        _ => None,
    }
}

/// The text of a string value, copied.
pub fn text_value(j: &Json) -> (r: Option<String>)
    ensures
        match text_of(*j) {
            Some(t) => r matches Some(x) && x@ == t,
            None => r is None,
        },
{
    match j {
        Json::Str(s) => Some(s.clone()),
        _ => None,
    }
}

/// The value of the first member named `key`.
pub fn member<'a>(members: &'a Vec<(String, Json)>, key: &str) -> (r: Option<&'a Json>)
    ensures
        match member_spec(members@, key@) {
            Some(v) => r matches Some(x) && *x == v,
            None => r is None,
        },
{
    match member_index(members, key) {
        Some(i) => Some(&members[i].1),
        None => None,
    }
}

/// `value.get(key).and_then(as_str)`.
pub open spec fn str_field_spec(j: Json, key: Seq<char>) -> Option<Seq<char>> {
    match field_spec(j, key) {
        Some(Json::Str(s)) => Some(s@),
        _ => None,
    }
}

pub(crate) fn member_index(members: &Vec<(String, Json)>, key: &str) -> (r: Option<usize>)
    ensures
        match r {
            Some(i) => first_key_index(members@, key@) == Some(i as int),
            None => first_key_index(members@, key@) is None,
        },
        r matches Some(i) ==> i < members@.len() && members@[i as int].0@ == key@,
{
    let mut k: usize = 0;
    while k < members.len()
        invariant
            k <= members@.len(),
            first_key_index(members@.take(k as int), key@) is None,
        decreases members.len() - k,
    {
        assert(members@.take(k + 1).drop_last() =~= members@.take(k as int));
        assert(members@.take(k + 1).last() == members@[k as int]);
        if str_eq(members[k].0.as_str(), key) {
            proof {
                lemma_first_key_prefix(members@, key@, k + 1);
            }
            return Some(k);
        }
        k += 1;
    }
    assert(members@.take(members.len() as int) =~= members@);
    None
}

/// The member `key` of an object.
pub fn field<'a>(j: &'a Json, key: &str) -> (r: Option<&'a Json>)
    ensures
        match field_spec(*j, key@) {
            Some(v) => r matches Some(x) && *x == v,
            None => r is None,
        },
{
    match j {
        Json::Object(members) => member(members, key),
        _ => None,
    }
}

/// The text of the member `key`, when it is a string.
pub fn str_field(j: &Json, key: &str) -> (r: Option<String>)
    ensures
        match str_field_spec(*j, key@) {
            Some(s) => r matches Some(x) && x@ == s,
            None => r is None,
        },
{
    match field(j, key) {
        Some(Json::Str(s)) => Some(s.clone()),
        _ => None,
    }
}

// ---------------------------------------------------------------------------
// Model configuration
// ---------------------------------------------------------------------------

/// The settings a model folder's `config.json` gives: `model_type`,
/// `language` and `voice` where they are strings, else `vits`, `zh` and
/// `female`.
pub fn model_config_fields(doc: &Json) -> (r: (String, String, String))
    ensures
        r.0@ == (match str_field_spec(*doc, "model_type"@) {
            Some(t) => t,
            None => "vits"@,
        }),
        r.1@ == (match str_field_spec(*doc, "language"@) {
            Some(l) => l,
            None => "zh"@,
        }),
        r.2@ == (match str_field_spec(*doc, "voice"@) {
            Some(v) => v,
            None => "female"@,
        }),
{
    config_or_defaults(str_field(doc, "model_type"), str_field(doc, "language"), str_field(doc, "voice"))
}

// ---------------------------------------------------------------------------
// Tool call arguments
// ---------------------------------------------------------------------------

pub open spec fn is_object(j: Json) -> bool {
    j is Object
}

/// What a single-member object wraps: its `arguments`, else its `params`,
/// when that is an object.
pub open spec fn wrapped_args(j: Json) -> Option<Json> {
    match j {
        Json::Object(members) => if members@.len() == 1 {
            match field_spec(j, "arguments"@) {
                Some(a) => if is_object(a) {
                    Some(a)
                } else {
                    None
                },
                None => match field_spec(j, "params"@) {
                    Some(p) => if is_object(p) {
                        Some(p)
                    } else {
                        None
                    },
                    None => None,
                },
            }
        } else {
            None
        },
        _ => None,
    }
}

/// The arguments of a tool call before the last step. `doc` is the parse
/// of the raw text (nothing when it is not JSON); when that parse is a
/// string, `inner` is the parse of that string. A string that holds JSON is
/// read again, and a lone `arguments` or `params` object is unwrapped.
pub open spec fn tool_args_base(doc: Option<Json>, inner: Option<Json>) -> Json {
    let a = match doc {
        Some(d) => d,
        None => Json::Null,
    };
    let b = match a {
        Json::Str(_) => match inner {
            Some(p) => p,
            None => a,
        },
        _ => a,
    };
    match wrapped_args(b) {
        Some(w) => w,
        None => b,
    }
}

/// The arguments of a tool call: what `tool_args_base` gives when that is
/// an object, else `{}`.
pub fn tool_args_of(doc: Option<Json>, inner: Option<Json>) -> (r: Json)
    ensures
        is_object(tool_args_base(doc, inner)) ==> r == tool_args_base(doc, inner),
        !is_object(tool_args_base(doc, inner)) ==> (r matches Json::Object(m) && m@.len() == 0),
{
    let a = match doc {
        Some(d) => d,
        None => Json::Null,
    };
    let b = match a {
        Json::Str(s) => match inner {
            Some(p) => p,
            None => Json::Str(s),
        },
        other => other,
    };
    let pick: Option<usize> = match &b {
        Json::Object(members) => if members.len() == 1 {
            match member_index(members, "arguments") {
                Some(i) => match &members[i].1 {
                    Json::Object(_) => Some(i),
                    _ => None,
                },
                None => match member_index(members, "params") {
                    Some(i) => match &members[i].1 {
                        Json::Object(_) => Some(i),
                        _ => None,
                    },
                    None => None,
                },
            }
        } else {
            None
        },
        _ => None,
    };
    let c = match pick {
        Some(i) => match b {
            Json::Object(mut members) => members.remove(i).1,
            other => other,
        },
        None => b,
    };
    match c {
        Json::Object(m) => Json::Object(m),
        _ => Json::Object(Vec::new()),
    }
}

} // verus!

verus! {

/// `name` under the folder `prefix` (the top level when it is empty).
pub open spec fn listed_path(prefix: Seq<char>, name: Seq<char>) -> Seq<char> {
    if prefix.len() == 0 {
        name
    } else {
        prefix + "/"@ + name
    }
}

/// Every path a jsDelivr package listing names below `node`, nested
/// folders included, each under the folders that hold it.
pub open spec fn listed_files(node: Json, prefix: Seq<char>) -> Seq<Seq<char>>
    decreases node, 0nat,
{
    match node {
        Json::Object(members) => match first_key_index(members@, "files"@) {
            Some(i) => if 0 <= i < members@.len() {
                match members@[i].1 {
                    Json::Array(fs) => listed_entries(fs@, prefix, fs@.len() as int),
                    _ => Seq::empty(),
                }
            } else {
                Seq::empty()
            },
            None => Seq::empty(),
        },
        _ => Seq::empty(),
    }
}

pub open spec fn listed_entries(fs: Seq<Json>, prefix: Seq<char>, n: int) -> Seq<Seq<char>>
    decreases fs, n,
{
    if n <= 0 || n > fs.len() {
        Seq::empty()
    } else {
        let f = fs[n - 1];
        let rest = match str_field_spec(f, "name"@) {
            Some(name) => {
                let path = listed_path(prefix, name);
                seq![path] + if field_spec(f, "files"@) is Some {
                    listed_files(f, path)
                } else {
                    Seq::empty()
                }
            },
            None => Seq::empty(),
        };
        listed_entries(fs, prefix, n - 1) + rest
    }
}

} // verus!

verus! {

/// `name` under the folder `prefix`.
fn listed_path_of(prefix: &str, name: &str) -> (r: String)
    ensures
        r@ == listed_path(prefix@, name@),
{
    if chars_of(prefix).len() == 0 {
        owned(name)
    } else {
        proof {
            reveal_strlit("/");
        }
        concat3(prefix, "/", name)
    }
}

/// Appends the paths `listed_files` gives for `node`.
fn collect_listed(node: &Json, prefix: &str, out: &mut Vec<String>)
    ensures
        string_views(final(out)@) == string_views(old(out)@) + listed_files(*node, prefix@),
    decreases *node, 0nat,
{
    match node {
        Json::Object(members) => match member_index(members, "files") {
            Some(i) => match &members[i].1 {
                Json::Array(fs) => collect_entries(fs, prefix, out),
                _ => {
                    assert(string_views(out@) =~= string_views(out@) + Seq::<Seq<char>>::empty());
                },
            },
            None => {
                assert(string_views(out@) =~= string_views(out@) + Seq::<Seq<char>>::empty());
            },
        },
        _ => {
            assert(string_views(out@) =~= string_views(out@) + Seq::<Seq<char>>::empty());
        },
    }
}

/// Appends the paths `listed_entries` gives for all of `fs`.
fn collect_entries(fs: &Vec<Json>, prefix: &str, out: &mut Vec<String>)
    ensures
        string_views(final(out)@) == string_views(old(out)@) + listed_entries(fs@, prefix@, fs@.len() as int),
    decreases fs@, 1nat,
{
    let ghost start = string_views(out@);
    assert(string_views(out@) =~= start + listed_entries(fs@, prefix@, 0));
    let mut k: usize = 0;
    while k < fs.len()
        invariant
            k <= fs@.len(),
            string_views(out@) == start + listed_entries(fs@, prefix@, k as int),
        decreases fs.len() - k,
    {
        let f = &fs[k];
        let ghost before = string_views(out@);
        match str_field(f, "name") {
            Some(name) => {
                let path = listed_path_of(prefix, name.as_str());
                out.push(path.clone());
                assert(string_views(out@) =~= before.push(path@));
                if field(f, "files").is_some() {
                    collect_listed(f, path.as_str(), out);
                }
            },
            None => {},
        }
        proof {
            assert(string_views(out@) =~= start + listed_entries(fs@, prefix@, k + 1));
        }
        k += 1;
    }
}

/// The paths a repository listing names: for a jsDelivr package listing,
/// every file and folder below the top, nested ones as `folder/name`; for a
/// GitHub tree, the `path` of each node of its `tree` array.
pub open spec fn listing_paths_spec(doc: Json, jsdelivr: bool) -> Seq<Seq<char>> {
    if jsdelivr {
        listed_files(doc, Seq::empty())
    } else {
        match field_spec(doc, "tree"@) {
            Some(Json::Array(nodes)) => tree_paths(nodes@),
            _ => Seq::empty(),
        }
    }
}

/// The `path` of each node that has one as a string.
pub open spec fn tree_paths(nodes: Seq<Json>) -> Seq<Seq<char>>
    decreases nodes.len(),
{
    if nodes.len() == 0 {
        Seq::empty()
    } else {
        let rest = tree_paths(nodes.drop_last());
        match str_field_spec(nodes.last(), "path"@) {
            Some(p) => rest.push(p),
            None => rest,
        }
    }
}

/// The paths a repository listing names (see `listing_paths_spec`).
pub fn listing_paths(doc: &Json, jsdelivr: bool) -> (r: Vec<String>)
    ensures
        string_views(r@) == listing_paths_spec(*doc, jsdelivr),
{
    let mut out: Vec<String> = Vec::new();
    assert(string_views(out@) =~= Seq::<Seq<char>>::empty());
    if jsdelivr {
        collect_listed(doc, "", &mut out);
        assert(""@ =~= Seq::<char>::empty()) by {
            reveal_strlit("");
        }
        assert(string_views(out@) =~= listed_files(*doc, Seq::empty()));
        return out;
    }
    match field(doc, "tree") {
        Some(Json::Array(nodes)) => {
            let mut k: usize = 0;
            while k < nodes.len()
                invariant
                    k <= nodes@.len(),
                    string_views(out@) == tree_paths(nodes@.take(k as int)),
                decreases nodes.len() - k,
            {
                assert(nodes@.take(k + 1).drop_last() =~= nodes@.take(k as int));
                if let Some(p) = str_field(&nodes[k], "path") {
                    out.push(p);
                    assert(string_views(out@) =~= tree_paths(nodes@.take(k as int)).push(p@));
                }
                k += 1;
            }
            assert(nodes@.take(nodes.len() as int) =~= nodes@);
            out
        },
        _ => out,
    }
}

} // verus!
