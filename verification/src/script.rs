//! Story scripts: how a loaded script is listed, and which built-in
//! scripts the script editor may not open.

use vstd::prelude::*;

use crate::media::listed_in;
use crate::path::{join_from, join_parts, part_views, parts_of, path_parts};
use crate::text::{chars_eq, chars_of, owned, str_eq, string_of};

verus! {

/// Built-in scripts (by folder name) kept from the script editor: they use
/// events the editor does not support.
pub const PROTECTED_SCRIPT_FOLDERS: [&'static str; 1] = ["第七个测试剧本"];

pub fn is_protected_script(folder_name: &str) -> (r: bool)
    ensures
        r == listed_in(PROTECTED_SCRIPT_FOLDERS@, folder_name@),
{
    let mut i: usize = 0;
    while i < PROTECTED_SCRIPT_FOLDERS.len()
        invariant
            i <= PROTECTED_SCRIPT_FOLDERS@.len(),
            forall|j: int| 0 <= j < i ==> (#[trigger] PROTECTED_SCRIPT_FOLDERS@[j])@ != folder_name@,
        decreases PROTECTED_SCRIPT_FOLDERS.len() - i,
    {
        if str_eq(PROTECTED_SCRIPT_FOLDERS[i], folder_name) {
            return true;
        }
        i += 1;
    }
    false
}

/// What the list of scripts shows of a loaded script.
#[derive(Debug, Clone)]
pub struct ScriptStatus {
    pub name: String,
    pub description: String,
    pub folder_key: String,
    pub intro_chapter: String,
    pub plugin_id: Option<String>,
}

#[derive(Debug, Clone)]
pub struct ScriptSummary {
    pub script_name: String,
    pub description: String,
    pub folder_key: String,
    pub intro_chapter: String,
    /// `game`, or the id of the plugin that provides the script.
    pub source: String,
    pub plugin_id: Option<String>,
}

#[derive(Debug, Clone)]
pub struct ScriptListResponse {
    pub scripts: Vec<ScriptSummary>,
}

pub fn summary_of(s: &ScriptStatus) -> (r: ScriptSummary)
    ensures
        r.script_name == s.name,
        r.description == s.description,
        r.folder_key == s.folder_key,
        r.intro_chapter == s.intro_chapter,
        r.source@ == match s.plugin_id {
            Some(p) => p@,
            None => "game"@,
        },
        r.plugin_id == s.plugin_id,
{
    ScriptSummary {
        script_name: s.name.clone(),
        description: s.description.clone(),
        folder_key: s.folder_key.clone(),
        intro_chapter: s.intro_chapter.clone(),
        source: match &s.plugin_id {
            Some(p) => p.clone(),
            None => owned("game"),
        },
        plugin_id: s.plugin_id.clone(),
    }
}

/// Where `name` first stands among `parts`.
pub open spec fn first_part_index(parts: Seq<Seq<char>>, name: Seq<char>) -> Option<int>
    decreases parts.len(),
{
    if parts.len() == 0 {
        None
    } else {
        match first_part_index(parts.drop_last(), name) {
            Some(i) => Some(i),
            None => if parts.last() == name {
                Some(parts.len() - 1)
            } else {
                None
            },
        }
    }
}

pub proof fn lemma_first_part_prefix(parts: Seq<Seq<char>>, name: Seq<char>, k: int)
    requires
        0 <= k <= parts.len(),
        first_part_index(parts.take(k), name) is Some,
    ensures
        first_part_index(parts, name) == first_part_index(parts.take(k), name),
    decreases parts.len(),
{
    if k < parts.len() {
        assert(parts.take(k) =~= parts.drop_last().take(k));
        lemma_first_part_prefix(parts.drop_last(), name, k);
    } else {
        assert(parts.take(k) =~= parts);
    }
}

/// The key of a script: its path after the first `scripts` component,
/// joined with `/`; the whole path when it has no `scripts` component.
pub open spec fn path_key_spec(script_path: Seq<char>) -> Seq<char> {
    let p = path_parts(script_path);
    match first_part_index(p, "scripts"@) {
        Some(i) => join_parts(p.skip(i + 1)),
        None => script_path,
    }
}

pub fn path_key(script_path: &str) -> (r: String)
    ensures
        r@ == path_key_spec(script_path@),
{
    let v = chars_of(script_path);
    let parts = parts_of(v.as_slice());
    let scripts = chars_of("scripts");
    let ghost p = path_parts(script_path@);
    let mut k: usize = 0;
    while k < parts.len()
        invariant
            k <= parts@.len(),
            p == path_parts(script_path@),
            parts@.len() == p.len(),
            forall|i: int| 0 <= i < parts@.len() ==> #[trigger] parts@[i]@ == p[i],
            scripts@ == "scripts"@,
            first_part_index(p.take(k as int), "scripts"@) is None,
        decreases parts.len() - k,
    {
        assert(p.take(k + 1).drop_last() =~= p.take(k as int));
        assert(p.take(k + 1).last() == p[k as int]);
        if chars_eq(parts[k].as_slice(), scripts.as_slice()) {
            proof {
                assert(first_part_index(p.take(k + 1), "scripts"@) == Some(k as int));
                lemma_first_part_prefix(p, "scripts"@, k + 1);
            }
            let rest = join_from(&parts, k + 1);
            assert(part_views(parts@.skip(k + 1)) =~= p.skip(k + 1));
            return string_of(rest.as_slice());
        }
        k += 1;
    }
    assert(p.take(p.len() as int) =~= p);
    owned(script_path)
}

/// Whether a script (or an adventure, `kind` names which) may start: not
/// while the player speaks as another identity than the default one, and
/// not while one already runs.
pub fn script_start_check(possessed_role_id: i32, player_role_id: i32, running: bool, kind: &str) -> (r: Result<(), String>)
    ensures
        possessed_role_id != player_role_id ==> (r matches Err(e) && e@ == "请先解除扮演（切回默认身份）后再开始"@ + kind@),
        possessed_role_id == player_role_id && running ==> (r matches Err(e) && e@ == "已有剧本或冒险正在进行中"@),
        possessed_role_id == player_role_id && !running ==> r is Ok,
{
    if possessed_role_id != player_role_id {
        let mut e = owned("请先解除扮演（切回默认身份）后再开始");
        e.append(kind);
        return Err(e);
    }
    if running {
        return Err(owned("已有剧本或冒险正在进行中"));
    }
    Ok(())
}

} // verus!
