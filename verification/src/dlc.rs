//! Script packages (DLC): where the script lies inside a package, which
//! folder it is installed to, and which entries are unpacked where.

use vstd::prelude::*;

use crate::live2d_auto::{lemma_name_lt_irreflexive, lemma_name_lt_transitive, name_lt, names_view, str_lt};
use crate::live2d_import::trim_end_all;
use crate::path::{file_stem, file_stem_spec};
use crate::text::{
    chars_ends_with, chars_of, chars_starts_with, count_char, chars_count, ends_with, owned,
    starts_with, str_eq, string_of,
};

verus! {

/// The configuration file that marks a script's folder.
pub const SCRIPT_CONFIG: &'static str = "story_config.yaml";

/// An installed script package as the front end lists it.
#[derive(Debug, Clone)]
pub struct DlcInfo {
    pub folder_key: String,
    pub name: String,
    pub description: String,
    pub content_warning: Option<String>,
    pub version: String,
    pub author: String,
    pub imported_at: String,
}

/// No package is listed before one whose name sorts before its own.
pub open spec fn dlcs_by_name(s: Seq<DlcInfo>) -> bool {
    forall|i: int, j: int| 0 <= i < j < s.len() ==> !name_lt(#[trigger] s[j].name@, #[trigger] s[i].name@)
}

/// The installed packages in the order the front end lists them: by name
/// (compared character by character), the same packages, each as often as
/// given.
pub fn sort_dlcs(found: Vec<DlcInfo>) -> (r: Vec<DlcInfo>)
    ensures
        dlcs_by_name(r@),
        r@.to_multiset() == found@.to_multiset(),
{
    let mut rest = found;
    let ghost all = rest@;
    let n: usize = rest.len();
    let mut r: Vec<DlcInfo> = Vec::new();
    let mut k: usize = 0;
    assert(all.take(0) =~= r@);
    assert(all.subrange(0, all.len() as int) =~= all);
    while rest.len() > 0
        invariant
            k <= all.len(),
            all.len() == n,
            rest@ == all.subrange(k as int, all.len() as int),
            dlcs_by_name(r@),
            r@.to_multiset() == all.take(k as int).to_multiset(),
        decreases rest.len(),
    {
        let x = rest.remove(0);
        assert(x == all[k as int]);
        assert(rest@ =~= all.subrange(k + 1, all.len() as int));
        let mut pos: usize = 0;
        while pos < r.len() && !str_lt(x.name.as_str(), r[pos].name.as_str())
            invariant
                pos <= r@.len(),
                forall|i: int| 0 <= i < pos ==> !name_lt(x.name@, #[trigger] r@[i].name@),
            decreases r.len() - pos,
        {
            pos += 1;
        }
        let ghost before = r@;
        r.insert(pos, x);
        proof {
            let nv = r@;
            assert(nv == before.insert(pos as int, x));
            assert forall|i: int, j: int| 0 <= i < j < nv.len() implies !name_lt(
                #[trigger] nv[j].name@,
                #[trigger] nv[i].name@,
            ) by {
                if j < pos {
                    assert(nv[i] == before[i] && nv[j] == before[j]);
                } else if i > pos {
                    assert(nv[i] == before[i - 1] && nv[j] == before[j - 1]);
                } else if j == pos {
                    assert(nv[i] == before[i] && nv[j] == x);
                } else if i == pos {
                    assert(nv[i] == x && nv[j] == before[j - 1]);
                    if name_lt(nv[j].name@, x.name@) {
                        assert(pos < before.len());
                        assert(name_lt(x.name@, before[pos as int].name@));
                        lemma_name_lt_transitive(nv[j].name@, x.name@, before[pos as int].name@);
                        if j - 1 == pos {
                            lemma_name_lt_irreflexive(before[pos as int].name@);
                        }
                    }
                } else {
                    assert(nv[i] == before[i] && nv[j] == before[j - 1]);
                }
            }
            assert(all.take(k + 1) =~= all.take(k as int).push(all[k as int]));
            vstd::seq_lib::to_multiset_insert(before, pos as int, x);
            vstd::seq_lib::to_multiset_build(all.take(k as int), all[k as int]);
        }
        k += 1;
    }
    assert(all.take(k as int) =~= all);
    r
}

/// The folder an entry's configuration file lies in, when it lies one
/// level down: the entry's name without `story_config.yaml`, which must be
/// one non-empty folder name followed by `/` (`<folder>/`).
pub open spec fn root_candidate(name: Seq<char>) -> Option<Seq<char>> {
    if ends_with(name, SCRIPT_CONFIG@) {
        let prefix = name.take(name.len() - SCRIPT_CONFIG@.len());
        if prefix.len() > 1 && prefix.last() == '/' && count_char(prefix, '/') == 1 {
            Some(prefix)
        } else {
            None
        }
    } else {
        None
    }
}

pub open spec fn names_of(names: Seq<String>, i: int) -> Seq<char> {
    names[i]@
}

fn candidate_of(name: &str) -> (r: Option<Vec<char>>)
    ensures
        match root_candidate(name@) {
            Some(p) => r matches Some(x) && x@ == p,
            None => r is None,
        },
{
    let v = chars_of(name);
    let cfg = chars_of(SCRIPT_CONFIG);
    if !chars_ends_with(v.as_slice(), cfg.as_slice()) {
        return None;
    }
    let mut prefix = v;
    let keep = prefix.len() - cfg.len();
    prefix.truncate(keep);
    if prefix.len() > 1 && prefix[prefix.len() - 1] == '/' && chars_count(prefix.as_slice(), '/') == 1 {
        Some(prefix)
    } else {
        None
    }
}

pub const NO_SCRIPT_CONFIG: &'static str = "DLC 包里找不到 story_config.yaml，不是有效的剧本包";

pub const MANY_SCRIPT_CONFIGS: &'static str = "DLC 包里有多个 story_config.yaml，无法识别主剧本";

/// The root prefix of the script inside a package with these entry names:
/// empty when the configuration lies at the top, else the one folder
/// (with its `/`) whose configuration lies one level down. No such folder,
/// or more than one, is an error. This is what [`detect_script_root`]
/// answers.
pub open spec fn script_root_spec(names: Seq<Seq<char>>) -> Result<Seq<char>, Seq<char>> {
    if exists|i: int| 0 <= i < names.len() && names[i] == SCRIPT_CONFIG@ {
        Ok(Seq::<char>::empty())
    } else if forall|i: int| 0 <= i < names.len() ==> root_candidate(names[i]) is None {
        Err(NO_SCRIPT_CONFIG@)
    } else if exists|i: int, j: int|
        0 <= i < names.len() && 0 <= j < names.len() && root_candidate(names[i]) is Some
            && root_candidate(names[j]) is Some && root_candidate(names[i]) != root_candidate(
            names[j],
        ) {
        Err(MANY_SCRIPT_CONFIGS@)
    } else {
        let i = choose|i: int| 0 <= i < names.len() && root_candidate(names[i]) is Some;
        Ok(root_candidate(names[i]).unwrap())
    }
}

pub fn detect_script_root(names: &[String]) -> (r: Result<String, String>)
    ensures
        match script_root_spec(names_view(names@)) {
            Ok(p) => r matches Ok(x) && x@ == p,
            Err(m) => r matches Err(e) && e@ == m,
        },
{
    let ghost nv = names_view(names@);
    assert(forall|j: int| 0 <= j < names@.len() ==> nv[j] == names@[j]@);
    let mut k: usize = 0;
    while k < names.len()
        invariant
            k <= names@.len(),
            forall|j: int| 0 <= j < k ==> names@[j]@ != SCRIPT_CONFIG@,
        decreases names.len() - k,
    {
        if str_eq(names[k].as_str(), SCRIPT_CONFIG) {
            assert(names_view(names@)[k as int] == SCRIPT_CONFIG@);
            return Ok(String::new());
        }
        k += 1;
    }
    let mut found: Option<Vec<char>> = None;
    let mut i: usize = 0;
    while i < names.len()
        invariant
            i <= names@.len(),
            nv == names_view(names@),
            forall|j: int| 0 <= j < names@.len() ==> nv[j] == names@[j]@,
            forall|j: int| 0 <= j < names@.len() ==> names@[j]@ != SCRIPT_CONFIG@,
            match found {
                None => forall|j: int| 0 <= j < i ==> root_candidate(names@[j]@) is None,
                Some(f) => (exists|j: int| 0 <= j < i && root_candidate(names@[j]@) == Some(f@))
                    && forall|j: int|
                    0 <= j < i && root_candidate(names@[j]@) is Some ==> root_candidate(
                        names@[j]@,
                    ) == Some(f@),
            },
        decreases names.len() - i,
    {
        let c = candidate_of(names[i].as_str());
        if c.is_some() {
            let cv = c.unwrap();
            match &found {
                None => {
                    found = Some(cv);
                },
                Some(f) => {
                    if !crate::text::chars_eq(f.as_slice(), cv.as_slice()) {
                        let ghost fv = f@;
                        assert(exists|j: int| 0 <= j < i && root_candidate(names@[j]@) == Some(fv));
                        let ghost j0 = choose|j: int| 0 <= j < i && root_candidate(names@[j]@) == Some(fv);
                        assert(root_candidate(names@[j0]@) != root_candidate(names@[i as int]@));
                        assert(root_candidate(nv[j0]) is Some && root_candidate(nv[i as int]) is Some
                            && root_candidate(nv[j0]) != root_candidate(nv[i as int]));
                        assert(!(forall|x: int| 0 <= x < nv.len() ==> root_candidate(nv[x]) is None));
                        assert(!(exists|x: int| 0 <= x < nv.len() && nv[x] == SCRIPT_CONFIG@));
                        return Err(owned(MANY_SCRIPT_CONFIGS));
                    }
                },
            }
        }
        i += 1;
    }
    match found {
        None => {
            assert(forall|x: int| 0 <= x < nv.len() ==> root_candidate(nv[x]) is None);
            assert(!(exists|x: int| 0 <= x < nv.len() && nv[x] == SCRIPT_CONFIG@));
            Err(owned(NO_SCRIPT_CONFIG))
        },
        Some(f) => {
            proof {
                assert forall|a: int, b: int|
                    0 <= a < nv.len() && 0 <= b < nv.len() && root_candidate(nv[a]) is Some
                        && root_candidate(nv[b]) is Some implies root_candidate(nv[a])
                    == root_candidate(nv[b]) by {
                    assert(nv[a] == names@[a]@);
                    assert(nv[b] == names@[b]@);
                }
                assert(!(exists|x: int| 0 <= x < nv.len() && nv[x] == SCRIPT_CONFIG@));
                let w = choose|j: int| 0 <= j < names@.len() && root_candidate(names@[j]@) == Some(f@);
                assert(root_candidate(nv[w]) == Some(f@));
                let c = choose|x: int| 0 <= x < nv.len() && root_candidate(nv[x]) is Some;
                assert(nv[c] == names@[c]@);
            }
            Ok(string_of(f.as_slice()))
        },
    }
}

/// The folder a package is installed to: the wrapping folder's name, or,
/// for a package without one, the archive's file stem.
pub open spec fn dlc_folder_spec(root_prefix: Seq<char>, zip_path: Seq<char>) -> Seq<char> {
    if root_prefix.len() == 0 {
        match file_stem_spec(zip_path) {
            Some(s) => s,
            None => Seq::<char>::empty(),
        }
    } else {
        trim_end_all(root_prefix, "/"@)
    }
}

pub fn dlc_folder_name(root_prefix: &str, zip_path: &str) -> (r: String)
    ensures
        r@ == dlc_folder_spec(root_prefix@, zip_path@),
{
    let rv = chars_of(root_prefix);
    if rv.len() == 0 {
        return match file_stem(zip_path) {
            Some(s) => string_of(s.as_slice()),
            None => String::new(),
        };
    }
    let mut cur = rv;
    let slash = chars_of("/");
    proof {
        reveal_strlit("/");
    }
    while chars_ends_with(cur.as_slice(), slash.as_slice())
        invariant
            slash@ == "/"@,
            slash@.len() == 1,
            trim_end_all(root_prefix@, "/"@) == trim_end_all(cur@, "/"@),
        decreases cur@.len(),
    {
        let keep = cur.len() - 1;
        let ghost before = cur@;
        cur.truncate(keep);
        assert(cur@ =~= before.take(before.len() - 1));
    }
    string_of(cur.as_slice())
}

/// Where an entry of the package goes, relative to the install folder:
/// entries outside the script's folder, and the folder itself, are left
/// out.
pub open spec fn entry_target_spec(entry: Seq<char>, root_prefix: Seq<char>) -> Option<Seq<char>> {
    let rel = if root_prefix.len() == 0 {
        Some(entry)
    } else if starts_with(entry, root_prefix) {
        Some(entry.skip(root_prefix.len() as int))
    } else {
        None
    };
    match rel {
        Some(r) => if r.len() == 0 {
            None
        } else {
            Some(r)
        },
        None => None,
    }
}

pub fn entry_target(entry: &str, root_prefix: &str) -> (r: Option<String>)
    ensures
        match entry_target_spec(entry@, root_prefix@) {
            Some(t) => r matches Some(x) && x@ == t,
            None => r is None,
        },
{
    let ev = chars_of(entry);
    let pv = chars_of(root_prefix);
    if pv.len() == 0 {
        if ev.len() == 0 {
            return None;
        }
        return Some(owned(entry));
    }
    if !chars_starts_with(ev.as_slice(), pv.as_slice()) {
        return None;
    }
    let rest = vstd::slice::slice_to_vec(vstd::slice::slice_subrange(ev.as_slice(), pv.len(), ev.len()));
    assert(rest@ =~= ev@.skip(pv@.len() as int));
    if rest.len() == 0 {
        return None;
    }
    Some(string_of(rest.as_slice()))
}


/// The install time a package's marker keeps when it is written back: the
/// one it has, or `now` when it has none.
pub fn stamped_imported_at(current: String, now: String) -> (r: String)
    ensures
        current@.len() == 0 ==> r == now,
        current@.len() > 0 ==> r == current,
{
    if chars_of(current.as_str()).len() == 0 {
        now
    } else {
        current
    }
}

} // verus!
