//! Scenes and the index that binds a scene's stored background text to a
//! file under the backgrounds directory.

use vstd::prelude::*;

use crate::path::{
    file_name, file_name_spec, is_absolute, is_parent_part, path_exists, path_is_absolute, path_parts,
    parts_of, relative_storage_path, relative_storage_path_spec,
};
use crate::text::{
    chars_contain, chars_eq, chars_of, concat2, concat3, contains_char, lowercase, owned,
    starts_with, str_eq, string_of, to_lowercase, trim, trim_bounds,
};

verus! {

/// Name of the category of backgrounds stored directly in the root folder.
pub open spec fn root_category() -> Seq<char> {
    "根目录"@
}

pub open spec fn backslash_to_slash(s: Seq<char>) -> Seq<char> {
    s.map_values(|c: char| if c == '\\' { '/' } else { c })
}

/// `trim_start_matches("./")`: every leading `./` removed.
pub open spec fn strip_dot_slash(s: Seq<char>) -> Seq<char>
    decreases s.len(),
{
    if starts_with(s, seq!['.', '/']) {
        strip_dot_slash(s.skip(2))
    } else {
        s
    }
}

/// The key under which a background path is looked up: `\` turned into
/// `/`, leading `./` removed, lowercased.
pub open spec fn relative_key_spec(raw: Seq<char>) -> Seq<char> {
    lowercase(strip_dot_slash(backslash_to_slash(raw)))
}

pub fn relative_key(raw: &str) -> (r: String)
    ensures
        r@ == relative_key_spec(raw@),
{
    let v = chars_of(raw);
    let mut w: Vec<char> = Vec::new();
    let mut i: usize = 0;
    while i < v.len()
        invariant
            i <= v.len(),
            v@ == raw@,
            w@ == backslash_to_slash(v@.take(i as int)),
        decreases v.len() - i,
    {
        w.push(if v[i] == '\\' { '/' } else { v[i] });
        assert(backslash_to_slash(v@.take(i + 1)) =~= backslash_to_slash(v@.take(i as int)).push(
            if v@[i as int] == '\\' { '/' } else { v@[i as int] },
        ));
        i += 1;
    }
    assert(v@.take(v.len() as int) =~= v@);
    let ghost full = w@;
    let mut start: usize = 0;
    assert(w@.skip(0) =~= w@);
    while start < w.len() && w.len() - start >= 2 && w[start] == '.' && w[start + 1] == '/'
        invariant
            start <= w@.len(),
            full == w@,
            strip_dot_slash(full) == strip_dot_slash(w@.skip(start as int)),
        decreases w.len() - start,
    {
        assert(w@.skip(start as int).subrange(0, 2) =~= seq!['.', '/']);
        assert(w@.skip(start as int).skip(2) =~= w@.skip(start + 2));
        start += 2;
    }
    proof {
        if starts_with(w@.skip(start as int), seq!['.', '/']) {
            assert(w@.skip(start as int)[0] == w@[start as int]);
            assert(w@.skip(start as int)[1] == w@[start + 1]);
        }
    }
    let rest = string_of(vstd::slice::slice_subrange(w.as_slice(), start, w.len()));
    to_lowercase(rest.as_str())
}

/// `Path::file_name` of the raw text, falling back to the text itself;
/// empty text stays empty.
pub open spec fn background_filename_spec(raw: Seq<char>) -> Seq<char> {
    if raw.len() == 0 {
        raw
    } else {
        match file_name_spec(raw) {
            Some(n) => n,
            None => raw,
        }
    }
}

pub fn to_background_filename(raw: &str) -> (r: String)
    ensures
        r@ == background_filename_spec(raw@),
{
    let v = chars_of(raw);
    if v.len() == 0 {
        return String::new();
    }
    match file_name(raw) {
        Some(n) => n,
        None => raw.to_owned(),
    }
}

/// The category of a stored relative path: the name of its parent folder,
/// or the root category when there is none.
pub open spec fn category_spec(raw: Seq<char>) -> Seq<char> {
    let p = path_parts(raw);
    if p.len() >= 2 && !is_parent_part(p[p.len() - 2]) {
        p[p.len() - 2]
    } else {
        root_category()
    }
}

pub fn category_from_storage_path(raw: &str) -> (r: String)
    ensures
        r@ == category_spec(raw@),
{
    let v = chars_of(raw);
    let p = parts_of(v.as_slice());
    if p.len() >= 2 && !crate::path::is_parent(p[p.len() - 2].as_slice()) {
        string_of(p[p.len() - 2].as_slice())
    } else {
        owned("根目录")
    }
}

// ---------------------------------------------------------------------------
// Background index
// ---------------------------------------------------------------------------

/// `(key, path)` pairs for the files that lie under `base`, in file order.
pub open spec fn relative_entries(base: Seq<char>, files: Seq<Seq<char>>) -> Seq<
    (Seq<char>, Seq<char>),
>
    decreases files.len(),
{
    if files.len() == 0 {
        Seq::empty()
    } else {
        let rest = relative_entries(base, files.drop_last());
        match relative_storage_path_spec(files.last(), base) {
            Some(rel) => rest.push((relative_key_spec(rel), files.last())),
            None => rest,
        }
    }
}

/// `(lowercased file name, path)` pairs for the files under `base`.
pub open spec fn name_entries(base: Seq<char>, files: Seq<Seq<char>>) -> Seq<
    (Seq<char>, Seq<char>),
>
    decreases files.len(),
{
    if files.len() == 0 {
        Seq::empty()
    } else {
        let rest = name_entries(base, files.drop_last());
        match relative_storage_path_spec(files.last(), base) {
            Some(_) => match file_name_spec(files.last()) {
                Some(n) => rest.push((lowercase(n), files.last())),
                None => rest,
            },
            None => rest,
        }
    }
}

/// Map lookup where a later entry overrides an earlier one.
pub open spec fn lookup_last(entries: Seq<(Seq<char>, Seq<char>)>, key: Seq<char>) -> Option<
    Seq<char>,
>
    decreases entries.len(),
{
    if entries.len() == 0 {
        None
    } else if entries.last().0 == key {
        Some(entries.last().1)
    } else {
        lookup_last(entries.drop_last(), key)
    }
}

/// Every path recorded under `key`, in insertion order.
pub open spec fn lookup_all(entries: Seq<(Seq<char>, Seq<char>)>, key: Seq<char>) -> Seq<
    Seq<char>,
>
    decreases entries.len(),
{
    if entries.len() == 0 {
        Seq::empty()
    } else if entries.last().0 == key {
        lookup_all(entries.drop_last(), key).push(entries.last().1)
    } else {
        lookup_all(entries.drop_last(), key)
    }
}

pub open spec fn ambiguous_message(name: Seq<char>) -> Seq<char> {
    "背景文件名存在多个匹配，无法确定场景绑定路径: "@ + name
}

/// How a stored background text resolves: `Ok(None)` when nothing is bound
/// or the file is gone, `Err` when a bare file name matches several files.
/// `exists` tells whether `raw`, read as a path, names an existing file.
pub open spec fn resolve_spec(
    by_relative: Seq<(Seq<char>, Seq<char>)>,
    by_name: Seq<(Seq<char>, Seq<char>)>,
    raw: Seq<char>,
    category: Seq<char>,
    exists: bool,
) -> Result<Option<Seq<char>>, Seq<char>> {
    if trim(raw).len() == 0 {
        Ok(None)
    } else if is_absolute(raw) && exists {
        Ok(Some(raw))
    } else {
        let has_parent = contains_char(raw, '/') || contains_char(raw, '\\');
        if has_parent && lookup_last(by_relative, relative_key_spec(raw)) is Some {
            Ok(lookup_last(by_relative, relative_key_spec(raw)))
        } else {
            let name = background_filename_spec(raw);
            if name.len() == 0 {
                Ok(None)
            } else {
                let key = if category.len() == 0 || category == root_category() {
                    relative_key_spec(name)
                } else {
                    relative_key_spec(category + seq!['/'] + name)
                };
                match lookup_last(by_relative, key) {
                    Some(p) => Ok(Some(p)),
                    None => {
                        let m = lookup_all(by_name, lowercase(name));
                        if m.len() == 0 {
                            Ok(None)
                        } else if m.len() == 1 {
                            Ok(Some(m[0]))
                        } else {
                            Err(ambiguous_message(name))
                        }
                    },
                }
            }
        }
    }
}

/// Index of the background files, by relative key and by file name.
pub struct BackgroundIndex {
    by_relative: Vec<(String, String)>,
    by_name: Vec<(String, String)>,
}

pub open spec fn pair_views(v: Seq<(String, String)>) -> Seq<(Seq<char>, Seq<char>)> {
    v.map_values(|p: (String, String)| (p.0@, p.1@))
}

pub open spec fn string_views(v: Seq<String>) -> Seq<Seq<char>> {
    v.map_values(|s: String| s@)
}

fn find_last(entries: &Vec<(String, String)>, key: &str) -> (r: Option<String>)
    ensures
        match lookup_last(pair_views(entries@), key@) {
            Some(p) => r matches Some(x) && x@ == p,
            None => r is None,
        },
{
    let ghost views = pair_views(entries@);
    let mut i: usize = entries.len();
    assert(views.take(entries.len() as int) =~= views);
    while i > 0
        invariant
            i <= entries@.len(),
            views == pair_views(entries@),
            lookup_last(views, key@) == lookup_last(views.take(i as int), key@),
        decreases i,
    {
        let e = &entries[i - 1];
        assert(views.take(i as int).last() == (e.0@, e.1@));
        if str_eq(e.0.as_str(), key) {
            return Some(e.1.clone());
        }
        assert(views.take(i as int).drop_last() =~= views.take(i - 1));
        i -= 1;
    }
    None
}

fn find_all(entries: &Vec<(String, String)>, key: &str) -> (r: Vec<String>)
    ensures
        string_views(r@) == lookup_all(pair_views(entries@), key@),
{
    let ghost views = pair_views(entries@);
    let mut out: Vec<String> = Vec::new();
    let mut i: usize = 0;
    while i < entries.len()
        invariant
            i <= entries@.len(),
            views == pair_views(entries@),
            string_views(out@) == lookup_all(views.take(i as int), key@),
        decreases entries.len() - i,
    {
        let e = &entries[i];
        assert(views.take(i + 1).drop_last() =~= views.take(i as int));
        assert(views.take(i + 1).last() == (e.0@, e.1@));
        if str_eq(e.0.as_str(), key) {
            let ghost before = out@;
            out.push(e.1.clone());
            assert(string_views(out@) =~= string_views(before).push(e.1@));
        }
        i += 1;
    }
    assert(views.take(entries.len() as int) =~= views);
    out
}

impl BackgroundIndex {
    pub closed spec fn relative_view(&self) -> Seq<(Seq<char>, Seq<char>)> {
        pair_views(self.by_relative@)
    }

    pub closed spec fn name_view(&self) -> Seq<(Seq<char>, Seq<char>)> {
        pair_views(self.by_name@)
    }

    /// Indexes `files` (paths) by their location relative to `base`.
    pub fn build(base: &str, files: &[String]) -> (index: Self)
        ensures
            index.relative_view() == relative_entries(base@, string_views(files@)),
            index.name_view() == name_entries(base@, string_views(files@)),
    {
        let ghost fv = string_views(files@);
        let mut by_relative: Vec<(String, String)> = Vec::new();
        let mut by_name: Vec<(String, String)> = Vec::new();
        let mut i: usize = 0;
        while i < files.len()
            invariant
                i <= files@.len(),
                fv == string_views(files@),
                pair_views(by_relative@) == relative_entries(base@, fv.take(i as int)),
                pair_views(by_name@) == name_entries(base@, fv.take(i as int)),
            decreases files.len() - i,
        {
            let path = &files[i];
            assert(fv.take(i + 1).drop_last() =~= fv.take(i as int));
            assert(fv.take(i + 1).last() == path@);
            match relative_storage_path(path.as_str(), base) {
                Some(relative) => {
                    let ghost r0 = by_relative@;
                    by_relative.push((relative_key(relative.as_str()), path.clone()));
                    assert(pair_views(by_relative@) =~= pair_views(r0).push(
                        (relative_key_spec(relative@), path@),
                    ));
                    match file_name(path.as_str()) {
                        Some(name) => {
                            let ghost n0 = by_name@;
                            by_name.push((to_lowercase(name.as_str()), path.clone()));
                            assert(pair_views(by_name@) =~= pair_views(n0).push(
                                (lowercase(name@), path@),
                            ));
                        },
                        None => {},
                    }
                },
                None => {},
            }
            i += 1;
        }
        assert(fv.take(files.len() as int) =~= fv);
        BackgroundIndex { by_relative, by_name }
    }

    /// `resolve` with the existence of `raw` as an absolute file given.
    pub fn resolve_known(&self, raw: &str, category: &str, exists: bool) -> (r: Result<
        Option<String>,
        String,
    >)
        ensures
            match resolve_spec(self.relative_view(), self.name_view(), raw@, category@, exists) {
                Ok(Some(p)) => r matches Ok(Some(x)) && x@ == p,
                Ok(None) => r matches Ok(None),
                Err(m) => r matches Err(e) && e@ == m,
            },
    {
        let v = chars_of(raw);
        let (a, b) = trim_bounds(v.as_slice());
        if a == b {
            assert(trim(raw@).len() == 0);
            return Ok(None);
        }
        if crate::path::chars_absolute(v.as_slice()) && exists {
            return Ok(Some(raw.to_owned()));
        }
        let normalized = relative_key(raw);
        let has_parent = chars_contain(v.as_slice(), '/') || chars_contain(v.as_slice(), '\\');
        if has_parent {
            match find_last(&self.by_relative, normalized.as_str()) {
                Some(p) => {
                    return Ok(Some(p));
                },
                None => {},
            }
        }
        let name = to_background_filename(raw);
        if name.as_str().is_empty() {
            return Ok(None);
        }
        let key = if category.is_empty() || str_eq(category, "根目录") {
            relative_key(name.as_str())
        } else {
            let joined = concat3(category, "/", name.as_str());
            assert(joined@ == category@ + seq!['/'] + name@) by {
                reveal_strlit("/");
            }
            relative_key(joined.as_str())
        };
        if let Some(p) = find_last(&self.by_relative, key.as_str()) {
            return Ok(Some(p));
        }
        let lower = to_lowercase(name.as_str());
        let mut matches = find_all(&self.by_name, lower.as_str());
        if matches.len() == 0 {
            Ok(None)
        } else if matches.len() == 1 {
            Ok(Some(matches.remove(0)))
        } else {
            Err(concat2("背景文件名存在多个匹配，无法确定场景绑定路径: ", name.as_str()))
        }
    }

    /// Resolves a stored background text (a relative path, a bare file name
    /// or an absolute path) to the file it designates, using `category` to
    /// tell apart files of the same name.
    pub fn resolve(&self, raw: &str, category: &str) -> (r: Result<Option<String>, String>)
        ensures
            exists|exists: bool|
                #![trigger resolve_spec(self.relative_view(), self.name_view(), raw@, category@, exists)]
                match resolve_spec(self.relative_view(), self.name_view(), raw@, category@, exists) {
                    Ok(Some(p)) => r matches Ok(Some(x)) && x@ == p,
                    Ok(None) => r matches Ok(None),
                    Err(m) => r matches Err(e) && e@ == m,
                },
            !is_absolute(raw@) ==> match resolve_spec(
                self.relative_view(),
                self.name_view(),
                raw@,
                category@,
                false,
            ) {
                Ok(Some(p)) => r matches Ok(Some(x)) && x@ == p,
                Ok(None) => r matches Ok(None),
                Err(m) => r matches Err(e) && e@ == m,
            },
    {
        let exists = path_is_absolute(raw) && path_exists(raw);
        self.resolve_known(raw, category, exists)
    }
}


// ---------------------------------------------------------------------------
// Scenes
// ---------------------------------------------------------------------------

/// A stored scene; `L` is the scene store's lighting parameters.
#[derive(Debug, Clone)]
pub struct Scene<L> {
    pub id: String,
    pub name: String,
    pub description: String,
    /// The background as stored: a path relative to the backgrounds folder,
    /// or, in older data, a bare file name or an absolute path.
    pub background: String,
    pub category: String,
    pub lighting: Option<L>,
    pub created_at: String,
    pub updated_at: String,
    pub plugin_id: Option<String>,
}

/// A scene as the front end lists it.
#[derive(Debug, Clone)]
pub struct SceneInfo<L> {
    pub id: String,
    pub scene_name: String,
    pub scene_description: String,
    pub background: Option<String>,
    pub category: String,
    pub lighting: Option<L>,
    pub created_at: String,
    pub updated_at: String,
    pub source: String,
    pub plugin_id: Option<String>,
}

#[derive(Debug, Clone)]
pub struct CreateSceneRequest<L> {
    pub scene_name: String,
    pub scene_description: String,
    pub background: String,
    pub lighting: Option<L>,
}

#[derive(Debug, Clone)]
pub struct UpdateSceneRequest<L> {
    pub id: String,
    pub scene_name: String,
    pub scene_description: String,
    pub background: String,
    pub lighting: Option<L>,
}

/// What a resolution answer gives a listed scene: the file when there is
/// exactly one, nothing otherwise (an ambiguous name included).
pub open spec fn listed_background(res: Result<Option<Seq<char>>, Seq<char>>) -> Option<Seq<char>> {
    match res {
        Ok(Some(p)) => Some(p),
        _ => None,
    }
}

/// A scene as listed, with its background resolved through the index
/// (whether an absolute path exists is the disk's business).
pub fn model_to_info_with_background_index<L: Clone>(scene: &Scene<L>, index: &BackgroundIndex) -> (r:
    SceneInfo<L>)
    ensures
        exists|e: bool|
            #![trigger resolve_spec(index.relative_view(), index.name_view(), scene.background@, scene.category@, e)]
            match listed_background(
                resolve_spec(
                    index.relative_view(),
                    index.name_view(),
                    scene.background@,
                    scene.category@,
                    e,
                ),
            ) {
                Some(p) => r.background matches Some(x) && x@ == p,
                None => r.background is None,
            },
        r.id == scene.id,
        r.scene_name == scene.name,
        r.scene_description == scene.description,
        r.category == scene.category,
        r.created_at == scene.created_at,
        r.updated_at == scene.updated_at,
        r.source@ == match scene.plugin_id {
            Some(p) => p@,
            None => "game"@,
        },
        r.plugin_id == scene.plugin_id,
{
    let exists = path_is_absolute(scene.background.as_str()) && path_exists(scene.background.as_str());
    let resolved = index.resolve_known(scene.background.as_str(), scene.category.as_str(), exists);
    let background = match resolved {
        Ok(Some(p)) => Some(p),
        _ => None,
    };
    SceneInfo {
        id: scene.id.clone(),
        scene_name: scene.name.clone(),
        scene_description: scene.description.clone(),
        background,
        category: scene.category.clone(),
        lighting: scene.lighting.clone(),
        created_at: scene.created_at.clone(),
        updated_at: scene.updated_at.clone(),
        source: match &scene.plugin_id {
            Some(p) => p.clone(),
            None => owned("game"),
        },
        plugin_id: scene.plugin_id.clone(),
    }
}

/// Upgrades a scene of the game whose background is a bare file name or an
/// old absolute path to the path relative to `bg_base`, with the category
/// that path implies. Nothing changes when the background cannot be bound
/// to exactly one file under `bg_base`. Answers whether anything changed.
pub fn migrate_scene_background<L>(scene: &mut Scene<L>, bg_base: &str, index: &BackgroundIndex) -> (r:
    bool)
    ensures
        final(scene).id == old(scene).id,
        final(scene).name == old(scene).name,
        final(scene).description == old(scene).description,
        final(scene).lighting == old(scene).lighting,
        final(scene).created_at == old(scene).created_at,
        final(scene).updated_at == old(scene).updated_at,
        final(scene).plugin_id == old(scene).plugin_id,
        (old(scene).plugin_id is Some || trim(old(scene).background@).len() == 0) ==> !r
            && final(scene).background == old(scene).background && final(scene).category == old(scene).category,
        !(old(scene).plugin_id is Some || trim(old(scene).background@).len() == 0) ==> exists|e: bool|
            #![trigger resolve_spec(index.relative_view(), index.name_view(), old(scene).background@, old(scene).category@, e)]
            match resolve_spec(
                index.relative_view(),
                index.name_view(),
                old(scene).background@,
                old(scene).category@,
                e,
            ) {
                Ok(Some(p)) => match relative_storage_path_spec(p, bg_base@) {
                    Some(rel) => final(scene).background@ == rel && final(scene).category@
                        == category_spec(rel) && r == (old(scene).background@ != rel || old(scene).category@ != category_spec(rel)),
                    None => !r && final(scene).background == old(scene).background && final(scene).category == old(scene).category,
                },
                _ => !r && final(scene).background == old(scene).background && final(scene).category
                    == old(scene).category,
            },
{
    if scene.plugin_id.is_some() {
        return false;
    }
    let v = chars_of(scene.background.as_str());
    let (a, b) = trim_bounds(v.as_slice());
    if a == b {
        assert(trim(scene.background@).len() == 0);
        return false;
    }
    let exists = path_is_absolute(scene.background.as_str()) && path_exists(scene.background.as_str());
    let resolved = index.resolve_known(scene.background.as_str(), scene.category.as_str(), exists);
    let path = match resolved {
        Ok(Some(p)) => p,
        _ => {
            return false;
        },
    };
    let relative = match relative_storage_path(path.as_str(), bg_base) {
        Some(rel) => rel,
        None => {
            return false;
        },
    };
    let category = category_from_storage_path(relative.as_str());
    let changed = !str_eq(scene.background.as_str(), relative.as_str()) || !str_eq(
        scene.category.as_str(),
        category.as_str(),
    );
    scene.background = relative;
    scene.category = category;
    changed
}

// ---------------------------------------------------------------------------
// Creating, updating and deleting scenes
// ---------------------------------------------------------------------------

pub open spec fn is_lower_hex(c: char) -> bool {
    ('0' <= c && c <= '9') || ('a' <= c && c <= 'f')
}

/// A hyphenated UUID as text: 36 characters, `-` at 8, 13, 18 and 23,
/// lowercase hex digits elsewhere.
pub open spec fn is_hyphenated_uuid(s: Seq<char>) -> bool {
    &&& s.len() == 36
    &&& forall|i: int|
        0 <= i < 36 ==> if i == 8 || i == 13 || i == 18 || i == 23 {
            s[i] == '-'
        } else {
            is_lower_hex(#[trigger] s[i])
        }
}

/// `Uuid::new_v4().to_string()`: a random UUID, hyphenated and lowercase.
/// Which one is chance's business; only its form is stated.
#[verifier::external_body]
fn random_uuid() -> (r: String)
    ensures
        is_hyphenated_uuid(r@),
{
    uuid::Uuid::new_v4().to_string()
}

/// `chrono::Utc::now().to_rfc3339()`: the current time. Nothing is stated
/// of it: it is the clock's.
#[verifier::external_body]
fn now_rfc3339() -> (r: String) {
    chrono::Utc::now().to_rfc3339()
}

/// A new scene of the game, with a fresh id, its category taken from the
/// stored background, created and updated now.
pub fn new_scene<L>(req: CreateSceneRequest<L>, background: String) -> (r: Scene<L>)
    ensures
        is_hyphenated_uuid(r.id@),
        r.name == req.scene_name,
        r.description == req.scene_description,
        r.background == background,
        r.category@ == category_spec(background@),
        r.lighting == req.lighting,
        r.created_at == r.updated_at,
        r.plugin_id is None,
{
    let category = category_from_storage_path(background.as_str());
    let now = now_rfc3339();
    Scene {
        id: random_uuid(),
        name: req.scene_name,
        description: req.scene_description,
        background,
        category,
        lighting: req.lighting,
        created_at: now.clone(),
        updated_at: now,
        plugin_id: None,
    }
}

pub open spec fn scene_ids<L>(scenes: Seq<Scene<L>>) -> Seq<Seq<char>> {
    scenes.map_values(|s: Scene<L>| s.id@)
}

/// Where the first scene with this id stands.
fn scene_position<L>(scenes: &Vec<Scene<L>>, id: &str) -> (r: Option<usize>)
    ensures
        match r {
            Some(i) => i < scenes@.len() && scenes@[i as int].id@ == id@ && forall|j: int|
                0 <= j < i ==> scenes@[j].id@ != id@,
            None => forall|j: int| 0 <= j < scenes@.len() ==> scenes@[j].id@ != id@,
        },
{
    let mut i: usize = 0;
    while i < scenes.len()
        invariant
            i <= scenes@.len(),
            forall|j: int| 0 <= j < i ==> scenes@[j].id@ != id@,
        decreases scenes.len() - i,
    {
        if str_eq(scenes[i].id.as_str(), id) {
            return Some(i);
        }
        i += 1;
    }
    None
}

/// Updates the first scene with the request's id: its name, description,
/// background (and the category it implies), lighting and update time.
/// Answers the scene's position, or an error when no scene has the id.
pub fn apply_scene_update<L>(scenes: &mut Vec<Scene<L>>, req: UpdateSceneRequest<L>, background: String) -> (r:
    Result<usize, String>)
    ensures
        match r {
            Ok(i) => i < old(scenes)@.len() && old(scenes)@[i as int].id@ == req.id@ && (forall|j: int|
                0 <= j < i ==> old(scenes)@[j].id@ != req.id@) && final(scenes)@.len() == old(scenes)@.len()
                && (forall|j: int| 0 <= j < old(scenes)@.len() && j != i ==> final(scenes)@[j] == old(scenes)@[j])
                && final(scenes)@[i as int].id == old(scenes)@[i as int].id
                && final(scenes)@[i as int].name == req.scene_name
                && final(scenes)@[i as int].description == req.scene_description
                && final(scenes)@[i as int].background == background
                && final(scenes)@[i as int].category@ == category_spec(background@)
                && final(scenes)@[i as int].lighting == req.lighting
                && final(scenes)@[i as int].created_at == old(scenes)@[i as int].created_at
                && final(scenes)@[i as int].plugin_id == old(scenes)@[i as int].plugin_id,
            Err(e) => final(scenes)@ == old(scenes)@ && e@ == "场景 "@ + req.id@ + " 不存在"@
                && forall|j: int| 0 <= j < old(scenes)@.len() ==> old(scenes)@[j].id@ != req.id@,
        },
{
    let found = scene_position(scenes, req.id.as_str());
    if found.is_none() {
        let mut m = owned("场景 ");
        m.append(req.id.as_str());
        m.append(" 不存在");
        return Err(m);
    }
    let i = found.unwrap();
    let category = category_from_storage_path(background.as_str());
    let now = now_rfc3339();
    let ghost before = scenes@;
    let old_scene = scenes.remove(i);
    let updated = Scene {
        id: old_scene.id,
        name: req.scene_name,
        description: req.scene_description,
        background,
        category,
        lighting: req.lighting,
        created_at: old_scene.created_at,
        updated_at: now,
        plugin_id: old_scene.plugin_id,
    };
    scenes.insert(i, updated);
    assert(scenes@ =~= before.update(i as int, updated));
    Ok(i)
}

pub open spec fn other_than<L>(id: Seq<char>) -> spec_fn(Scene<L>) -> bool {
    |s: Scene<L>| s.id@ != id
}

/// Deletes every scene with this id; an error when there is none.
pub fn remove_scene<L>(scenes: &mut Vec<Scene<L>>, id: &str) -> (r: Result<(), String>)
    ensures
        final(scenes)@ == old(scenes)@.filter(other_than(id@)),
        (exists|j: int| 0 <= j < old(scenes)@.len() && old(scenes)@[j].id@ == id@) <==> r is Ok,
        r matches Err(e) ==> e@ == "场景 "@ + id@ + " 不存在"@,
{
    let ghost initial = scenes@;
    let mut kept: Vec<Scene<L>> = Vec::new();
    let mut removed = false;
    let mut rest: Vec<Scene<L>> = Vec::new();
    std::mem::swap(&mut rest, scenes);
    assert(rest@ == initial);
    assert(initial.skip(0) =~= initial);
    assert(initial.take(0).filter(other_than(id@)) =~= kept@);
    let mut taken: Vec<Scene<L>> = Vec::new();
    proof {
        reveal(Seq::filter);
    }
    while rest.len() > 0
        invariant
            rest@ == initial.skip(initial.len() - rest@.len()),
            rest@.len() <= initial.len(),
            kept@ == initial.take(initial.len() - rest@.len()).filter(other_than(id@)),
            removed <==> exists|j: int| 0 <= j < initial.len() - rest@.len() && initial[j].id@ == id@,
        decreases rest@.len(),
    {
        let ghost k = initial.len() - rest@.len();
        let s = rest.remove(0);
        assert(s == initial[k]);
        assert(initial.take(k + 1).drop_last() =~= initial.take(k));
        assert(rest@ =~= initial.skip(k + 1));
        let ghost kept_before = kept@;
        proof {
            reveal(Seq::filter);
        }
        assert(initial.take(k + 1).last() == s);
        if str_eq(s.id.as_str(), id) {
            removed = true;
            taken.push(s);
        } else {
            kept.push(s);
            assert(kept@ == kept_before.push(s));
        }
        assert(kept@ =~= initial.take(k + 1).filter(other_than(id@)));
    }
    assert(initial.take(initial.len() as int) =~= initial);
    *scenes = kept;
    if !removed {
        let mut m = owned("场景 ");
        m.append(id);
        m.append(" 不存在");
        return Err(m);
    }
    Ok(())
}

/// The first step of storing a background typed by the user: nothing for a
/// blank input, otherwise the file it designates (resolved as in the root
/// category), or an error when there is none or more than one.
pub fn resolve_input_background(raw: &str, index: &BackgroundIndex) -> (r: Result<Option<String>, String>)
    ensures
        trim(raw@).len() == 0 ==> r matches Ok(None),
        trim(raw@).len() > 0 ==> exists|e: bool|
            #![trigger resolve_spec(index.relative_view(), index.name_view(), raw@, root_category(), e)]
            match resolve_spec(index.relative_view(), index.name_view(), raw@, root_category(), e) {
                Ok(Some(p)) => r matches Ok(Some(x)) && x@ == p,
                Ok(None) => r matches Err(m) && m@ == "找不到背景文件: "@ + background_filename_spec(raw@),
                Err(m) => r matches Err(x) && x@ == m,
            },
{
    let v = chars_of(raw);
    let (a, b) = trim_bounds(v.as_slice());
    if a == b {
        assert(trim(raw@).len() == 0);
        return Ok(None);
    }
    let exists = path_is_absolute(raw) && path_exists(raw);
    proof {
        reveal_strlit("根目录");
    }
    match index.resolve_known(raw, "根目录", exists) {
        Ok(Some(p)) => Ok(Some(p)),
        Ok(None) => Err(concat2("找不到背景文件: ", to_background_filename(raw).as_str())),
        Err(e) => Err(e),
    }
}

/// The second step: the resolved file's path relative to the backgrounds
/// folder, which is what a scene stores.
pub fn stored_relative_background(path: &str, bg_base: &str) -> (r: Result<String, String>)
    ensures
        match relative_storage_path_spec(path@, bg_base@) {
            Some(rel) => r matches Ok(x) && x@ == rel,
            None => r matches Err(e) && e@ == "背景路径不在背景目录内"@,
        },
{
    match relative_storage_path(path, bg_base) {
        Some(rel) => Ok(rel),
        None => Err(owned("背景路径不在背景目录内")),
    }
}

} // verus!
