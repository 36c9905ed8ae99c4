//! The package market: where the index of a package and its download are
//! looked up, how a download is checked, and what an install or uninstall
//! does after the files are in place.

use vstd::prelude::*;

use crate::live2d_auto::{lemma_name_lt_total, lemma_name_lt_transitive, name_lt, str_lt};
use crate::media::eq_ignore_ascii_case;
use crate::scene::string_views;
use crate::media::eq_ignore_ascii_case_spec;
use crate::text::{chars_of, decimal, owned, split_chars, split_on, str_eq, string_of, u64_to_string};

verus! {

/// The market repository (`owner/repo`).
pub const MARKET_REPO: &'static str = "zhangzm0/lingchat-marketplace";

/// Bases of a package's metadata files, tried in order: a raw mirror first,
/// then raw GitHub and the CDNs.
pub const MARKET_META_BASES: [&'static str; 5] = [
    "https://gh-proxy.com/https://raw.githubusercontent.com/zhangzm0/lingchat-marketplace/main/",
    "https://raw.githubusercontent.com/zhangzm0/lingchat-marketplace/main/",
    "https://cdn.jsdelivr.net/gh/zhangzm0/lingchat-marketplace@main/",
    "https://fastly.jsdelivr.net/gh/zhangzm0/lingchat-marketplace@main/",
    "https://gcore.jsdelivr.net/gh/zhangzm0/lingchat-marketplace@main/",
];

/// Mirrors that forward a release download unchanged.
pub const DOWNLOAD_MIRRORS: [&'static str; 3] = [
    "https://gh-proxy.com",
    "https://ghfast.top",
    "https://ghproxy.net",
];

/// A package installed from the market.
#[derive(Debug, Clone)]
pub struct InstalledRecord {
    pub id: String,
    pub version: String,
    pub package_type: String,
    pub dir: String,
}

/// What a package's `manifest.toml` says of it, each field when present.
#[derive(Debug, Clone)]
pub struct ManifestFields {
    pub id: Option<String>,
    pub name: Option<String>,
    pub package_type: Option<String>,
    pub version: Option<String>,
    pub author: Option<String>,
    pub description: Option<String>,
}

/// What the release pipeline wrote back into a package's `build.json`.
#[derive(Debug, Clone)]
pub struct BuildFields {
    pub download_url: Option<String>,
    pub sha256: Option<String>,
    pub size: Option<u64>,
    pub review_report_url: Option<String>,
}

/// A package as the market lists it.
#[derive(Debug, Clone)]
pub struct PackageMeta {
    pub id: String,
    pub name: String,
    pub package_type: String,
    pub version: String,
    pub author: Option<String>,
    pub description: Option<String>,
    pub download_url: Option<String>,
    pub sha256: Option<String>,
    pub size: Option<u64>,
    pub review_report_url: Option<String>,
}

// ---------------------------------------------------------------------------
// Index
// ---------------------------------------------------------------------------

/// The package directory of a repository path `registry/<dir>/manifest.toml`
/// (what follows `manifest.toml` is not looked at).
pub open spec fn registry_dir_spec(path: Seq<char>) -> Option<Seq<char>> {
    let parts = split_on(path, '/');
    if parts.len() >= 3 && parts[0] == "registry"@ && parts[2] == "manifest.toml"@ {
        Some(parts[1])
    } else {
        None
    }
}

pub fn registry_dir_of_path(path: &str) -> (r: Option<String>)
    ensures
        match registry_dir_spec(path@) {
            Some(d) => r matches Some(x) && x@ == d,
            None => r is None,
        },
{
    let v = chars_of(path);
    let parts = split_chars(v.as_slice(), '/');
    if parts.len() < 3 {
        return None;
    }
    let first = string_of(parts[0].as_slice());
    let third = string_of(parts[2].as_slice());
    if str_eq(first.as_str(), "registry") && str_eq(third.as_str(), "manifest.toml") {
        Some(string_of(parts[1].as_slice()))
    } else {
        None
    }
}

/// Each name sorts strictly before the next.
pub open spec fn strictly_ascending(s: Seq<Seq<char>>) -> bool {
    forall|i: int, j: int| 0 <= i < j < s.len() ==> name_lt(#[trigger] s[i], #[trigger] s[j])
}

/// Some path names the package directory `d`.
pub open spec fn dir_named_by(paths: Seq<String>, d: Seq<char>) -> bool {
    exists|i: int| 0 <= i < paths.len() && registry_dir_spec(#[trigger] paths[i]@) == Some(d)
}

/// The names, each once, in `String` order (as a `BTreeSet` gives them).
pub fn sorted_unique(names: &[String]) -> (r: Vec<String>)
    ensures
        strictly_ascending(string_views(r@)),
        forall|d: Seq<char>| #[trigger] string_views(r@).contains(d) <==> string_views(names@).contains(d),
{
    let mut r: Vec<String> = Vec::new();
    let mut k: usize = 0;
    while k < names.len()
        invariant
            k <= names@.len(),
            strictly_ascending(string_views(r@)),
            forall|d: Seq<char>| #[trigger] string_views(r@).contains(d) <==> string_views(names@.take(k as int)).contains(d),
        decreases names.len() - k,
    {
        let ghost before = string_views(r@);
        let ghost old_seen = string_views(names@.take(k as int));
        let ghost new_seen = string_views(names@.take(k + 1));
        let ghost d0 = names@[k as int]@;
        assert(new_seen =~= old_seen.push(d0));
        assert forall|d: Seq<char>| new_seen.contains(d) <==> (old_seen.contains(d) || d == d0) by {
            if new_seen.contains(d) {
                let i = choose|i: int| 0 <= i < new_seen.len() && new_seen[i] == d;
                if i < k {
                    assert(old_seen[i] == d);
                }
            }
            if old_seen.contains(d) {
                let i = choose|i: int| 0 <= i < old_seen.len() && old_seen[i] == d;
                assert(new_seen[i] == d);
            }
            if d == d0 {
                assert(new_seen[k as int] == d0);
            }
        }
        let name = &names[k];
        let mut pos: usize = 0;
        while pos < r.len() && str_lt(r[pos].as_str(), name.as_str())
            invariant
                pos <= r@.len(),
                before == string_views(r@),
                d0 == name@,
                forall|i: int| 0 <= i < pos ==> name_lt(#[trigger] before[i], d0),
            decreases r.len() - pos,
        {
            pos += 1;
        }
        if pos < r.len() && str_eq(r[pos].as_str(), name.as_str()) {
            assert(before[pos as int] == d0);
            assert forall|d: Seq<char>| #[trigger] before.contains(d) <==> new_seen.contains(d) by {
                if d == d0 {
                    assert(before.contains(d0));
                }
            }
        } else {
            proof {
                if pos < before.len() {
                    lemma_name_lt_total(before[pos as int], d0);
                }
            }
            r.insert(pos, name.clone());
            let ghost after = string_views(r@);
            assert(after =~= before.insert(pos as int, d0));
            assert forall|i: int, j: int| 0 <= i < j < after.len() implies name_lt(
                #[trigger] after[i],
                #[trigger] after[j],
            ) by {
                if j < pos {
                    assert(after[i] == before[i] && after[j] == before[j]);
                } else if i > pos {
                    assert(after[i] == before[i - 1] && after[j] == before[j - 1]);
                } else if j == pos {
                    assert(after[i] == before[i] && after[j] == d0);
                } else if i == pos {
                    assert(after[i] == d0 && after[j] == before[j - 1]);
                    assert(name_lt(d0, before[pos as int]));
                    if j - 1 > pos {
                        lemma_name_lt_transitive(d0, before[pos as int], before[j - 1]);
                    }
                } else {
                    assert(after[i] == before[i] && after[j] == before[j - 1]);
                    assert(name_lt(before[i], d0));
                    assert(name_lt(d0, before[pos as int]));
                    lemma_name_lt_transitive(before[i], d0, before[pos as int]);
                    if j - 1 > pos {
                        lemma_name_lt_transitive(before[i], before[pos as int], before[j - 1]);
                    }
                }
            }
            assert forall|d: Seq<char>| #[trigger] after.contains(d) <==> new_seen.contains(d) by {
                if after.contains(d) {
                    let i = choose|i: int| 0 <= i < after.len() && after[i] == d;
                    if i < pos {
                        assert(before[i] == d);
                        assert(before.contains(d));
                    } else if i > pos {
                        assert(before[i - 1] == d);
                        assert(before.contains(d));
                    }
                }
                if before.contains(d) {
                    let i = choose|i: int| 0 <= i < before.len() && before[i] == d;
                    if i < pos {
                        assert(after[i] == d);
                    } else {
                        assert(after[i + 1] == d);
                    }
                }
                if d == d0 {
                    assert(after[pos as int] == d0);
                }
            }
        }
        k += 1;
    }
    assert(names@.take(names.len() as int) =~= names@);
    r
}

/// The package directories a repository listing names, each once, in
/// name order.
pub fn registry_dirs(paths: &[String]) -> (r: Vec<String>)
    ensures
        strictly_ascending(string_views(r@)),
        forall|d: Seq<char>| #[trigger] string_views(r@).contains(d) <==> dir_named_by(paths@, d),
{
    let mut dirs: Vec<String> = Vec::new();
    let mut k: usize = 0;
    while k < paths.len()
        invariant
            k <= paths@.len(),
            forall|d: Seq<char>| #[trigger] string_views(dirs@).contains(d) <==> dir_named_by(paths@.take(k as int), d),
        decreases paths.len() - k,
    {
        let ghost before = string_views(dirs@);
        let ghost old_take = paths@.take(k as int);
        let ghost new_take = paths@.take(k + 1);
        assert(new_take =~= old_take.push(paths@[k as int]));
        assert(forall|d: Seq<char>| #[trigger] before.contains(d) <==> dir_named_by(old_take, d));
        match registry_dir_of_path(paths[k].as_str()) {
            None => {
                assert forall|d: Seq<char>| #[trigger] before.contains(d) <==> dir_named_by(new_take, d) by {
                    if dir_named_by(new_take, d) {
                        let i = choose|i: int| 0 <= i < new_take.len() && registry_dir_spec(#[trigger] new_take[i]@) == Some(d);
                        assert(i < k);
                        assert(old_take[i] == new_take[i]);
                    }
                    if dir_named_by(old_take, d) {
                        let i = choose|i: int| 0 <= i < old_take.len() && registry_dir_spec(#[trigger] old_take[i]@) == Some(d);
                        assert(old_take[i] == new_take[i]);
                    }
                }
            },
            Some(dir) => {
                let ghost d0 = dir@;
                assert(registry_dir_spec(new_take[k as int]@) == Some(d0));
                dirs.push(dir);
                let ghost after = string_views(dirs@);
                assert(after =~= before.push(d0));
                assert forall|d: Seq<char>| #[trigger] after.contains(d) <==> dir_named_by(new_take, d) by {
                    if dir_named_by(new_take, d) {
                        let i = choose|i: int| 0 <= i < new_take.len() && registry_dir_spec(#[trigger] new_take[i]@) == Some(d);
                        if i < k {
                            assert(old_take[i] == new_take[i]);
                            assert(dir_named_by(old_take, d));
                            assert(before.contains(d));
                            let j = choose|j: int| 0 <= j < before.len() && before[j] == d;
                            assert(after[j] == d);
                        } else {
                            assert(after[before.len() as int] == d);
                        }
                    }
                    if after.contains(d) {
                        let j = choose|j: int| 0 <= j < after.len() && after[j] == d;
                        if j < before.len() {
                            assert(before[j] == d);
                            assert(before.contains(d));
                            let i = choose|i: int| 0 <= i < old_take.len() && registry_dir_spec(#[trigger] old_take[i]@) == Some(d);
                            assert(old_take[i] == new_take[i]);
                        }
                    }
                }
            },
        }
        k += 1;
    }
    assert(paths@.take(paths.len() as int) =~= paths@);
    sorted_unique(dirs.as_slice())
}

/// The packages that were read, in order.
pub open spec fn fetched<P>(results: Seq<Result<P, String>>) -> Seq<P>
    decreases results.len(),
{
    if results.len() == 0 {
        Seq::<P>::empty()
    } else {
        let prev = fetched(results.drop_last());
        match results.last() {
            Ok(p) => prev.push(p),
            Err(_) => prev,
        }
    }
}

/// The index built from the packages of each directory: the packages that
/// could be read, skipping the others; an error when the listing named no
/// directory, or when no package could be read.
pub fn collect_packages<P>(results: Vec<Result<P, String>>) -> (r: Result<Vec<P>, String>)
    requires
        results@.len() <= u64::MAX,
    ensures
        results@.len() == 0 ==> (r matches Err(e) && e@ == "registry 目录为空"@),
        results@.len() > 0 && fetched(results@).len() == 0 ==> (r matches Err(e) && e@ == "市场索引拉取失败（"@
            + decimal(results@.len()) + " 个目录全部不可读）"@),
        fetched(results@).len() > 0 ==> (r matches Ok(v) && v@ == fetched(results@)),
{
    if results.len() == 0 {
        return Err(owned("registry 目录为空"));
    }
    let n = results.len();
    let ghost all = results@;
    let mut rest = results;
    let mut pkgs: Vec<P> = Vec::new();
    let mut failed: u64 = 0;
    let mut k: usize = 0;
    assert(all.subrange(0, all.len() as int) =~= all);
    while rest.len() > 0
        invariant
            k <= all.len(),
            all.len() == n,
            n <= u64::MAX,
            rest@ == all.subrange(k as int, all.len() as int),
            pkgs@ == fetched(all.take(k as int)),
            failed as int == k - pkgs@.len(),
            pkgs@.len() <= k,
        decreases rest.len(),
    {
        let item = rest.remove(0);
        assert(item == all[k as int]);
        assert(rest@ =~= all.subrange(k + 1, all.len() as int));
        assert(all.take(k + 1).drop_last() =~= all.take(k as int));
        assert(all.take(k + 1).last() == all[k as int]);
        match item {
            Ok(p) => {
                pkgs.push(p);
            },
            Err(_) => {
                failed = failed + 1;
            },
        }
        k += 1;
    }
    assert(all.take(k as int) =~= all);
    if pkgs.len() == 0 {
        let mut e = owned("市场索引拉取失败（");
        let count = u64_to_string(failed);
        e.append(count.as_str());
        e.append(" 个目录全部不可读）");
        return Err(e);
    }
    Ok(pkgs)
}

pub open spec fn meta_url_spec(base: Seq<char>, dir: Seq<char>, file: Seq<char>) -> Seq<char> {
    base + "registry/"@ + dir + "/"@ + file
}

/// Where a metadata file of a package is fetched from, in the order tried.
pub fn meta_urls(dir: &str, file: &str) -> (r: Vec<String>)
    ensures
        r@.len() == MARKET_META_BASES@.len(),
        forall|i: int|
            0 <= i < r@.len() ==> (#[trigger] r@[i])@ == meta_url_spec(
                MARKET_META_BASES@[i]@,
                dir@,
                file@,
            ),
{
    let mut r: Vec<String> = Vec::new();
    let mut i: usize = 0;
    while i < MARKET_META_BASES.len()
        invariant
            i <= MARKET_META_BASES@.len(),
            r@.len() == i,
            forall|j: int|
                0 <= j < i ==> (#[trigger] r@[j])@ == meta_url_spec(
                    MARKET_META_BASES@[j]@,
                    dir@,
                    file@,
                ),
        decreases MARKET_META_BASES.len() - i,
    {
        let mut u = owned(MARKET_META_BASES[i]);
        u.append("registry/");
        u.append(dir);
        u.append("/");
        u.append(file);
        r.push(u);
        i += 1;
    }
    r
}

pub open spec fn release_url_spec(dir: Seq<char>, version: Seq<char>) -> Seq<char> {
    "https://github.com/"@ + MARKET_REPO@ + "/releases/download/"@ + dir + "-"@ + version + "/"@
        + dir + "-"@ + version + ".zip"@
}

/// Where a release of a package lies when its `build.json` does not say.
pub fn release_download_url(dir: &str, version: &str) -> (r: String)
    ensures
        r@ == release_url_spec(dir@, version@),
{
    let mut u = owned("https://github.com/");
    u.append(MARKET_REPO);
    u.append("/releases/download/");
    u.append(dir);
    u.append("-");
    u.append(version);
    u.append("/");
    u.append(dir);
    u.append("-");
    u.append(version);
    u.append(".zip");
    u
}

fn or_else(v: Option<String>, fallback: &str) -> (r: String)
    ensures
        r@ == match v {
            Some(s) => s@,
            None => fallback@,
        },
{
    match v {
        Some(s) => s,
        None => owned(fallback),
    }
}

/// A package listed from its manifest and build record: the directory
/// stands in for a missing id and name, `content` for a missing type, an
/// empty version for a missing one, and the release naming rule for a
/// missing download address.
pub fn package_meta(dir: &str, manifest: ManifestFields, build: Option<BuildFields>) -> (r:
    PackageMeta)
    ensures
        r.id@ == match manifest.id {
            Some(s) => s@,
            None => dir@,
        },
        r.name@ == match manifest.name {
            Some(s) => s@,
            None => dir@,
        },
        r.package_type@ == match manifest.package_type {
            Some(s) => s@,
            None => "content"@,
        },
        r.version@ == match manifest.version {
            Some(s) => s@,
            None => Seq::<char>::empty(),
        },
        r.author == manifest.author,
        r.description == manifest.description,
        r.download_url matches Some(u) && u@ == match build {
            Some(b) => match b.download_url {
                Some(d) => d@,
                None => release_url_spec(dir@, r.version@),
            },
            None => release_url_spec(dir@, r.version@),
        },
        r.sha256 == match build {
            Some(b) => b.sha256,
            None => None,
        },
        r.size == match build {
            Some(b) => b.size,
            None => None,
        },
        r.review_report_url == match build {
            Some(b) => b.review_report_url,
            None => None,
        },
{
    let version = or_else(manifest.version, "");
    proof {
        reveal_strlit("");
    }
    let id = or_else(manifest.id, dir);
    let name = or_else(manifest.name, dir);
    let package_type = or_else(manifest.package_type, "content");
    let (download_url, sha256, size, review_report_url) = match build {
        Some(b) => {
            let url = match b.download_url {
                Some(d) => d,
                None => release_download_url(dir, version.as_str()),
            };
            (Some(url), b.sha256, b.size, b.review_report_url)
        },
        None => (Some(release_download_url(dir, version.as_str())), None, None, None),
    };
    PackageMeta {
        id,
        name,
        package_type,
        version,
        author: manifest.author,
        description: manifest.description,
        download_url,
        sha256,
        size,
        review_report_url,
    }
}

// ---------------------------------------------------------------------------
// Install
// ---------------------------------------------------------------------------

/// Where a package's archive is downloaded to within the cache folder.
pub fn cache_zip_name(id: &str, version: &str) -> (r: String)
    ensures
        r@ == id@ + "-"@ + version@ + ".zip"@,
{
    let mut n = owned(id);
    n.append("-");
    n.append(version);
    n.append(".zip");
    n
}

/// The sources of a download, in the order tried: each mirror in front of
/// the address, then the address itself.
pub fn download_sources(url: &str) -> (r: Vec<String>)
    ensures
        r@.len() == DOWNLOAD_MIRRORS@.len() + 1,
        forall|i: int|
            0 <= i < DOWNLOAD_MIRRORS@.len() ==> (#[trigger] r@[i])@ == DOWNLOAD_MIRRORS@[i]@
                + "/"@ + url@,
        r@[DOWNLOAD_MIRRORS@.len() as int]@ == url@,
{
    let mut r: Vec<String> = Vec::new();
    let mut i: usize = 0;
    while i < DOWNLOAD_MIRRORS.len()
        invariant
            i <= DOWNLOAD_MIRRORS@.len(),
            r@.len() == i,
            forall|j: int|
                0 <= j < i ==> (#[trigger] r@[j])@ == DOWNLOAD_MIRRORS@[j]@ + "/"@ + url@,
        decreases DOWNLOAD_MIRRORS.len() - i,
    {
        let mut s = owned(DOWNLOAD_MIRRORS[i]);
        s.append("/");
        s.append(url);
        r.push(s);
        i += 1;
    }
    r.push(owned(url));
    r
}

/// A download passes when its digest matches the declared one, letter case
/// aside.
pub fn check_sha256(declared: &str, actual: &str, id: &str, version: &str) -> (r: Result<
    (),
    String,
>)
    ensures
        eq_ignore_ascii_case_spec(actual@, declared@) <==> r is Ok,
        r matches Err(e) ==> e@ == "sha256 校验失败（"@ + id@ + " "@ + version@ + "）：声明 "@
            + declared@ + "，实际 "@ + actual@,
{
    if eq_ignore_ascii_case(actual, declared) {
        return Ok(());
    }
    let mut m = owned("sha256 校验失败（");
    m.append(id);
    m.append(" ");
    m.append(version);
    m.append("）：声明 ");
    m.append(declared);
    m.append("，实际 ");
    m.append(actual);
    Err(m)
}

/// What has to happen once a package's files are in place.
#[derive(Debug, Clone, Copy, PartialEq, Eq, Structural)]
pub enum AfterInstall {
    /// Reload the plugins so that their tools are registered.
    ReloadPlugins,
    /// Resync the role table from the character folders.
    RescanRoles,
    /// Rescan the script folders.
    RescanScripts,
    Nothing,
}

pub open spec fn after_install_spec(package_type: Seq<char>) -> AfterInstall {
    if package_type == "plugin"@ {
        AfterInstall::ReloadPlugins
    } else if package_type == "character"@ {
        AfterInstall::RescanRoles
    } else if package_type == "script"@ {
        AfterInstall::RescanScripts
    } else {
        AfterInstall::Nothing
    }
}

pub fn after_install(package_type: &str) -> (r: AfterInstall)
    ensures
        r == after_install_spec(package_type@),
{
    if str_eq(package_type, "plugin") {
        AfterInstall::ReloadPlugins
    } else if str_eq(package_type, "character") {
        AfterInstall::RescanRoles
    } else if str_eq(package_type, "script") {
        AfterInstall::RescanScripts
    } else {
        AfterInstall::Nothing
    }
}

/// How an installed package is removed.
#[derive(Debug, Clone, Copy, PartialEq, Eq, Structural)]
pub enum Removal {
    /// Through the plugin manager.
    DeletePlugin,
    /// As the settings page deletes a character.
    DeleteCharacter,
    /// Delete its folder; rescan the scripts afterwards if it held one.
    DeleteFolder { rescan_scripts: bool },
}

pub open spec fn removal_spec(package_type: Seq<char>) -> Removal {
    if package_type == "plugin"@ {
        Removal::DeletePlugin
    } else if package_type == "character"@ {
        Removal::DeleteCharacter
    } else {
        Removal::DeleteFolder { rescan_scripts: package_type == "script"@ }
    }
}

pub fn removal_of(record: &InstalledRecord) -> (r: Removal)
    ensures
        r == removal_spec(record.package_type@),
{
    let t = record.package_type.as_str();
    if str_eq(t, "plugin") {
        Removal::DeletePlugin
    } else if str_eq(t, "character") {
        Removal::DeleteCharacter
    } else {
        Removal::DeleteFolder { rescan_scripts: str_eq(t, "script") }
    }
}

/// The record kept of a package installed into `dir`.
pub fn installed_record(meta: &PackageMeta, dir: String) -> (r: InstalledRecord)
    ensures
        r.id == meta.id,
        r.version == meta.version,
        r.package_type == meta.package_type,
        r.dir == dir,
{
    InstalledRecord {
        id: meta.id.clone(),
        version: meta.version.clone(),
        package_type: meta.package_type.clone(),
        dir,
    }
}

} // verus!

verus! {

/// Where the first package with this id stands in the index.
pub open spec fn first_package(index: Seq<PackageMeta>, id: Seq<char>) -> Option<int>
    decreases index.len(),
{
    if index.len() == 0 {
        None
    } else {
        match first_package(index.drop_last(), id) {
            Some(i) => Some(i),
            None => if index.last().id@ == id {
                Some(index.len() - 1)
            } else {
                None
            },
        }
    }
}

proof fn lemma_first_package_prefix(index: Seq<PackageMeta>, id: Seq<char>, k: int)
    requires
        0 <= k <= index.len(),
        first_package(index.take(k), id) is Some,
    ensures
        first_package(index, id) == first_package(index.take(k), id),
    decreases index.len(),
{
    if k < index.len() {
        assert(index.take(k) =~= index.drop_last().take(k));
        lemma_first_package_prefix(index.drop_last(), id, k);
    } else {
        assert(index.take(k) =~= index);
    }
}

/// The package to install: the first one of the index with this id.
pub fn find_package(index: Vec<PackageMeta>, id: &str) -> (r: Result<PackageMeta, String>)
    ensures
        match first_package(index@, id@) {
            Some(i) => r matches Ok(p) && p == index@[i],
            None => r matches Err(e) && e@ == "市场没有这个包: '"@ + id@ + "'"@,
        },
{
    let mut k: usize = 0;
    while k < index.len()
        invariant
            k <= index@.len(),
            first_package(index@.take(k as int), id@) is None,
        decreases index.len() - k,
    {
        assert(index@.take(k + 1).drop_last() =~= index@.take(k as int));
        assert(index@.take(k + 1).last() == index@[k as int]);
        if str_eq(index[k].id.as_str(), id) {
            proof {
                lemma_first_package_prefix(index@, id@, k + 1);
            }
            let mut index = index;
            return Ok(index.remove(k));
        }
        k += 1;
    }
    assert(index@.take(index.len() as int) =~= index@);
    let mut e = owned("市场没有这个包: '");
    e.append(id);
    e.append("'");
    Err(e)
}

/// The address a package is downloaded from.
pub fn package_download_url(pkg: &PackageMeta, id: &str) -> (r: Result<String, String>)
    ensures
        match pkg.download_url {
            Some(u) => r matches Ok(x) && x@ == u@,
            None => r matches Err(e) && e@ == "包 '"@ + id@ + "' 缺少下载地址"@,
        },
{
    match &pkg.download_url {
        Some(u) => Ok(u.clone()),
        None => {
            let mut e = owned("包 '");
            e.append(id);
            e.append("' 缺少下载地址");
            Err(e)
        },
    }
}

/// Each source is tried this many times before the next one.
pub const DOWNLOAD_ATTEMPTS: u32 = 2;

/// The wait before the second try of a source.
pub const BASE_DELAY_MS: u64 = 500;

/// The pause before moving on to the next source.
pub const SOURCE_PAUSE_MS: u64 = 300;

/// What follows one download attempt.
#[derive(Debug)]
pub enum DownloadStep {
    /// The archive is on disk.
    Downloaded,
    /// Try the same source again after this wait.
    Retry { delay_ms: u64 },
    /// Move on to the next source after this pause; `last_err` reports the
    /// source that was given up.
    NextSource { pause_ms: u64, last_err: String },
    /// Every source failed.
    Failed { message: String },
}

/// Why a source was given up.
pub open spec fn source_error_spec(source: nat, src: Seq<char>, err: Seq<char>) -> Seq<char> {
    "源 "@ + decimal(source + 1) + " ("@ + src + ") 失败: "@ + err
}

/// The decision after attempt `attempt` (from 0) on source `source` (from
/// 0) of `sources_len`, whose address is `src`: a success ends the
/// download; a failed first try is retried after `BASE_DELAY_MS`; after
/// the second the next source is taken; after the last source the
/// download fails, naming the mirrors (every source but the last) and the
/// last source's error.
pub fn after_download_attempt(
    source: usize,
    attempt: u32,
    src: &str,
    sources_len: usize,
    outcome: Result<(), String>,
) -> (r: DownloadStep)
    requires
        source < sources_len,
        attempt < DOWNLOAD_ATTEMPTS,
    ensures
        match outcome {
            Ok(()) => r is Downloaded,
            Err(e) => if attempt + 1 < DOWNLOAD_ATTEMPTS {
                r matches DownloadStep::Retry { delay_ms } && delay_ms == BASE_DELAY_MS
            } else if source + 1 < sources_len {
                r matches DownloadStep::NextSource { pause_ms, last_err } && pause_ms
                    == SOURCE_PAUSE_MS && last_err@ == source_error_spec(source as nat, src@, e@)
            } else {
                r matches DownloadStep::Failed { message } && message@ == "下载失败（"@ + decimal(
                    (sources_len - 1) as nat,
                ) + " 个镜像 + 主源均失败）: "@ + source_error_spec(source as nat, src@, e@)
            },
        },
{
    let e = match outcome {
        Ok(()) => return DownloadStep::Downloaded,
        Err(e) => e,
    };
    if attempt + 1 < DOWNLOAD_ATTEMPTS {
        return DownloadStep::Retry { delay_ms: BASE_DELAY_MS };
    }
    let mut last_err = owned("源 ");
    last_err.append(u64_to_string(source as u64 + 1).as_str());
    last_err.append(" (");
    last_err.append(src);
    last_err.append(") 失败: ");
    last_err.append(e.as_str());
    if source + 1 < sources_len {
        return DownloadStep::NextSource { pause_ms: SOURCE_PAUSE_MS, last_err };
    }
    let mut message = owned("下载失败（");
    message.append(u64_to_string((sources_len - 1) as u64).as_str());
    message.append(" 个镜像 + 主源均失败）: ");
    message.append(last_err.as_str());
    DownloadStep::Failed { message }
}

} // verus!
