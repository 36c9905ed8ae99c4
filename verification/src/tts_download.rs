//! Downloading local speech assets: which catalog entries one request
//! fetches, how each kind is fetched and installed, and what is reported.

use vstd::prelude::*;

use crate::local_tts::{
    download_temp_path, shared_asset_file_name, shared_asset_file_name_spec, ImportResult,
    LocalTtsPaths,
};
use crate::path::{join, join_spec};
use crate::registry::{
    asset_views, catalog_view, expected_extension_spec, find, lookup_asset, AssetEntry, AssetKind,
    AssetView,
};
use crate::scene::string_views;
use crate::text::{concat2, owned, starts_with, str_eq, str_starts_with};

verus! {

/// The catalog entries of the bundled ids that the catalog has, in order.
pub open spec fn bundled_found(ids: Seq<Seq<char>>) -> Seq<AssetView>
    decreases ids.len(),
{
    if ids.len() == 0 {
        seq![]
    } else {
        let prev = bundled_found(ids.drop_last());
        match lookup_asset(catalog_view(), ids.last()) {
            Some(a) => prev.push(a),
            None => prev,
        }
    }
}

/// What one download request fetches: the asset itself, then those
/// bundled with it (ids the catalog lacks are skipped).
pub fn download_list(asset_id: &str) -> (r: Result<Vec<AssetEntry>, String>)
    ensures
        match lookup_asset(catalog_view(), asset_id@) {
            None => r matches Err(e) && e@ == "asset "@ + asset_id@ + " not in catalog"@,
            Some(a) => r matches Ok(v) && asset_views(v@) == seq![a] + bundled_found(
                a.bundled_assets,
            ),
        },
{
    let entry = match find(asset_id) {
        Some(e) => e,
        None => {
            let mut m = owned("asset ");
            m.append(asset_id);
            m.append(" not in catalog");
            return Err(m);
        },
    };
    let bundled = entry.bundled_assets.clone();
    let ghost ids = entry@.bundled_assets;
    let mut out: Vec<AssetEntry> = Vec::new();
    out.push(entry);
    let ghost first = out@[0]@;
    let mut k: usize = 0;
    assert(asset_views(out@) =~= seq![first] + bundled_found(ids.take(0)));
    while k < bundled.len()
        invariant
            k <= bundled@.len(),
            ids == bundled@.map_values(|s: String| s@),
            asset_views(out@) == seq![first] + bundled_found(ids.take(k as int)),
        decreases bundled.len() - k,
    {
        assert(ids.take(k + 1).drop_last() =~= ids.take(k as int));
        assert(ids.take(k + 1).last() == bundled@[k as int]@);
        match find(bundled[k].as_str()) {
            Some(e) => {
                let ghost before = out@;
                out.push(e);
                assert(asset_views(out@) =~= asset_views(before).push(e@));
            },
            None => {},
        }
        k += 1;
    }
    assert(ids.take(bundled@.len() as int) =~= ids);
    Ok(out)
}

/// How one asset is fetched and installed.
#[derive(Debug, Clone)]
pub enum DownloadRoute {
    /// A shared BERT file, downloaded straight to `target`.
    SharedFile { target: String },
    /// A voice package, downloaded to `temp`, then inspected and installed.
    VoicePackage { temp: String },
    /// The style vectors of `voice_id`, downloaded to `temp`, then
    /// installed beside the voice.
    StyleVectors { voice_id: String, temp: String },
    /// A Sherpa-ONNX model fetched from a mirror directory into `dest`
    /// (the release archive is the fallback).
    SherpaMirrorDir { dir: String, dest: String },
    /// A Sherpa-ONNX model fetched file by file into `dest` (the release
    /// archive is the fallback).
    SherpaFiles { dest: String },
    /// A Sherpa-ONNX model fetched as an archive to `temp` and unpacked
    /// into `dest`.
    SherpaArchive { temp: String, dest: String },
}

pub open spec fn temp_spec(e: AssetView, cache: Seq<char>) -> Seq<char> {
    join_spec(cache, e.id + ".download."@ + expected_extension_spec(e.download_url))
}

/// `route` is how `entry` is fetched and installed (what
/// [`download_route`] answers when it succeeds).
pub open spec fn route_of(entry: AssetEntry, paths: LocalTtsPaths, models_dir: Seq<char>, route: DownloadRoute) -> bool {
    match entry.kind {
        AssetKind::Bert => match (shared_asset_file_name_spec(entry.id@), route) {
            (Ok(n), DownloadRoute::SharedFile { target }) => target@ == join_spec(join_spec(paths.assets@, "deberta"@), n),
            _ => false,
        },
        AssetKind::Voice => match route {
            DownloadRoute::VoicePackage { temp } => temp@ == temp_spec(entry@, paths.cache@),
            _ => false,
        },
        AssetKind::StyleVectors => match (entry.voice_id, route) {
            (Some(v), DownloadRoute::StyleVectors { voice_id, temp }) => voice_id == v && temp@ == temp_spec(entry@, paths.cache@),
            _ => false,
        },
        AssetKind::SherpaOnnx => match route {
            DownloadRoute::SherpaMirrorDir { dest, .. } => dest@ == join_spec(models_dir, entry.id@),
            DownloadRoute::SherpaFiles { dest } => dest@ == join_spec(models_dir, entry.id@),
            DownloadRoute::SherpaArchive { dest, .. } => dest@ == join_spec(models_dir, entry.id@),
            _ => false,
        },
    }
}

/// The route of an entry, `models_dir` being where Sherpa-ONNX models
/// live. Style vectors without a voice, and unknown shared files, are
/// errors.
pub fn download_route(entry: &AssetEntry, paths: &LocalTtsPaths, models_dir: &str) -> (r: Result<
    DownloadRoute,
    String,
>)
    ensures
        r matches Ok(route) ==> route_of(*entry, *paths, models_dir@, route),
        match entry.kind {
            AssetKind::Bert => match shared_asset_file_name_spec(entry.id@) {
                Ok(n) => r matches Ok(DownloadRoute::SharedFile { target }) && target@ == join_spec(
                    join_spec(paths.assets@, "deberta"@),
                    n,
                ),
                Err(m) => r matches Err(e) && e@ == m,
            },
            AssetKind::Voice => r matches Ok(DownloadRoute::VoicePackage { temp }) && temp@
                == temp_spec(entry@, paths.cache@),
            AssetKind::StyleVectors => match entry.voice_id {
                Some(v) => r matches Ok(DownloadRoute::StyleVectors { voice_id, temp }) && voice_id
                    == v && temp@ == temp_spec(entry@, paths.cache@),
                None => r matches Err(e) && e@ == "style_vectors asset "@ + entry.id@
                    + " missing voice_id"@,
            },
            AssetKind::SherpaOnnx => match entry.modelscope_dir {
                Some(d) => r matches Ok(DownloadRoute::SherpaMirrorDir { dir, dest }) && dir == d
                    && dest@ == join_spec(models_dir@, entry.id@),
                None => if !entry@.hf_files_empty {
                    r matches Ok(DownloadRoute::SherpaFiles { dest }) && dest@ == join_spec(
                        models_dir@,
                        entry.id@,
                    )
                } else {
                    r matches Ok(DownloadRoute::SherpaArchive { temp, dest }) && temp@ == temp_spec(
                        entry@,
                        paths.cache@,
                    ) && dest@ == join_spec(models_dir@, entry.id@)
                },
            },
        },
{
    match entry.kind {
        AssetKind::Bert => {
            let name = shared_asset_file_name(entry.id.as_str())?;
            let dir = paths.deberta_dir();
            Ok(DownloadRoute::SharedFile { target: join(dir.as_str(), name) })
        },
        AssetKind::Voice => Ok(
            DownloadRoute::VoicePackage { temp: download_temp_path(entry, paths.cache.as_str()) },
        ),
        AssetKind::StyleVectors => match &entry.voice_id {
            Some(v) => Ok(
                DownloadRoute::StyleVectors {
                    voice_id: v.clone(),
                    temp: download_temp_path(entry, paths.cache.as_str()),
                },
            ),
            None => {
                let mut m = owned("style_vectors asset ");
                m.append(entry.id.as_str());
                m.append(" missing voice_id");
                Err(m)
            },
        },
        AssetKind::SherpaOnnx => {
            let dest = join(models_dir, entry.id.as_str());
            match &entry.modelscope_dir {
                Some(d) => Ok(DownloadRoute::SherpaMirrorDir { dir: d.clone(), dest }),
                None => {
                    if !entry.hf_files.is_empty() {
                        Ok(DownloadRoute::SherpaFiles { dest })
                    } else {
                        Ok(
                            DownloadRoute::SherpaArchive {
                                temp: download_temp_path(entry, paths.cache.as_str()),
                                dest,
                            },
                        )
                    }
                },
            }
        },
    }
}

/// What a finished download reports: the voice it installed (for voices
/// and style vectors), where, how many bytes, and a message by kind.
pub fn downloaded_result(entry: &AssetEntry, voice_id: Option<String>, path: String, bytes: u64) -> (r:
    ImportResult)
    ensures
        r.asset_id == entry.id,
        r.path == path,
        r.bytes == bytes,
        r.voice_id == match entry.kind {
            AssetKind::Voice => Some(entry.id),
            AssetKind::StyleVectors => voice_id,
            _ => None,
        },
        r.message@ == match entry.kind {
            AssetKind::Bert => entry.id@ + " downloaded"@,
            AssetKind::Voice => "voice downloaded"@,
            AssetKind::StyleVectors => "style vectors downloaded"@,
            AssetKind::SherpaOnnx => entry.display_name@ + " downloaded"@,
        },
{
    let (voice, message) = match entry.kind {
        AssetKind::Bert => (None, concat2(entry.id.as_str(), " downloaded")),
        AssetKind::Voice => (Some(entry.id.clone()), owned("voice downloaded")),
        AssetKind::StyleVectors => (voice_id, owned("style vectors downloaded")),
        AssetKind::SherpaOnnx => (None, concat2(entry.display_name.as_str(), " downloaded")),
    };
    ImportResult { asset_id: entry.id.clone(), voice_id: voice, path, bytes, message }
}

/// Where a finished download says the asset was installed: the shared
/// file's target; for a voice package, the model file its install produced
/// (`installed_voice`, which depends on what the package holds); for style
/// vectors, `style_vectors.json` in the voice's folder; for a Sherpa-ONNX
/// model, its folder.
pub open spec fn reported_path_spec(route: DownloadRoute, paths: LocalTtsPaths, installed_voice: Seq<char>) -> Seq<char> {
    match route {
        DownloadRoute::SharedFile { target } => target@,
        DownloadRoute::VoicePackage { .. } => installed_voice,
        DownloadRoute::StyleVectors { voice_id, .. } => join_spec(
            join_spec(paths.voices@, voice_id@),
            "style_vectors.json"@,
        ),
        DownloadRoute::SherpaMirrorDir { dest, .. } => dest@,
        DownloadRoute::SherpaFiles { dest } => dest@,
        DownloadRoute::SherpaArchive { dest, .. } => dest@,
    }
}

/// The voice a route installs for: the style vectors' voice; for other
/// routes the caller's (see [`downloaded_result`]).
pub open spec fn route_voice(route: DownloadRoute) -> Option<String> {
    match route {
        DownloadRoute::StyleVectors { voice_id, .. } => Some(voice_id),
        _ => None,
    }
}

/// What a finished download along `route` reports, `installed_voice` being
/// the model file a voice package's install produced.
pub fn download_report(
    entry: &AssetEntry,
    route: &DownloadRoute,
    paths: &LocalTtsPaths,
    installed_voice: String,
    bytes: u64,
) -> (r: ImportResult)
    ensures
        r.asset_id == entry.id,
        r.path@ == reported_path_spec(*route, *paths, installed_voice@),
        r.bytes == bytes,
        r.voice_id == match entry.kind {
            AssetKind::Voice => Some(entry.id),
            AssetKind::StyleVectors => route_voice(*route),
            _ => None,
        },
        r.message@ == match entry.kind {
            AssetKind::Bert => entry.id@ + " downloaded"@,
            AssetKind::Voice => "voice downloaded"@,
            AssetKind::StyleVectors => "style vectors downloaded"@,
            AssetKind::SherpaOnnx => entry.display_name@ + " downloaded"@,
        },
{
    let (path, voice) = match route {
        DownloadRoute::SharedFile { target } => (target.clone(), None),
        DownloadRoute::VoicePackage { .. } => (installed_voice, None),
        DownloadRoute::StyleVectors { voice_id, .. } => (paths.style_vectors_path(voice_id.as_str()), Some(voice_id.clone())),
        DownloadRoute::SherpaMirrorDir { dest, .. } => (dest.clone(), None),
        DownloadRoute::SherpaFiles { dest } => (dest.clone(), None),
        DownloadRoute::SherpaArchive { dest, .. } => (dest.clone(), None),
    };
    downloaded_result(entry, voice, path, bytes)
}

/// A download's report follows its route: the BERT file is reported at
/// its target in the shared folder, style vectors beside their voice, and a
/// Sherpa-ONNX model at its folder under `models_dir`.
pub proof fn law_report_follows_route(entry: AssetEntry, paths: LocalTtsPaths, models_dir: Seq<char>, route: DownloadRoute, installed_voice: Seq<char>)
    requires
        route_of(entry, paths, models_dir, route),
    ensures
        entry.kind == AssetKind::Bert ==> (shared_asset_file_name_spec(entry.id@) matches Ok(n) && reported_path_spec(route, paths, installed_voice)
            == join_spec(join_spec(paths.assets@, "deberta"@), n)),
        entry.kind == AssetKind::StyleVectors ==> (entry.voice_id matches Some(v) && route_voice(route) == Some(v)
            && reported_path_spec(route, paths, installed_voice) == join_spec(join_spec(paths.voices@, v@), "style_vectors.json"@)),
        entry.kind == AssetKind::SherpaOnnx ==> reported_path_spec(route, paths, installed_voice) == join_spec(models_dir, entry.id@),
        entry.kind == AssetKind::Voice ==> reported_path_spec(route, paths, installed_voice) == installed_voice,
{
}

/// The error when both the preferred source of a Sherpa-ONNX model (its
/// mirror directory, or its per-file mirror) and the release archive fail.
pub fn both_sources_failed(mirror_dir: bool, first: &str, fallback: &str) -> (r: String)
    ensures
        r@ == (if mirror_dir {
            "ModelScope failed: "@
        } else {
            "HF failed: "@
        }) + first@ + "; GitHub fallback also failed: "@ + fallback@,
{
    let mut m = if mirror_dir {
        owned("ModelScope failed: ")
    } else {
        owned("HF failed: ")
    };
    m.append(first);
    m.append("; GitHub fallback also failed: ");
    m.append(fallback);
    m
}

/// A repository listing entry (its type and its path, where the listing
/// gives them) that names a file below `prefix`.
pub open spec fn listed_blob(item: (Option<String>, Option<String>), prefix: Seq<char>) -> bool {
    &&& item.0 matches Some(t) && t@ == "blob"@
    &&& item.1 matches Some(p) && starts_with(p@, prefix) && p@.len() > prefix.len()
}

/// The paths of the listed files below `prefix`, in listing order.
pub open spec fn blob_paths_spec(items: Seq<(Option<String>, Option<String>)>, prefix: Seq<char>) -> Seq<
    Seq<char>,
>
    decreases items.len(),
{
    if items.len() == 0 {
        seq![]
    } else {
        let prev = blob_paths_spec(items.drop_last(), prefix);
        if listed_blob(items.last(), prefix) {
            prev.push(items.last().1.unwrap()@)
        } else {
            prev
        }
    }
}

/// From a repository listing, the full paths of the files under a model's
/// folder: entries of type `blob` whose path begins with the folder prefix
/// and goes on past it.
pub fn modelscope_blob_paths(items: &[(Option<String>, Option<String>)], prefix: &str) -> (r: Vec<
    String,
>)
    ensures
        string_views(r@) == blob_paths_spec(items@, prefix@),
{
    let mut out: Vec<String> = Vec::new();
    let mut k: usize = 0;
    while k < items.len()
        invariant
            k <= items@.len(),
            string_views(out@) == blob_paths_spec(items@.take(k as int), prefix@),
        decreases items.len() - k,
    {
        assert(items@.take(k + 1).drop_last() =~= items@.take(k as int));
        assert(items@.take(k + 1).last() == items@[k as int]);
        let ghost item = items@[k as int];
        let is_blob = match &items[k].0 {
            Some(t) => str_eq(t.as_str(), "blob"),
            None => false,
        };
        if is_blob {
            match &items[k].1 {
                Some(p) => {
                    if str_starts_with(p.as_str(), prefix) && !str_eq(p.as_str(), prefix) {
                        let ghost before = out@;
                        let path = p.clone();
                        assert(item.1.unwrap() == *p);
                        proof {
                            if p@.len() <= prefix@.len() {
                                assert(p@ =~= p@.subrange(0, prefix@.len() as int));
                            }
                        }
                        assert(listed_blob(item, prefix@));
                        out.push(path);
                        assert(string_views(out@) =~= string_views(before).push(p@));
                    } else {
                        proof {
                            if starts_with(p@, prefix@) && p@.len() <= prefix@.len() {
                                assert(p@ =~= prefix@);
                            }
                            assert(!listed_blob(item, prefix@));
                        }
                    }
                },
                None => {},
            }
        }
        k += 1;
    }
    assert(items@.take(items.len() as int) =~= items@);
    out
}

} // verus!
