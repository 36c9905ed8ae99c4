//! Local speech engine: on-disk layout, the runtime on/off switch, package
//! sniffing and the naming rules used while downloading and importing.

use vstd::prelude::*;

use std::sync::atomic::{AtomicBool, Ordering};
use std::sync::Arc;

use vstd::string::StringSliceAdditionalSpecFns;

use crate::path::{
    extension, extension_spec, file_name, file_name_spec, file_stem, file_stem_spec, join, join_spec, last_index_of,
    lemma_last_index_of, path_exists, rfind_char,
};
use crate::media::{sniff, sniffed_mime};
use crate::registry::{expected_extension, expected_extension_spec, AssetEntry};
use crate::text::{
    ascii_lower_seq, ascii_lowercase, char_in_class, char_is_ascii_alnum, char_is_control,
    chars_of, concat2, concat3, in_class, is_ascii_alnum, is_control, lowercase, owned, str_eq,
    string_of, to_lowercase, trim_by, trimmed_chars, TrimClass, ends_with, str_ends_with, starts_with,
    str_starts_with, ascii_lower, is_ascii_lower, is_ascii_upper, is_ascii_digit, lead_count, trail_count,
};

verus! {

/// Assets that must be installed before the local engine can run.
pub const REQUIRED_ASSETS: [&'static str; 1] = ["deberta"];

/// Where local speech assets live.
#[derive(Debug, Clone)]
pub struct LocalTtsPaths {
    pub root: String,
    pub assets: String,
    pub voices: String,
    pub cache: String,
}

#[derive(Debug, Clone)]
pub struct VoiceInstallInfo {
    pub voice_id: String,
    pub path: String,
    pub size_bytes: u64,
}

impl LocalTtsPaths {
    /// The layout under the application's data and cache folders:
    /// `models/tts-local` with its `assets` and `voices`, and a cache folder
    /// `tts-local-cache`.
    pub fn from_dirs(app_data: &str, app_cache: &str) -> (r: Self)
        ensures
            r.root@ == join_spec(join_spec(app_data@, "models"@), "tts-local"@),
            r.assets@ == join_spec(r.root@, "assets"@),
            r.voices@ == join_spec(r.root@, "voices"@),
            r.cache@ == join_spec(app_cache@, "tts-local-cache"@),
    {
        let models = join(app_data, "models");
        let root = join(models.as_str(), "tts-local");
        let assets = join(root.as_str(), "assets");
        let voices = join(root.as_str(), "voices");
        let cache = join(app_cache, "tts-local-cache");
        LocalTtsPaths { root, assets, voices, cache }
    }

    /// The model file an installed voice is known by: `model.sbv2` when it
    /// is there, else `model.onnx`.
    pub fn primary_model_path(voice_dir: &str, sbv2_present: bool) -> (r: String)
        ensures
            r@ == join_spec(voice_dir@, if sbv2_present {
                "model.sbv2"@
            } else {
                "model.onnx"@
            }),
    {
        if sbv2_present {
            join(voice_dir, "model.sbv2")
        } else {
            join(voice_dir, "model.onnx")
        }
    }

    pub fn deberta_dir(&self) -> (r: String)
        ensures
            r@ == join_spec(self.assets@, "deberta"@),
    {
        join(self.assets.as_str(), "deberta")
    }

    pub fn voice_dir(&self, voice_id: &str) -> (r: String)
        ensures
            r@ == join_spec(self.voices@, voice_id@),
    {
        join(self.voices.as_str(), voice_id)
    }

    /// Where the style vectors of a voice are installed.
    pub fn style_vectors_path(&self, voice_id: &str) -> (r: String)
        ensures
            r@ == join_spec(join_spec(self.voices@, voice_id@), "style_vectors.json"@),
    {
        let dir = self.voice_dir(voice_id);
        join(dir.as_str(), "style_vectors.json")
    }

    /// The two files of the shared `deberta` asset: its model and its
    /// tokenizer, in the `deberta` folder of the shared assets.
    pub fn deberta_files(&self) -> (r: (String, String))
        ensures
            r.0@ == join_spec(join_spec(self.assets@, "deberta"@), "deberta.onnx"@),
            r.1@ == join_spec(join_spec(self.assets@, "deberta"@), "tokenizer.json"@),
    {
        let d = self.deberta_dir();
        (join(d.as_str(), "deberta.onnx"), join(d.as_str(), "tokenizer.json"))
    }

    /// Whether the files of a shared asset are on disk; only `deberta`
    /// (model and tokenizer, see `deberta_files`) is a shared asset. The
    /// answer for `deberta` is `deberta_present` of what the disk shows for
    /// the two files.
    pub fn asset_present(&self, asset_id: &str) -> (r: bool)
        ensures
            asset_id@ != "deberta"@ ==> !r,
            asset_id@ == "deberta"@ ==> exists|model_present: bool, tokenizer_present: bool|
                r == #[trigger] deberta_present_spec(model_present, tokenizer_present),
    {
        if str_eq(asset_id, "deberta") {
            let (model, tokenizer) = self.deberta_files();
            let model_present = path_exists(model.as_str());
            let tokenizer_present = path_exists(tokenizer.as_str());
            let r = deberta_present(model_present, tokenizer_present);
            assert(r == deberta_present_spec(model_present, tokenizer_present));
            r
        } else {
            false
        }
    }
}

/// The shared `deberta` asset is present when both its model and its
/// tokenizer are.
pub open spec fn deberta_present_spec(model_present: bool, tokenizer_present: bool) -> bool {
    model_present && tokenizer_present
}

/// Whether the `deberta` asset is present, from whether each of its two
/// files is on disk.
pub fn deberta_present(model_present: bool, tokenizer_present: bool) -> (r: bool)
    ensures
        r == deberta_present_spec(model_present, tokenizer_present),
{
    model_present && tokenizer_present
}

/// Runtime gate that turns the in-process engine on and off; clones share
/// the same flag.
#[derive(Clone, Debug)]
pub struct LocalTtsSwitch {
    enabled: Arc<AtomicBool>,
}

impl LocalTtsSwitch {
    pub fn new(enabled: bool) -> (s: Self) {
        LocalTtsSwitch { enabled: Arc::new(AtomicBool::new(enabled)) }
    }

    pub fn is_enabled(&self) -> (r: bool) {
        self.enabled.load(Ordering::Relaxed)
    }

    pub fn set_enabled(&self, enabled: bool) {
        self.enabled.store(enabled, Ordering::Relaxed);
    }
}

/// Shared runtime of the local engine: the engine, its paths and its switch.
#[derive(Clone, Debug)]
pub struct LocalTtsRuntime<E> {
    pub engine: Arc<E>,
    pub paths: LocalTtsPaths,
    pub switch: LocalTtsSwitch,
}

impl<E> LocalTtsRuntime<E> {
    pub fn new(engine: Arc<E>, paths: LocalTtsPaths, switch: LocalTtsSwitch) -> (r: Self)
        ensures
            r.engine == engine,
            r.paths == paths,
            r.switch == switch,
    {
        LocalTtsRuntime { engine, paths, switch }
    }

    /// Whether the switch shared by this runtime is on.
    pub fn is_enabled(&self) -> (r: bool) {
        self.switch.is_enabled()
    }
}

#[derive(Clone, Debug)]
pub struct LocalTtsSwitchStatus {
    pub configured_enabled: bool,
    pub effective_enabled: bool,
}

/// How a stored setting is put back when saving its new value failed.
#[derive(Debug, Clone, PartialEq, Eq)]
pub enum SettingRollback<V> {
    /// Store the value it had before.
    Restore(V),
    /// It had none: remove it.
    Delete,
}

/// The rollback of the stored engine switch after a failed save: the
/// previous value where there was one, else removal; the error the failure
/// is reported with names the store's error.
pub fn switch_save_failed<V>(previous: Option<V>, error: &str) -> (r: (SettingRollback<V>, String))
    ensures
        match previous {
            Some(v) => r.0 == SettingRollback::Restore(v),
            None => r.0 == SettingRollback::<V>::Delete,
        },
        r.1@ == "save local TTS switch: "@ + error@,
{
    let rollback = match previous {
        Some(v) => SettingRollback::Restore(v),
        None => SettingRollback::Delete,
    };
    (rollback, concat2("save local TTS switch: ", error))
}

/// What the engine does once the switch has been saved and set.
#[derive(Debug, Clone, Copy, PartialEq, Eq)]
pub enum SwitchFollowUp {
    /// Build the engine again (it was not ready and DeBERTa is installed).
    InitEngine,
    /// Unload every model and the engine, to free memory.
    UnloadAll,
    /// Nothing to do.
    Nothing,
}

/// The follow-up of turning the engine on or off, and the status reported.
pub fn after_switch_saved(enabled: bool, engine_ready: bool, deberta_installed: bool) -> (r: (
    SwitchFollowUp,
    LocalTtsSwitchStatus,
))
    ensures
        !enabled ==> r.0 == SwitchFollowUp::UnloadAll,
        enabled && !engine_ready && deberta_installed ==> r.0 == SwitchFollowUp::InitEngine,
        enabled && (engine_ready || !deberta_installed) ==> r.0 == SwitchFollowUp::Nothing,
        r.1.configured_enabled == enabled,
        r.1.effective_enabled == enabled,
{
    let follow = if !enabled {
        SwitchFollowUp::UnloadAll
    } else if !engine_ready && deberta_installed {
        SwitchFollowUp::InitEngine
    } else {
        SwitchFollowUp::Nothing
    };
    (follow, LocalTtsSwitchStatus { configured_enabled: enabled, effective_enabled: enabled })
}

#[derive(Debug)]
pub struct TtsLocalStatus {
    pub ready: bool,
    pub deberta_installed: bool,
    pub installed_voice_count: usize,
}

/// Installed assets and voices, with the record types of the model manager.
#[derive(Debug)]
pub struct TtsLocalInstallSnapshot<A, V> {
    pub assets: Vec<A>,
    pub voices: Vec<V>,
}

#[derive(Debug)]
pub struct ImportResult {
    pub asset_id: String,
    pub voice_id: Option<String>,
    pub path: String,
    pub bytes: u64,
    pub message: String,
}

#[derive(Debug)]
pub struct SherpaOnnxModelRecord {
    pub id: String,
    pub display_name: String,
    pub model_type: String,
    pub language: String,
    pub voice: String,
    pub size_bytes: u64,
    pub path: String,
    pub installed: bool,
}

/// A model directory found on disk.
#[derive(Debug, Clone)]
pub struct SherpaOnnxModelInfo {
    pub model_name: String,
    pub model_path: String,
    pub model_type: String,
    pub language: String,
    pub voice: String,
    pub size_bytes: u64,
    pub is_valid: bool,
}

/// A file chosen for import, staged where the engine can read it.
#[derive(Debug, Clone)]
pub struct ImportSource {
    pub path: String,
    pub cleanup_after_import: bool,
    pub display_name: String,
}

// ---------------------------------------------------------------------------
// Packages
// ---------------------------------------------------------------------------

#[derive(Debug, Clone, Copy, PartialEq, Eq, Structural)]
pub enum PackageKind {
    RawSbv2,
    RawOnnx,
    Zip,
    SevenZ,
    Unknown,
}

#[derive(Debug, Clone)]
pub struct InspectedPackage {
    pub kind: PackageKind,
    pub file_name: String,
    pub size_bytes: u64,
    /// For archives: the model file found inside.
    pub inner_model_name: Option<String>,
}

/// Package kind implied by the (lowercased) extension of a path.
pub open spec fn package_kind_spec(path: Seq<char>) -> PackageKind {
    let ext = match extension_spec(path) {
        Some(e) => lowercase(e),
        None => lowercase(Seq::<char>::empty()),
    };
    if ext == "sbv2"@ {
        PackageKind::RawSbv2
    } else if ext == "onnx"@ {
        PackageKind::RawOnnx
    } else if ext == "zip"@ {
        PackageKind::Zip
    } else if ext == "7z"@ {
        PackageKind::SevenZ
    } else {
        PackageKind::Unknown
    }
}

/// Extension-first sniff of a package file.
pub fn detect_by_extension(path: &str) -> (k: PackageKind)
    ensures
        k == package_kind_spec(path@),
{
    let raw = match extension(path) {
        Some(e) => string_of(e.as_slice()),
        None => String::new(),
    };
    let ext = to_lowercase(raw.as_str());
    let e = ext.as_str();
    if str_eq(e, "sbv2") {
        PackageKind::RawSbv2
    } else if str_eq(e, "onnx") {
        PackageKind::RawOnnx
    } else if str_eq(e, "zip") {
        PackageKind::Zip
    } else if str_eq(e, "7z") {
        PackageKind::SevenZ
    } else {
        PackageKind::Unknown
    }
}

// ---------------------------------------------------------------------------
// Naming helpers
// ---------------------------------------------------------------------------

/// File name under which a shared BERT asset is stored.
pub open spec fn shared_asset_file_name_spec(asset_id: Seq<char>) -> Result<Seq<char>, Seq<char>> {
    if asset_id == "deberta"@ {
        Ok("deberta.onnx"@)
    } else if asset_id == "deberta-tokenizer"@ {
        Ok("tokenizer.json"@)
    } else {
        Err("unknown BERT asset: "@ + asset_id)
    }
}

pub fn shared_asset_file_name(asset_id: &str) -> (r: Result<&'static str, String>)
    ensures
        match shared_asset_file_name_spec(asset_id@) {
            Ok(n) => r matches Ok(x) && x@ == n,
            Err(m) => r matches Err(e) && e@ == m,
        },
{
    if str_eq(asset_id, "deberta") {
        Ok("deberta.onnx")
    } else if str_eq(asset_id, "deberta-tokenizer") {
        Ok("tokenizer.json")
    } else {
        Err(concat2("unknown BERT asset: ", asset_id))
    }
}

/// Temporary download target of a catalog entry inside `cache`.
pub fn download_temp_path(entry: &AssetEntry, cache: &str) -> (r: String)
    ensures
        r@ == join_spec(
            cache@,
            entry.id@ + ".download."@ + expected_extension_spec(entry.download_url@),
        ),
{
    let ext = expected_extension(entry);
    let name = concat3(entry.id.as_str(), ".download.", ext);
    join(cache, name.as_str())
}

pub open spec fn voice_id_char(c: char) -> char {
    if is_ascii_alnum(c) || c == '-' || c == '_' {
        c
    } else {
        '-'
    }
}

/// Voice id derived from a package file name: its stem with every
/// character other than ASCII letters, digits, `-` and `_` turned into `-`,
/// outer dashes removed, lowercased; `voice` when nothing is left.
pub open spec fn default_voice_id_spec(src: Seq<char>) -> Seq<char> {
    let stem = match file_stem_spec(src) {
        Some(s) => s,
        None => "voice"@,
    };
    let cleaned = trim_by(stem.map_values(|c: char| voice_id_char(c)), TrimClass::Dash);
    if cleaned.len() == 0 {
        "voice"@
    } else {
        ascii_lower_seq(cleaned)
    }
}

pub fn default_voice_id(_inspected: &InspectedPackage, src: &str) -> (r: String)
    ensures
        r@ == default_voice_id_spec(src@),
        r@.len() > 0,
        forall|i: int| 0 <= i < r@.len() ==> is_voice_id_char(#[trigger] r@[i]),
{
    proof {
        law_default_voice_id_is_lowercase_slug(src@);
    }
    let stem: Vec<char> = match file_stem(src) {
        Some(s) => s,
        None => chars_of("voice"),
    };
    let mut mapped: Vec<char> = Vec::new();
    let mut i: usize = 0;
    while i < stem.len()
        invariant
            i <= stem.len(),
            mapped@ == stem@.take(i as int).map_values(|c: char| voice_id_char(c)),
        decreases stem.len() - i,
    {
        let c = stem[i];
        mapped.push(
            if char_is_ascii_alnum(c) || c == '-' || c == '_' {
                c
            } else {
                '-'
            },
        );
        assert(stem@.take(i + 1).map_values(|c: char| voice_id_char(c)) =~= stem@.take(
            i as int,
        ).map_values(|c: char| voice_id_char(c)).push(voice_id_char(c)));
        i += 1;
    }
    assert(stem@.take(stem.len() as int) =~= stem@);
    let cleaned = trimmed_chars(mapped.as_slice(), TrimClass::Dash);
    if cleaned.len() == 0 {
        return owned("voice");
    }
    let lower = ascii_lowercase(cleaned.as_slice());
    string_of(lower.as_slice())
}

/// A character a voice id may hold: a lowercase ASCII letter, a digit, `-`
/// or `_`.
pub open spec fn is_voice_id_char(c: char) -> bool {
    is_ascii_lower(c) || is_ascii_digit(c) || c == '-' || c == '_'
}

/// The voice id derived from a package's file name is never empty, holds
/// no uppercase letter (nor anything but lowercase ASCII letters, digits,
/// `-` and `_`), and neither starts nor ends with `-`.
pub proof fn law_default_voice_id_is_lowercase_slug(src: Seq<char>)
    ensures
        default_voice_id_spec(src).len() > 0,
        forall|i: int| 0 <= i < default_voice_id_spec(src).len() ==> is_voice_id_char(
            #[trigger] default_voice_id_spec(src)[i],
        ),
        forall|i: int| 0 <= i < default_voice_id_spec(src).len() ==> !is_ascii_upper(
            #[trigger] default_voice_id_spec(src)[i],
        ),
        default_voice_id_spec(src)[0] != '-',
        default_voice_id_spec(src).last() != '-',
{
    reveal_strlit("voice");
    let stem = match file_stem_spec(src) {
        Some(s) => s,
        None => "voice"@,
    };
    let mapped = stem.map_values(|c: char| voice_id_char(c));
    let cleaned = trim_by(mapped, TrimClass::Dash);
    let r = default_voice_id_spec(src);
    if cleaned.len() == 0 {
        assert(r == "voice"@);
    } else {
        let lead = lead_count(mapped, TrimClass::Dash);
        crate::text::lemma_lead_count(mapped, TrimClass::Dash);
        let a = mapped.skip(lead as int);
        crate::text::lemma_trail_count(a, TrimClass::Dash);
        let t = trail_count(a, TrimClass::Dash);
        assert(cleaned == a.take(a.len() - t));
        assert forall|i: int| 0 <= i < cleaned.len() implies (is_ascii_alnum(#[trigger] cleaned[i])
            || cleaned[i] == '-' || cleaned[i] == '_') by {
            assert(cleaned[i] == mapped[lead + i]);
            assert(mapped[lead + i] == voice_id_char(stem[lead + i]));
        }
        assert(cleaned[0] == a[0]);
        assert(cleaned.last() == a[a.len() - t - 1]);
        assert(r == ascii_lower_seq(cleaned));
        assert forall|i: int| 0 <= i < r.len() implies is_voice_id_char(#[trigger] r[i]) && !is_ascii_upper(r[i]) by {
            let c = cleaned[i];
            assert(r[i] == ascii_lower(c));
            if is_ascii_upper(c) {
                assert(((c as u32) + 32) as char == ascii_lower(c));
                assert('a' <= ascii_lower(c) && ascii_lower(c) <= 'z');
            }
        }
        assert(r[0] == ascii_lower(cleaned[0]));
        assert(r.last() == ascii_lower(cleaned.last()));
    }
}

/// Splits `<repo>/<subdir>` at its last `/` (repository paths contain a `/`
/// themselves).
pub open spec fn split_modelscope_dir_spec(mdir: Seq<char>) -> Result<
    (Seq<char>, Seq<char>),
    Seq<char>,
> {
    match last_index_of(mdir, '/') {
        Some(i) => Ok((mdir.take(i), mdir.skip(i + 1))),
        None => Err("invalid modelscope_dir: "@ + mdir),
    }
}

pub fn split_modelscope_dir(mdir: &str) -> (r: Result<(&str, &str), String>)
    ensures
        match split_modelscope_dir_spec(mdir@) {
            Ok((a, b)) => r matches Ok(p) && p.0@ == a && p.1@ == b,
            Err(m) => r matches Err(e) && e@ == m,
        },
{
    let v = chars_of(mdir);
    proof {
        lemma_last_index_of(v@, '/');
    }
    let found = rfind_char(v.as_slice(), '/');
    if found.is_none() {
        return Err(concat2("invalid modelscope_dir: ", mdir));
    }
    let i = found.unwrap();
    let n = mdir.unicode_len();
    let repo = mdir.substring_char(0, i);
    let sub = mdir.substring_char(i + 1, n);
    assert(mdir@.subrange(0, i as int) =~= mdir@.take(i as int));
    assert(mdir@.subrange(i + 1, n as int) =~= mdir@.skip(i + 1));
    Ok((repo, sub))
}

// ---------------------------------------------------------------------------
// URL encoding
// ---------------------------------------------------------------------------

pub open spec fn is_unreserved_byte(b: u8) -> bool {
    (0x41 <= b && b <= 0x5a) || (0x61 <= b && b <= 0x7a) || (0x30 <= b && b <= 0x39) || b == 0x2d
        || b == 0x5f || b == 0x2e || b == 0x7e || b == 0x2f
}

pub open spec fn hex_upper(d: u8) -> char {
    if d < 10 {
        (48 + d) as char
    } else {
        (55 + d) as char
    }
}

/// Percent-encoding of UTF-8 bytes, keeping only RFC 3986 unreserved
/// characters and `/`.
pub open spec fn url_encode_bytes(bs: Seq<u8>) -> Seq<char>
    decreases bs.len(),
{
    if bs.len() == 0 {
        Seq::<char>::empty()
    } else {
        let b = bs.last();
        url_encode_bytes(bs.drop_last()) + if is_unreserved_byte(b) {
            seq![b as char]
        } else {
            seq!['%', hex_upper(b / 16), hex_upper(b % 16)]
        }
    }
}

/// The value of a hexadecimal digit (either case); 0 for anything else.
pub open spec fn hex_value(c: char) -> int {
    let n = c as int;
    if 48 <= n <= 57 {
        n - 48
    } else if 65 <= n <= 70 {
        n - 55
    } else if 97 <= n <= 102 {
        n - 87
    } else {
        0
    }
}

/// Percent-decoding: each `%` followed by two characters stands for the
/// byte those two hexadecimal digits give; any other character stands for
/// its own code.
pub open spec fn percent_decode(s: Seq<char>) -> Seq<u8>
    decreases s.len(),
{
    if s.len() == 0 {
        Seq::empty()
    } else if s[0] == '%' && s.len() >= 3 {
        seq![(hex_value(s[1]) * 16 + hex_value(s[2])) as u8] + percent_decode(s.skip(3))
    } else {
        seq![(s[0] as int) as u8] + percent_decode(s.skip(1))
    }
}

/// The characters an encoded path is made of: unreserved characters, `/`,
/// `%` and uppercase hexadecimal digits.
pub open spec fn is_encoded_char(c: char) -> bool {
    let n = c as int;
    (65 <= n <= 90) || (97 <= n <= 122) || (48 <= n <= 57) || c == '-' || c == '_' || c == '.'
        || c == '~' || c == '/' || c == '%'
}

proof fn lemma_decode_one(b: u8, t: Seq<char>)
    ensures
        percent_decode(
            (if is_unreserved_byte(b) {
                seq![b as char]
            } else {
                seq!['%', hex_upper(b / 16), hex_upper(b % 16)]
            }) + t,
        ) == seq![b] + percent_decode(t),
{
    if is_unreserved_byte(b) {
        let s = seq![b as char] + t;
        assert(s[0] == b as char);
        assert(s.skip(1) =~= t);
    } else {
        let s = seq!['%', hex_upper(b / 16), hex_upper(b % 16)] + t;
        assert(s.skip(3) =~= t);
        assert(hex_value(hex_upper(b / 16)) == b / 16);
        assert(hex_value(hex_upper(b % 16)) == b % 16);
    }
}

proof fn lemma_decode_encoded(x: Seq<u8>, t: Seq<char>)
    ensures
        percent_decode(url_encode_bytes(x) + t) == x + percent_decode(t),
    decreases x.len(),
{
    if x.len() == 0 {
        assert(url_encode_bytes(x) + t =~= t);
        assert(x + percent_decode(t) =~= percent_decode(t));
    } else {
        let b = x.last();
        let e = if is_unreserved_byte(b) {
            seq![b as char]
        } else {
            seq!['%', hex_upper(b / 16), hex_upper(b % 16)]
        };
        assert(url_encode_bytes(x) + t =~= url_encode_bytes(x.drop_last()) + (e + t));
        lemma_decode_encoded(x.drop_last(), e + t);
        lemma_decode_one(b, t);
        assert(x.drop_last() + (seq![b] + percent_decode(t)) =~= x + percent_decode(t));
    }
}

proof fn lemma_encoded_chars(x: Seq<u8>)
    ensures
        forall|i: int| 0 <= i < url_encode_bytes(x).len() ==> is_encoded_char(#[trigger] url_encode_bytes(x)[i]),
    decreases x.len(),
{
    if x.len() > 0 {
        lemma_encoded_chars(x.drop_last());
        let b = x.last();
        let p = url_encode_bytes(x.drop_last());
        let e = if is_unreserved_byte(b) {
            seq![b as char]
        } else {
            seq!['%', hex_upper(b / 16), hex_upper(b % 16)]
        };
        assert(url_encode_bytes(x) == p + e);
        assert forall|i: int| 0 <= i < e.len() implies is_encoded_char(#[trigger] e[i]) by {
            if is_unreserved_byte(b) {
                assert(e[i] == b as char);
            } else if i == 1 {
                assert(is_encoded_char(hex_upper(b / 16)));
            } else if i == 2 {
                assert(is_encoded_char(hex_upper(b % 16)));
            }
        }
        assert forall|i: int| 0 <= i < url_encode_bytes(x).len() implies is_encoded_char(
            #[trigger] url_encode_bytes(x)[i],
        ) by {
            if i < p.len() {
                assert(url_encode_bytes(x)[i] == p[i]);
            } else {
                assert(url_encode_bytes(x)[i] == e[i - p.len()]);
            }
        }
    }
}

/// `url_encode_path` loses nothing: percent-decoding its output gives the
/// path's bytes back, and the output holds only unreserved characters, `/`,
/// and `%` escapes written with uppercase hexadecimal digits.
pub proof fn law_url_encoding_decodes_back(path: Seq<u8>)
    ensures
        percent_decode(url_encode_bytes(path)) == path,
        forall|i: int| 0 <= i < url_encode_bytes(path).len() ==> is_encoded_char(#[trigger] url_encode_bytes(path)[i]),
{
    lemma_decode_encoded(path, Seq::empty());
    assert(url_encode_bytes(path) + Seq::<char>::empty() =~= url_encode_bytes(path));
    assert(path + percent_decode(Seq::<char>::empty()) =~= path);
    lemma_encoded_chars(path);
}

fn hex_digit(d: u8) -> (c: char)
    requires
        d < 16,
    ensures
        c == hex_upper(d),
{
    if d < 10 {
        (48 + d) as char
    } else {
        (55 + d) as char
    }
}

/// Encodes a repository path for use in a URL.
pub fn url_encode_path(path: &str) -> (r: String)
    ensures
        r@ == url_encode_bytes(path.spec_bytes()),
{
    let bytes = path.as_bytes();
    let mut out: Vec<char> = Vec::new();
    let mut i: usize = 0;
    while i < bytes.len()
        invariant
            i <= bytes@.len(),
            bytes@ == path.spec_bytes(),
            out@ == url_encode_bytes(bytes@.take(i as int)),
        decreases bytes.len() - i,
    {
        let b = bytes[i];
        assert(bytes@.take(i + 1).drop_last() =~= bytes@.take(i as int));
        let ghost before = out@;
        if (0x41 <= b && b <= 0x5a) || (0x61 <= b && b <= 0x7a) || (0x30 <= b && b <= 0x39) || b
            == 0x2d || b == 0x5f || b == 0x2e || b == 0x7e || b == 0x2f {
            out.push(b as char);
            assert(out@ =~= before + seq![b as char]);
        } else {
            out.push('%');
            out.push(hex_digit(b / 16));
            out.push(hex_digit(b % 16));
            assert(out@ =~= before + seq!['%', hex_upper(b / 16), hex_upper(b % 16)]);
        }
        i += 1;
    }
    assert(bytes@.take(bytes@.len() as int) =~= bytes@);
    string_of(out.as_slice())
}

// ---------------------------------------------------------------------------
// Staged file names
// ---------------------------------------------------------------------------

pub open spec fn is_forbidden_name_char(c: char) -> bool {
    is_control(c) || c == '/' || c == '\\' || c == ':' || c == '*' || c == '?' || c == '"' || c
        == '<' || c == '>' || c == '|'
}

/// The characters of `s` that may appear in a staged file name.
pub open spec fn keep_name_chars(s: Seq<char>) -> Seq<char>
    decreases s.len(),
{
    if s.len() == 0 {
        s
    } else if is_forbidden_name_char(s.last()) {
        keep_name_chars(s.drop_last())
    } else {
        keep_name_chars(s.drop_last()).push(s.last())
    }
}

/// Text after the last `/` or `\`.
pub open spec fn basename_spec(s: Seq<char>) -> Seq<char>
    decreases s.len(),
{
    if s.len() == 0 {
        s
    } else if s.last() == '/' || s.last() == '\\' {
        Seq::<char>::empty()
    } else {
        basename_spec(s.drop_last()).push(s.last())
    }
}

/// A staged copy's file name: the base name without control characters and
/// characters illegal on FAT/NTFS, trimmed of whitespace and then of dots
/// (and dot look-alikes); `None` when nothing is left.
pub open spec fn sanitize_staged_filename_spec(raw: Seq<char>) -> Option<Seq<char>> {
    let t = trim_by(trim_by(keep_name_chars(basename_spec(raw)), TrimClass::Whitespace), TrimClass::Dot);
    if t.len() == 0 {
        None
    } else {
        Some(t)
    }
}

pub fn sanitize_staged_filename(raw: &str) -> (r: Option<String>)
    ensures
        match sanitize_staged_filename_spec(raw@) {
            Some(n) => r matches Some(x) && x@ == n,
            None => r is None,
        },
{
    let v = chars_of(raw);
    let mut base: Vec<char> = Vec::new();
    let mut kept: Vec<char> = Vec::new();
    let mut i: usize = 0;
    while i < v.len()
        invariant
            i <= v.len(),
            v@ == raw@,
            base@ == basename_spec(v@.take(i as int)),
            kept@ == keep_name_chars(basename_spec(v@.take(i as int))),
        decreases v.len() - i,
    {
        let c = v[i];
        assert(v@.take(i + 1).drop_last() =~= v@.take(i as int));
        if c == '/' || c == '\\' {
            base = Vec::new();
            kept = Vec::new();
            assert(keep_name_chars(Seq::<char>::empty()) =~= Seq::<char>::empty());
        } else {
            let ghost b0 = base@;
            base.push(c);
            assert(base@ =~= b0.push(c));
            assert(base@.drop_last() =~= b0);
            let forbidden = char_is_control(c) || c == '/' || c == '\\' || c == ':' || c == '*'
                || c == '?' || c == '"' || c == '<' || c == '>' || c == '|';
            if !forbidden {
                kept.push(c);
            }
        }
        i += 1;
    }
    assert(v@.take(v.len() as int) =~= v@);
    let t1 = trimmed_chars(kept.as_slice(), TrimClass::Whitespace);
    let t2 = trimmed_chars(t1.as_slice(), TrimClass::Dot);
    if t2.len() == 0 {
        None
    } else {
        Some(string_of(t2.as_slice()))
    }
}

/// Whether an archive entry is a model file: its name, lowercased, ends
/// in `.sbv2` or `.onnx`.
pub open spec fn is_model_entry(name: Seq<char>) -> bool {
    ends_with(lowercase(name), ".sbv2"@) || ends_with(lowercase(name), ".onnx"@)
}

/// The first model file among an archive's entries, as the archive names
/// it; an error when it has none.
pub fn first_model_entry(names: &[String]) -> (r: Result<String, String>)
    ensures
        match r {
            Ok(n) => exists|i: int|
                0 <= i < names@.len() && names@[i] == n && is_model_entry(#[trigger] names@[i]@) && forall|j: int|
                    0 <= j < i ==> !is_model_entry(#[trigger] names@[j]@),
            Err(e) => e@ == "archive does not contain a .sbv2 or .onnx file"@ && forall|j: int|
                0 <= j < names@.len() ==> !is_model_entry(#[trigger] names@[j]@),
        },
{
    let mut k: usize = 0;
    while k < names.len()
        invariant
            k <= names@.len(),
            forall|j: int| 0 <= j < k ==> !is_model_entry(#[trigger] names@[j]@),
        decreases names.len() - k,
    {
        let lower = to_lowercase(names[k].as_str());
        if str_ends_with(lower.as_str(), ".sbv2") || str_ends_with(lower.as_str(), ".onnx") {
            assert(is_model_entry(names@[k as int]@));
            return Ok(names[k].clone());
        }
        k += 1;
    }
    Err(owned("archive does not contain a .sbv2 or .onnx file"))
}

/// How an inspected package is installed into a voice's folder.
#[derive(Debug, Clone)]
pub enum InstallPlan {
    /// Copy the file to this path.
    Copy(String),
    /// Unpack the archive into the folder, then look for its model file.
    Extract,
}

/// The install of a package of this kind into `voice_dir`: a bare model is
/// copied in under its canonical name, an archive is unpacked; a package
/// of unknown kind is refused.
pub fn install_plan(kind: PackageKind, voice_dir: &str) -> (r: Result<InstallPlan, String>)
    ensures
        kind == PackageKind::RawSbv2 ==> (r matches Ok(InstallPlan::Copy(p)) && p@ == join_spec(voice_dir@, "model.sbv2"@)),
        kind == PackageKind::RawOnnx ==> (r matches Ok(InstallPlan::Copy(p)) && p@ == join_spec(voice_dir@, "model.onnx"@)),
        (kind == PackageKind::Zip || kind == PackageKind::SevenZ) ==> (r matches Ok(InstallPlan::Extract)),
        kind == PackageKind::Unknown ==> (r matches Err(e) && e@ == "unknown package format"@),
{
    match kind {
        PackageKind::RawSbv2 => Ok(InstallPlan::Copy(join(voice_dir, "model.sbv2"))),
        PackageKind::RawOnnx => Ok(InstallPlan::Copy(join(voice_dir, "model.onnx"))),
        PackageKind::Zip | PackageKind::SevenZ => Ok(InstallPlan::Extract),
        PackageKind::Unknown => Err(owned("unknown package format")),
    }
}

/// The archive kind a recognised MIME type names: zip (under either of its
/// names) or 7z; anything else, or nothing recognised, is unknown.
pub open spec fn archive_kind_spec(mime: Option<Seq<char>>) -> PackageKind {
    match mime {
        Some(m) => if m == "application/zip"@ || m == "application/x-zip-compressed"@ {
            PackageKind::Zip
        } else if m == "application/x-7z-compressed"@ {
            PackageKind::SevenZ
        } else {
            PackageKind::Unknown
        },
        None => PackageKind::Unknown,
    }
}

pub open spec fn mime_view(mime: Option<&str>) -> Option<Seq<char>> {
    match mime {
        Some(m) => Some(m@),
        None => None,
    }
}

pub fn archive_kind_of_mime(mime: Option<&str>) -> (r: PackageKind)
    ensures
        r == archive_kind_spec(mime_view(mime)),
{
    match mime {
        Some(m) => if str_eq(m, "application/zip") || str_eq(m, "application/x-zip-compressed") {
            PackageKind::Zip
        } else if str_eq(m, "application/x-7z-compressed") {
            PackageKind::SevenZ
        } else {
            PackageKind::Unknown
        },
        None => PackageKind::Unknown,
    }
}

/// The archive kind of a package whose first bytes are `header`, by what
/// `infer` recognises them as.
pub fn detect_archive_by_infer(header: &[u8]) -> (r: PackageKind)
    ensures
        r == archive_kind_spec(sniffed_mime(header@)),
{
    match sniff(header) {
        Some((_, _, m)) => archive_kind_of_mime(Some(m)),
        None => archive_kind_of_mime(None),
    }
}

/// The kind of a package: by its extension, else, for an unknown one, by
/// what its first bytes (`header`) are recognised as.
pub fn package_kind(path: &str, header: &[u8]) -> (r: PackageKind)
    ensures
        package_kind_spec(path@) != PackageKind::Unknown ==> r == package_kind_spec(path@),
        package_kind_spec(path@) == PackageKind::Unknown ==> r == archive_kind_spec(sniffed_mime(header@)),
{
    let k = detect_by_extension(path);
    match k {
        PackageKind::Unknown => detect_archive_by_infer(header),
        _ => k,
    }
}

/// A file the user picked, read where it is: unless it is an Android
/// content URI (`None`), which must first be copied into the cache.
pub fn direct_import_source(path: &str) -> (r: Option<ImportSource>)
    ensures
        starts_with(path@, "content://"@) ==> r is None,
        !starts_with(path@, "content://"@) ==> (r matches Some(s) && s.path@ == path@ && !s.cleanup_after_import
            && s.display_name@ == match file_name_spec(path@) {
            Some(n) => n,
            None => path@,
        }),
{
    if str_starts_with(path, "content://") {
        return None;
    }
    let display_name = match file_name(path) {
        Some(n) => n,
        None => owned(path),
    };
    Some(ImportSource { path: owned(path), cleanup_after_import: false, display_name })
}

/// Where a content URI is copied in the imports cache folder, and the name
/// it is shown with: `tts_import_saf_{id}_{name}`, the name cleaned of
/// what a file name may not hold (`import.bin` when nothing is left); the
/// shown name is the one given, or `import.bin` when blank.
pub fn staged_import_source(imports_dir: &str, tmp_id: &str, display: &str) -> (r: ImportSource)
    ensures
        r.path@ == join_spec(imports_dir@, "tts_import_saf_"@ + tmp_id@ + "_"@ + match sanitize_staged_filename_spec(display@) {
            Some(n) => n,
            None => "import.bin"@,
        }),
        r.cleanup_after_import,
        r.display_name@ == if display@.len() == 0 {
            "import.bin"@
        } else {
            display@
        },
{
    let suffix = match sanitize_staged_filename(display) {
        Some(n) => n,
        None => owned("import.bin"),
    };
    let mut name = owned("tts_import_saf_");
    name.append(tmp_id);
    name.append("_");
    name.append(suffix.as_str());
    let display_name = if chars_of(display).len() == 0 {
        owned("import.bin")
    } else {
        owned(display)
    };
    ImportSource { path: join(imports_dir, name.as_str()), cleanup_after_import: true, display_name }
}

} // verus!
