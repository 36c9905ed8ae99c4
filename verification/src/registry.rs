//! The curated catalog of downloadable local speech assets and the static
//! file lists used when the mirror's directory listing is unavailable.

use vstd::prelude::*;

use std::collections::HashMap;

use crate::text::{ends_with, owned, str_ends_with, str_eq};

verus! {

/// Sherpa-ONNX model metadata: model type, language and voice.
#[derive(Debug, Clone)]
pub struct SherpaOnnxMeta {
    pub model_type: String,
    pub language: String,
    pub voice: String,
}

#[derive(Debug, Clone, Copy, PartialEq, Eq, Structural)]
pub enum AssetKind {
    Bert,
    Voice,
    StyleVectors,
    SherpaOnnx,
}

#[derive(Debug, Clone)]
pub struct AssetEntry {
    pub id: String,
    pub kind: AssetKind,
    pub display_name: String,
    pub language: String,
    pub size_bytes: u64,
    pub download_url: String,
    pub source: String,
    pub voice_id: Option<String>,
    /// Assets downloaded together with this one.
    pub bundled_assets: Vec<String>,
    pub sherpa_meta: Option<SherpaOnnxMeta>,
    /// Per-file mirror sources (relative path -> URL); preferred when present.
    pub hf_files: HashMap<String, String>,
    /// Mirror directory `<repo>/<subdir>` downloaded file by file.
    pub modelscope_dir: Option<String>,
    /// Whole-archive fallback download.
    pub github_fallback_url: Option<String>,
}

/// The text content of an [`AssetEntry`].
pub ghost struct AssetView {
    pub id: Seq<char>,
    pub kind: AssetKind,
    pub display_name: Seq<char>,
    pub language: Seq<char>,
    pub size_bytes: u64,
    pub download_url: Seq<char>,
    pub source: Seq<char>,
    pub voice_id: Option<Seq<char>>,
    pub bundled_assets: Seq<Seq<char>>,
    pub sherpa_meta: Option<(Seq<char>, Seq<char>, Seq<char>)>,
    pub hf_files_empty: bool,
    pub modelscope_dir: Option<Seq<char>>,
    pub github_fallback_url: Option<Seq<char>>,
}

pub open spec fn opt_view(o: Option<String>) -> Option<Seq<char>> {
    match o {
        Some(s) => Some(s@),
        None => None,
    }
}

pub open spec fn opt_str_view(o: Option<&str>) -> Option<Seq<char>> {
    match o {
        Some(s) => Some(s@),
        None => None,
    }
}

impl View for AssetEntry {
    type V = AssetView;

    open spec fn view(&self) -> AssetView {
        AssetView {
            id: self.id@,
            kind: self.kind,
            display_name: self.display_name@,
            language: self.language@,
            size_bytes: self.size_bytes,
            download_url: self.download_url@,
            source: self.source@,
            voice_id: opt_view(self.voice_id),
            bundled_assets: self.bundled_assets@.map_values(|s: String| s@),
            sherpa_meta: match self.sherpa_meta {
                Some(m) => Some((m.model_type@, m.language@, m.voice@)),
                None => None,
            },
            hf_files_empty: self.hf_files@.dom().len() == 0,
            modelscope_dir: opt_view(self.modelscope_dir),
            github_fallback_url: opt_view(self.github_fallback_url),
        }
    }
}

/// The catalog, entry by entry.
pub open spec fn catalog_view() -> Seq<AssetView> {
    seq![
        AssetView {
            id: "deberta"@,
            kind: AssetKind::Bert,
            display_name: "DeBERTa-v3-base (Japanese BERT)"@,
            language: "ja"@,
            size_bytes: 278000000,
            download_url: "https://www.modelscope.cn/models/lingchat-research-studio/DeBERTa.onnx/resolve/master/deberta.onnx"@,
            source: "lingchat-research-studio/DeBERTa.onnx"@,
            voice_id: None,
            bundled_assets: seq!["deberta-tokenizer"@],
            sherpa_meta: None,
            hf_files_empty: true,
            modelscope_dir: None,
            github_fallback_url: None,
        },
        AssetView {
            id: "deberta-tokenizer"@,
            kind: AssetKind::Bert,
            display_name: "DeBERTa-v3-base Tokenizer"@,
            language: "ja"@,
            size_bytes: 2100000,
            download_url: "https://www.modelscope.cn/models/lingchat-research-studio/DeBERTa.onnx/resolve/master/tokenizer.json"@,
            source: "lingchat-research-studio/DeBERTa.onnx"@,
            voice_id: None,
            bundled_assets: Seq::<Seq<char>>::empty(),
            sherpa_meta: None,
            hf_files_empty: true,
            modelscope_dir: None,
            github_fallback_url: None,
        },
        AssetView {
            id: "ling-v2"@,
            kind: AssetKind::Voice,
            display_name: "Ling-v2 (Japanese)"@,
            language: "ja"@,
            size_bytes: 249000000,
            download_url: "https://www.modelscope.cn/models/lingchat-research-studio/sbv2api-model-Ling-v2-onnx/resolve/master/sbv2api-model-Ling-v2-onnx.onnx"@,
            source: "lingchat-research-studio/sbv2api-model-Ling-v2-onnx"@,
            voice_id: None,
            bundled_assets: seq!["ling-v2-style"@],
            sherpa_meta: None,
            hf_files_empty: true,
            modelscope_dir: None,
            github_fallback_url: None,
        },
        AssetView {
            id: "ling-v2-style"@,
            kind: AssetKind::StyleVectors,
            display_name: "Ling-v2 Style Vectors"@,
            language: "ja"@,
            size_bytes: 7400,
            download_url: "https://www.modelscope.cn/models/lingchat-research-studio/sbv2api-model-Ling-v2-onnx/resolve/master/style_vectors.json"@,
            source: "lingchat-research-studio/sbv2api-model-Ling-v2-onnx"@,
            voice_id: Some("ling-v2"@),
            bundled_assets: Seq::<Seq<char>>::empty(),
            sherpa_meta: None,
            hf_files_empty: true,
            modelscope_dir: None,
            github_fallback_url: None,
        },
        AssetView {
            id: "sherpa-matcha-zh"@,
            kind: AssetKind::SherpaOnnx,
            display_name: "Sherpa Matcha TTS 中文 (Baker 女声)"@,
            language: "zh"@,
            size_bytes: 139000000,
            download_url: ""@,
            source: "gomodels/sherpa/matcha-icefall-zh-baker"@,
            voice_id: None,
            bundled_assets: Seq::<Seq<char>>::empty(),
            sherpa_meta: Some(("matcha"@, "zh"@, "female"@)),
            hf_files_empty: true,
            modelscope_dir: Some("gomodels/sherpa/matcha-icefall-zh-baker"@),
            github_fallback_url: Some("https://github.com/k2-fsa/sherpa-onnx/releases/download/tts-models/matcha-icefall-zh-baker.tar.bz2"@),
        },
        AssetView {
            id: "sherpa-matcha-zh-en"@,
            kind: AssetKind::SherpaOnnx,
            display_name: "Sherpa Matcha TTS 中英双语 (浊辅音女声)"@,
            language: "zh"@,
            size_bytes: 285000000,
            download_url: ""@,
            source: "gomodels/sherpa/matcha_tts_zh_en_20251010"@,
            voice_id: None,
            bundled_assets: Seq::<Seq<char>>::empty(),
            sherpa_meta: Some(("matcha"@, "zh"@, "female"@)),
            hf_files_empty: true,
            modelscope_dir: Some("gomodels/sherpa/matcha_tts_zh_en_20251010"@),
            github_fallback_url: Some("https://github.com/k2-fsa/sherpa-onnx/releases/download/tts-models/matcha-icefall-zh-en.tar.bz2"@),
        },
        AssetView {
            id: "sherpa-kokoro-multi-lang"@,
            kind: AssetKind::SherpaOnnx,
            display_name: "Sherpa Kokoro 多语言 (INT8, 200+ 音色)"@,
            language: "zh"@,
            size_bytes: 205000000,
            download_url: ""@,
            source: "gomodels/sherpa/kokoro-int8-multi-lang-v1_1"@,
            voice_id: None,
            bundled_assets: Seq::<Seq<char>>::empty(),
            sherpa_meta: Some(("kokoro"@, "zh"@, "multi"@)),
            hf_files_empty: true,
            modelscope_dir: Some("gomodels/sherpa/kokoro-int8-multi-lang-v1_1"@),
            github_fallback_url: Some("https://github.com/k2-fsa/sherpa-onnx/releases/download/tts-models/kokoro-int8-multi-lang-v1_1.tar.bz2"@),
        },
        AssetView {
            id: "sherpa-zipvoice-zh-en"@,
            kind: AssetKind::SherpaOnnx,
            display_name: "Sherpa ZipVoice 中英双语 (蒸馏, 24kHz)"@,
            language: "zh"@,
            size_bytes: 692000000,
            download_url: ""@,
            source: "gomodels/sherpa/sherpa-onnx-zipvoice-distill-zh-en-emilia"@,
            voice_id: None,
            bundled_assets: Seq::<Seq<char>>::empty(),
            sherpa_meta: Some(("zipvoice"@, "zh"@, "multi"@)),
            hf_files_empty: true,
            modelscope_dir: Some("gomodels/sherpa/sherpa-onnx-zipvoice-distill-zh-en-emilia"@),
            github_fallback_url: Some("https://github.com/k2-fsa/sherpa-onnx/releases/download/tts-models/sherpa-onnx-zipvoice-distill-zh-en-emilia.tar.bz2"@),
        },
    ]
}

pub open spec fn asset_views(v: Seq<AssetEntry>) -> Seq<AssetView> {
    v.map_values(|e: AssetEntry| e@)
}

fn owned_opt(s: Option<&str>) -> (r: Option<String>)
    ensures
        opt_view(r) == opt_str_view(s),
{
    match s {
        Some(x) => Some(owned(x)),
        None => None,
    }
}

fn asset_entry(
    id: &str,
    kind: AssetKind,
    display_name: &str,
    language: &str,
    size_bytes: u64,
    download_url: &str,
    source: &str,
    voice_id: Option<&str>,
    bundled: Option<&str>,
    meta: Option<(&str, &str, &str)>,
    modelscope_dir: Option<&str>,
    github_fallback_url: Option<&str>,
) -> (e: AssetEntry)
    ensures
        e@ == (AssetView {
            id: id@,
            kind,
            display_name: display_name@,
            language: language@,
            size_bytes,
            download_url: download_url@,
            source: source@,
            voice_id: opt_str_view(voice_id),
            bundled_assets: match bundled {
                Some(b) => seq![b@],
                None => Seq::<Seq<char>>::empty(),
            },
            sherpa_meta: match meta {
                Some(m) => Some((m.0@, m.1@, m.2@)),
                None => None,
            },
            hf_files_empty: true,
            modelscope_dir: opt_str_view(modelscope_dir),
            github_fallback_url: opt_str_view(github_fallback_url),
        }),
{
    let hf: HashMap<String, String> = HashMap::new();
    proof {
        assert(hf@.dom() =~= Set::<String>::empty());
    }
    AssetEntry {
        id: owned(id),
        kind,
        display_name: owned(display_name),
        language: owned(language),
        size_bytes,
        download_url: owned(download_url),
        source: owned(source),
        voice_id: owned_opt(voice_id),
        bundled_assets: {
            let mut bv: Vec<String> = Vec::new();
            match bundled {
                Some(b) => {
                    bv.push(owned(b));
                    assert(bv@.map_values(|s: String| s@) =~= seq![b@]);
                },
                None => {
                    assert(bv@.map_values(|s: String| s@) =~= Seq::<Seq<char>>::empty());
                },
            }
            bv
        },
        sherpa_meta: match meta {
            Some(m) => Some(
                SherpaOnnxMeta { model_type: owned(m.0), language: owned(m.1), voice: owned(m.2) },
            ),
            None => None,
        },
        hf_files: hf,
        modelscope_dir: owned_opt(modelscope_dir),
        github_fallback_url: owned_opt(github_fallback_url),
    }
}

/// Every asset the local engine can download.
pub fn catalog() -> (r: Vec<AssetEntry>)
    ensures
        asset_views(r@) == catalog_view(),
{
    let mut v: Vec<AssetEntry> = Vec::new();
    v.push(asset_entry(
        "deberta",
        AssetKind::Bert,
        "DeBERTa-v3-base (Japanese BERT)",
        "ja",
        278000000,
        "https://www.modelscope.cn/models/lingchat-research-studio/DeBERTa.onnx/resolve/master/deberta.onnx",
        "lingchat-research-studio/DeBERTa.onnx",
        None,
        Some("deberta-tokenizer"),
        None,
        None,
        None,
    ));
    v.push(asset_entry(
        "deberta-tokenizer",
        AssetKind::Bert,
        "DeBERTa-v3-base Tokenizer",
        "ja",
        2100000,
        "https://www.modelscope.cn/models/lingchat-research-studio/DeBERTa.onnx/resolve/master/tokenizer.json",
        "lingchat-research-studio/DeBERTa.onnx",
        None,
        None,
        None,
        None,
        None,
    ));
    v.push(asset_entry(
        "ling-v2",
        AssetKind::Voice,
        "Ling-v2 (Japanese)",
        "ja",
        249000000,
        "https://www.modelscope.cn/models/lingchat-research-studio/sbv2api-model-Ling-v2-onnx/resolve/master/sbv2api-model-Ling-v2-onnx.onnx",
        "lingchat-research-studio/sbv2api-model-Ling-v2-onnx",
        None,
        Some("ling-v2-style"),
        None,
        None,
        None,
    ));
    v.push(asset_entry(
        "ling-v2-style",
        AssetKind::StyleVectors,
        "Ling-v2 Style Vectors",
        "ja",
        7400,
        "https://www.modelscope.cn/models/lingchat-research-studio/sbv2api-model-Ling-v2-onnx/resolve/master/style_vectors.json",
        "lingchat-research-studio/sbv2api-model-Ling-v2-onnx",
        Some("ling-v2"),
        None,
        None,
        None,
        None,
    ));
    v.push(asset_entry(
        "sherpa-matcha-zh",
        AssetKind::SherpaOnnx,
        "Sherpa Matcha TTS 中文 (Baker 女声)",
        "zh",
        139000000,
        "",
        "gomodels/sherpa/matcha-icefall-zh-baker",
        None,
        None,
        Some(("matcha", "zh", "female")),
        Some("gomodels/sherpa/matcha-icefall-zh-baker"),
        Some("https://github.com/k2-fsa/sherpa-onnx/releases/download/tts-models/matcha-icefall-zh-baker.tar.bz2"),
    ));
    v.push(asset_entry(
        "sherpa-matcha-zh-en",
        AssetKind::SherpaOnnx,
        "Sherpa Matcha TTS 中英双语 (浊辅音女声)",
        "zh",
        285000000,
        "",
        "gomodels/sherpa/matcha_tts_zh_en_20251010",
        None,
        None,
        Some(("matcha", "zh", "female")),
        Some("gomodels/sherpa/matcha_tts_zh_en_20251010"),
        Some("https://github.com/k2-fsa/sherpa-onnx/releases/download/tts-models/matcha-icefall-zh-en.tar.bz2"),
    ));
    v.push(asset_entry(
        "sherpa-kokoro-multi-lang",
        AssetKind::SherpaOnnx,
        "Sherpa Kokoro 多语言 (INT8, 200+ 音色)",
        "zh",
        205000000,
        "",
        "gomodels/sherpa/kokoro-int8-multi-lang-v1_1",
        None,
        None,
        Some(("kokoro", "zh", "multi")),
        Some("gomodels/sherpa/kokoro-int8-multi-lang-v1_1"),
        Some("https://github.com/k2-fsa/sherpa-onnx/releases/download/tts-models/kokoro-int8-multi-lang-v1_1.tar.bz2"),
    ));
    v.push(asset_entry(
        "sherpa-zipvoice-zh-en",
        AssetKind::SherpaOnnx,
        "Sherpa ZipVoice 中英双语 (蒸馏, 24kHz)",
        "zh",
        692000000,
        "",
        "gomodels/sherpa/sherpa-onnx-zipvoice-distill-zh-en-emilia",
        None,
        None,
        Some(("zipvoice", "zh", "multi")),
        Some("gomodels/sherpa/sherpa-onnx-zipvoice-distill-zh-en-emilia"),
        Some("https://github.com/k2-fsa/sherpa-onnx/releases/download/tts-models/sherpa-onnx-zipvoice-distill-zh-en-emilia.tar.bz2"),
    ));
    proof {
        reveal_strlit("");
        assert(asset_views(v@) =~~= catalog_view());
    }
    v
}

pub fn all_assets() -> (r: Vec<AssetEntry>)
    ensures
        asset_views(r@) == catalog_view(),
{
    catalog()
}

/// Whether some entry of `all` downloads `id` along with itself.
pub open spec fn is_bundled(all: Seq<AssetView>, id: Seq<char>) -> bool {
    exists|i: int, j: int|
        0 <= i < all.len() && 0 <= j < all[i].bundled_assets.len() && #[trigger] all[i].bundled_assets[j]
            == id
}

/// The entries of `s` that no entry of `all` bundles, in order.
pub open spec fn unbundled(s: Seq<AssetView>, all: Seq<AssetView>) -> Seq<AssetView>
    decreases s.len(),
{
    if s.len() == 0 {
        s
    } else {
        let r = unbundled(s.drop_last(), all);
        if is_bundled(all, s.last().id) {
            r
        } else {
            r.push(s.last())
        }
    }
}

fn bundled_by(all: &Vec<AssetEntry>, id: &str) -> (r: bool)
    ensures
        r == is_bundled(asset_views(all@), id@),
{
    let ghost v = asset_views(all@);
    let mut i: usize = 0;
    while i < all.len()
        invariant
            i <= all@.len(),
            v == asset_views(all@),
            forall|a: int, b: int|
                0 <= a < i && 0 <= b < v[a].bundled_assets.len() ==> #[trigger] v[a].bundled_assets[b] != id@,
        decreases all.len() - i,
    {
        let b = &all[i].bundled_assets;
        assert(v[i as int].bundled_assets == b@.map_values(|s: String| s@));
        let mut j: usize = 0;
        while j < b.len()
            invariant
                i < all@.len(),
                j <= b@.len(),
                v == asset_views(all@),
                b == all@[i as int].bundled_assets,
                v[i as int].bundled_assets == b@.map_values(|s: String| s@),
                forall|a: int, c: int|
                    0 <= a < i && 0 <= c < v[a].bundled_assets.len() ==> #[trigger] v[a].bundled_assets[c] != id@,
                forall|c: int| 0 <= c < j ==> #[trigger] v[i as int].bundled_assets[c] != id@,
            decreases b.len() - j,
        {
            if str_eq(b[j].as_str(), id) {
                assert(v[i as int].bundled_assets[j as int] == id@);
                return true;
            }
            j += 1;
        }
        i += 1;
    }
    false
}

/// The entries of `all` that no entry of it bundles: an asset downloaded
/// with another one is not listed on its own.
pub fn hide_bundled(all: Vec<AssetEntry>) -> (r: Vec<AssetEntry>)
    ensures
        asset_views(r@) == unbundled(asset_views(all@), asset_views(all@)),
{
    let ghost whole = asset_views(all@);
    let mut keep: Vec<bool> = Vec::new();
    let mut i: usize = 0;
    while i < all.len()
        invariant
            i <= all@.len(),
            whole == asset_views(all@),
            keep@.len() == i,
            forall|k: int| 0 <= k < i ==> keep@[k] == !is_bundled(whole, #[trigger] whole[k].id),
        decreases all.len() - i,
    {
        let b = bundled_by(&all, all[i].id.as_str());
        keep.push(!b);
        i += 1;
    }
    let mut rest = all;
    let mut out: Vec<AssetEntry> = Vec::new();
    let mut k: usize = 0;
    let n = rest.len();
    while k < n
        invariant
            k <= n,
            n == whole.len(),
            keep@.len() == n,
            forall|m: int| 0 <= m < n ==> keep@[m] == !is_bundled(whole, #[trigger] whole[m].id),
            asset_views(rest@) == whole.skip(k as int),
            asset_views(out@) == unbundled(whole.take(k as int), whole),
        decreases n - k,
    {
        assert(whole.take(k + 1).drop_last() =~= whole.take(k as int));
        assert(asset_views(rest@)[0] == whole[k as int]);
        assert(asset_views(rest@).len() == rest@.len());
        let ghost before = rest@;
        let e = rest.remove(0);
        assert(rest@ =~= before.skip(1));
        assert(asset_views(rest@) =~= asset_views(before).skip(1));
        assert(asset_views(rest@) =~= whole.skip(k + 1));
        if keep[k] {
            out.push(e);
            assert(asset_views(out@) =~= unbundled(whole.take(k as int), whole).push(whole[k as int]));
        }
        k += 1;
    }
    assert(whole.take(n as int) =~= whole);
    out
}

/// The catalog as the settings page lists it: the entries that no other
/// entry bundles.
pub fn tts_local_list_catalog() -> (r: Vec<AssetEntry>)
    ensures
        asset_views(r@) == unbundled(catalog_view(), catalog_view()),
{
    hide_bundled(all_assets())
}

/// The first entry of `s` whose id is `id`.
pub open spec fn lookup_asset(s: Seq<AssetView>, id: Seq<char>) -> Option<AssetView>
    decreases s.len(),
{
    if s.len() == 0 {
        None
    } else if s[0].id == id {
        Some(s[0])
    } else {
        lookup_asset(s.drop_first(), id)
    }
}

/// The first catalog entry whose id is `id`.
pub fn find(id: &str) -> (r: Option<AssetEntry>)
    ensures
        match lookup_asset(catalog_view(), id@) {
            Some(a) => r matches Some(e) && e@ == a,
            None => r is None,
        },
{
    let mut all = catalog();
    let ghost views = asset_views(all@);
    let mut i: usize = 0;
    assert(views.skip(0) =~= views);
    while i < all.len()
        invariant
            i <= all@.len(),
            views == asset_views(all@),
            views == catalog_view(),
            lookup_asset(views, id@) == lookup_asset(views.skip(i as int), id@),
        decreases all.len() - i,
    {
        assert(views[i as int] == all@[i as int]@);
        assert(views.skip(i as int)[0] == views[i as int]);
        if str_eq(all[i].id.as_str(), id) {
            return Some(all.remove(i));
        }
        assert(views.skip(i as int).drop_first() =~= views.skip(i + 1));
        i += 1;
    }
    None
}

pub const ESPEAK_NG_DATA_FILES: [&'static str; 355] = [
    "espeak-ng-data/voices/!v/adam",
    "espeak-ng-data/lang/gmw/af",
    "espeak-ng-data/af_dict",
    "espeak-ng-data/voices/!v/Alex",
    "espeak-ng-data/voices/!v/Alicia",
    "espeak-ng-data/lang/sem/am",
    "espeak-ng-data/am_dict",
    "espeak-ng-data/lang/roa/an",
    "espeak-ng-data/an_dict",
    "espeak-ng-data/voices/!v/Andrea",
    "espeak-ng-data/voices/!v/Andy",
    "espeak-ng-data/voices/!v/anika",
    "espeak-ng-data/voices/!v/anikaRobot",
    "espeak-ng-data/voices/!v/Annie",
    "espeak-ng-data/voices/!v/announcer",
    "espeak-ng-data/voices/!v/antonio",
    "espeak-ng-data/voices/!v/AnxiousAndy",
    "espeak-ng-data/lang/sem/ar",
    "espeak-ng-data/ar_dict",
    "espeak-ng-data/lang/inc/as",
    "espeak-ng-data/as_dict",
    "espeak-ng-data/voices/!v/aunty",
    "espeak-ng-data/lang/trk/az",
    "espeak-ng-data/az_dict",
    "espeak-ng-data/lang/trk/ba",
    "espeak-ng-data/ba_dict",
    "espeak-ng-data/lang/zle/be",
    "espeak-ng-data/be_dict",
    "espeak-ng-data/voices/!v/belinda",
    "espeak-ng-data/voices/!v/benjamin",
    "espeak-ng-data/lang/zls/bg",
    "espeak-ng-data/bg_dict",
    "espeak-ng-data/lang/inc/bn",
    "espeak-ng-data/bn_dict",
    "espeak-ng-data/voices/!v/boris",
    "espeak-ng-data/lang/inc/bpy",
    "espeak-ng-data/bpy_dict",
    "espeak-ng-data/lang/zls/bs",
    "espeak-ng-data/bs_dict",
    "espeak-ng-data/lang/roa/ca",
    "espeak-ng-data/ca_dict",
    "espeak-ng-data/voices/!v/caleb",
    "espeak-ng-data/lang/iro/chr",
    "espeak-ng-data/chr_dict",
    "espeak-ng-data/lang/sit/cmn",
    "espeak-ng-data/lang/sit/cmn-Latn-pinyin",
    "espeak-ng-data/cmn_dict",
    "espeak-ng-data/voices/!v/croak",
    "espeak-ng-data/lang/zlw/cs",
    "espeak-ng-data/cs_dict",
    "espeak-ng-data/lang/trk/cv",
    "espeak-ng-data/cv_dict",
    "espeak-ng-data/lang/cel/cy",
    "espeak-ng-data/cy_dict",
    "espeak-ng-data/lang/gmq/da",
    "espeak-ng-data/da_dict",
    "espeak-ng-data/voices/!v/david",
    "espeak-ng-data/lang/gmw/de",
    "espeak-ng-data/de_dict",
    "espeak-ng-data/voices/!v/Demonic",
    "espeak-ng-data/voices/!v/Denis",
    "espeak-ng-data/voices/!v/Diogo",
    "espeak-ng-data/voices/!v/ed",
    "espeak-ng-data/voices/!v/edward",
    "espeak-ng-data/voices/!v/edward2",
    "espeak-ng-data/lang/grk/el",
    "espeak-ng-data/el_dict",
    "espeak-ng-data/lang/gmw/en",
    "espeak-ng-data/lang/gmw/en-029",
    "espeak-ng-data/lang/gmw/en-GB-scotland",
    "espeak-ng-data/lang/gmw/en-GB-x-gbclan",
    "espeak-ng-data/lang/gmw/en-GB-x-gbcwmd",
    "espeak-ng-data/lang/gmw/en-GB-x-rp",
    "espeak-ng-data/lang/gmw/en-US",
    "espeak-ng-data/lang/gmw/en-US-nyc",
    "espeak-ng-data/en_dict",
    "espeak-ng-data/lang/art/eo",
    "espeak-ng-data/eo_dict",
    "espeak-ng-data/lang/roa/es",
    "espeak-ng-data/lang/roa/es-419",
    "espeak-ng-data/es_dict",
    "espeak-ng-data/lang/urj/et",
    "espeak-ng-data/et_dict",
    "espeak-ng-data/lang/eu",
    "espeak-ng-data/eu_dict",
    "espeak-ng-data/voices/!v/f1",
    "espeak-ng-data/voices/!v/f2",
    "espeak-ng-data/voices/!v/f3",
    "espeak-ng-data/voices/!v/f4",
    "espeak-ng-data/voices/!v/f5",
    "espeak-ng-data/lang/ira/fa",
    "espeak-ng-data/lang/ira/fa-Latn",
    "espeak-ng-data/fa_dict",
    "espeak-ng-data/voices/!v/fast",
    "espeak-ng-data/lang/urj/fi",
    "espeak-ng-data/fi_dict",
    "espeak-ng-data/lang/roa/fr",
    "espeak-ng-data/lang/roa/fr-BE",
    "espeak-ng-data/lang/roa/fr-CH",
    "espeak-ng-data/fr_dict",
    "espeak-ng-data/lang/cel/ga",
    "espeak-ng-data/ga_dict",
    "espeak-ng-data/lang/cel/gd",
    "espeak-ng-data/gd_dict",
    "espeak-ng-data/voices/!v/Gene",
    "espeak-ng-data/voices/!v/Gene2",
    "espeak-ng-data/lang/sai/gn",
    "espeak-ng-data/gn_dict",
    "espeak-ng-data/voices/!v/grandma",
    "espeak-ng-data/voices/!v/grandpa",
    "espeak-ng-data/lang/grk/grc",
    "espeak-ng-data/grc_dict",
    "espeak-ng-data/lang/inc/gu",
    "espeak-ng-data/gu_dict",
    "espeak-ng-data/voices/!v/gustave",
    "espeak-ng-data/lang/sit/hak",
    "espeak-ng-data/hak_dict",
    "espeak-ng-data/lang/map/haw",
    "espeak-ng-data/haw_dict",
    "espeak-ng-data/lang/sem/he",
    "espeak-ng-data/he_dict",
    "espeak-ng-data/voices/!v/Henrique",
    "espeak-ng-data/lang/inc/hi",
    "espeak-ng-data/hi_dict",
    "espeak-ng-data/lang/zls/hr",
    "espeak-ng-data/hr_dict",
    "espeak-ng-data/lang/roa/ht",
    "espeak-ng-data/ht_dict",
    "espeak-ng-data/lang/urj/hu",
    "espeak-ng-data/hu_dict",
    "espeak-ng-data/voices/!v/Hugo",
    "espeak-ng-data/lang/ine/hy",
    "espeak-ng-data/hy_dict",
    "espeak-ng-data/lang/ine/hyw",
    "espeak-ng-data/lang/art/ia",
    "espeak-ng-data/ia_dict",
    "espeak-ng-data/voices/!v/ian",
    "espeak-ng-data/lang/poz/id",
    "espeak-ng-data/id_dict",
    "espeak-ng-data/intonations",
    "espeak-ng-data/lang/art/io",
    "espeak-ng-data/io_dict",
    "espeak-ng-data/lang/gmq/is",
    "espeak-ng-data/is_dict",
    "espeak-ng-data/lang/roa/it",
    "espeak-ng-data/it_dict",
    "espeak-ng-data/voices/!v/iven",
    "espeak-ng-data/voices/!v/iven2",
    "espeak-ng-data/voices/!v/iven3",
    "espeak-ng-data/voices/!v/iven4",
    "espeak-ng-data/lang/jpx/ja",
    "espeak-ng-data/ja_dict",
    "espeak-ng-data/voices/!v/Jacky",
    "espeak-ng-data/lang/art/jbo",
    "espeak-ng-data/jbo_dict",
    "espeak-ng-data/voices/!v/john",
    "espeak-ng-data/lang/ccs/ka",
    "espeak-ng-data/ka_dict",
    "espeak-ng-data/voices/!v/kaukovalta",
    "espeak-ng-data/lang/trk/kk",
    "espeak-ng-data/kk_dict",
    "espeak-ng-data/lang/esx/kl",
    "espeak-ng-data/kl_dict",
    "espeak-ng-data/voices/!v/klatt",
    "espeak-ng-data/voices/!v/klatt2",
    "espeak-ng-data/voices/!v/klatt3",
    "espeak-ng-data/voices/!v/klatt4",
    "espeak-ng-data/voices/!v/klatt5",
    "espeak-ng-data/voices/!v/klatt6",
    "espeak-ng-data/lang/dra/kn",
    "espeak-ng-data/kn_dict",
    "espeak-ng-data/lang/ko",
    "espeak-ng-data/ko_dict",
    "espeak-ng-data/lang/inc/kok",
    "espeak-ng-data/kok_dict",
    "espeak-ng-data/lang/ira/ku",
    "espeak-ng-data/ku_dict",
    "espeak-ng-data/lang/trk/ky",
    "espeak-ng-data/ky_dict",
    "espeak-ng-data/lang/itc/la",
    "espeak-ng-data/la_dict",
    "espeak-ng-data/lang/gmw/lb",
    "espeak-ng-data/lb_dict",
    "espeak-ng-data/voices/!v/Lee",
    "espeak-ng-data/lang/art/lfn",
    "espeak-ng-data/lfn_dict",
    "espeak-ng-data/voices/!v/linda",
    "espeak-ng-data/lang/bat/lt",
    "espeak-ng-data/lt_dict",
    "espeak-ng-data/lang/bat/ltg",
    "espeak-ng-data/lang/bat/lv",
    "espeak-ng-data/lv_dict",
    "espeak-ng-data/voices/!v/m1",
    "espeak-ng-data/voices/!v/m2",
    "espeak-ng-data/voices/!v/m3",
    "espeak-ng-data/voices/!v/m4",
    "espeak-ng-data/voices/!v/m5",
    "espeak-ng-data/voices/!v/m6",
    "espeak-ng-data/voices/!v/m7",
    "espeak-ng-data/voices/!v/m8",
    "espeak-ng-data/voices/!v/marcelo",
    "espeak-ng-data/voices/!v/Marco",
    "espeak-ng-data/voices/!v/Mario",
    "espeak-ng-data/voices/!v/max",
    "espeak-ng-data/lang/poz/mi",
    "espeak-ng-data/mi_dict",
    "espeak-ng-data/voices/!v/Michael",
    "espeak-ng-data/voices/!v/michel",
    "espeak-ng-data/voices/!v/miguel",
    "espeak-ng-data/voices/!v/Mike",
    "espeak-ng-data/voices/!v/mike2",
    "espeak-ng-data/lang/zls/mk",
    "espeak-ng-data/mk_dict",
    "espeak-ng-data/lang/dra/ml",
    "espeak-ng-data/ml_dict",
    "espeak-ng-data/lang/inc/mr",
    "espeak-ng-data/voices/!v/Mr serious",
    "espeak-ng-data/mr_dict",
    "espeak-ng-data/lang/poz/ms",
    "espeak-ng-data/ms_dict",
    "espeak-ng-data/lang/sem/mt",
    "espeak-ng-data/mt_dict",
    "espeak-ng-data/lang/miz/mto",
    "espeak-ng-data/mto_dict",
    "espeak-ng-data/lang/sit/my",
    "espeak-ng-data/my_dict",
    "espeak-ng-data/lang/gmq/nb",
    "espeak-ng-data/lang/azc/nci",
    "espeak-ng-data/nci_dict",
    "espeak-ng-data/lang/inc/ne",
    "espeak-ng-data/ne_dict",
    "espeak-ng-data/voices/!v/Nguyen",
    "espeak-ng-data/lang/gmw/nl",
    "espeak-ng-data/nl_dict",
    "espeak-ng-data/no_dict",
    "espeak-ng-data/lang/trk/nog",
    "espeak-ng-data/nog_dict",
    "espeak-ng-data/voices/!v/norbert",
    "espeak-ng-data/lang/cus/om",
    "espeak-ng-data/om_dict",
    "espeak-ng-data/lang/inc/or",
    "espeak-ng-data/or_dict",
    "espeak-ng-data/lang/inc/pa",
    "espeak-ng-data/pa_dict",
    "espeak-ng-data/voices/!v/pablo",
    "espeak-ng-data/lang/roa/pap",
    "espeak-ng-data/pap_dict",
    "espeak-ng-data/voices/!v/paul",
    "espeak-ng-data/voices/!v/pedro",
    "espeak-ng-data/phondata",
    "espeak-ng-data/phondata-manifest",
    "espeak-ng-data/phonindex",
    "espeak-ng-data/phontab",
    "espeak-ng-data/lang/art/piqd",
    "espeak-ng-data/piqd_dict",
    "espeak-ng-data/lang/zlw/pl",
    "espeak-ng-data/pl_dict",
    "espeak-ng-data/lang/roa/pt",
    "espeak-ng-data/lang/roa/pt-BR",
    "espeak-ng-data/pt_dict",
    "espeak-ng-data/lang/art/py",
    "espeak-ng-data/py_dict",
    "espeak-ng-data/lang/art/qdb",
    "espeak-ng-data/qdb_dict",
    "espeak-ng-data/lang/qu",
    "espeak-ng-data/qu_dict",
    "espeak-ng-data/lang/myn/quc",
    "espeak-ng-data/quc_dict",
    "espeak-ng-data/voices/!v/quincy",
    "espeak-ng-data/lang/art/qya",
    "espeak-ng-data/qya_dict",
    "espeak-ng-data/voices/!v/Reed",
    "espeak-ng-data/voices/!v/RicishayMax",
    "espeak-ng-data/voices/!v/RicishayMax2",
    "espeak-ng-data/voices/!v/RicishayMax3",
    "espeak-ng-data/lang/roa/ro",
    "espeak-ng-data/ro_dict",
    "espeak-ng-data/voices/!v/rob",
    "espeak-ng-data/voices/!v/robert",
    "espeak-ng-data/voices/!v/robosoft",
    "espeak-ng-data/voices/!v/robosoft2",
    "espeak-ng-data/voices/!v/robosoft3",
    "espeak-ng-data/voices/!v/robosoft4",
    "espeak-ng-data/voices/!v/robosoft5",
    "espeak-ng-data/voices/!v/robosoft6",
    "espeak-ng-data/voices/!v/robosoft7",
    "espeak-ng-data/voices/!v/robosoft8",
    "espeak-ng-data/lang/zle/ru",
    "espeak-ng-data/lang/zle/ru-cl",
    "espeak-ng-data/lang/zle/ru-LV",
    "espeak-ng-data/ru_dict",
    "espeak-ng-data/voices/!v/sandro",
    "espeak-ng-data/lang/inc/sd",
    "espeak-ng-data/sd_dict",
    "espeak-ng-data/voices/!v/shelby",
    "espeak-ng-data/lang/tai/shn",
    "espeak-ng-data/shn_dict",
    "espeak-ng-data/lang/inc/si",
    "espeak-ng-data/si_dict",
    "espeak-ng-data/lang/art/sjn",
    "espeak-ng-data/sjn_dict",
    "espeak-ng-data/lang/zlw/sk",
    "espeak-ng-data/sk_dict",
    "espeak-ng-data/lang/zls/sl",
    "espeak-ng-data/sl_dict",
    "espeak-ng-data/lang/urj/smj",
    "espeak-ng-data/smj_dict",
    "espeak-ng-data/lang/ine/sq",
    "espeak-ng-data/sq_dict",
    "espeak-ng-data/lang/zls/sr",
    "espeak-ng-data/sr_dict",
    "espeak-ng-data/voices/!v/steph",
    "espeak-ng-data/voices/!v/steph2",
    "espeak-ng-data/voices/!v/steph3",
    "espeak-ng-data/voices/!v/Storm",
    "espeak-ng-data/lang/gmq/sv",
    "espeak-ng-data/sv_dict",
    "espeak-ng-data/lang/bnt/sw",
    "espeak-ng-data/sw_dict",
    "espeak-ng-data/lang/dra/ta",
    "espeak-ng-data/ta_dict",
    "espeak-ng-data/lang/dra/te",
    "espeak-ng-data/te_dict",
    "espeak-ng-data/lang/tai/th",
    "espeak-ng-data/th_dict",
    "espeak-ng-data/lang/trk/tk",
    "espeak-ng-data/tk_dict",
    "espeak-ng-data/lang/bnt/tn",
    "espeak-ng-data/tn_dict",
    "espeak-ng-data/lang/trk/tr",
    "espeak-ng-data/tr_dict",
    "espeak-ng-data/voices/!v/travis",
    "espeak-ng-data/lang/trk/tt",
    "espeak-ng-data/tt_dict",
    "espeak-ng-data/voices/!v/Tweaky",
    "espeak-ng-data/lang/trk/ug",
    "espeak-ng-data/ug_dict",
    "espeak-ng-data/lang/zle/uk",
    "espeak-ng-data/uk_dict",
    "espeak-ng-data/voices/!v/UniRobot",
    "espeak-ng-data/lang/inc/ur",
    "espeak-ng-data/ur_dict",
    "espeak-ng-data/lang/trk/uz",
    "espeak-ng-data/uz_dict",
    "espeak-ng-data/lang/aav/vi",
    "espeak-ng-data/lang/aav/vi-VN-x-central",
    "espeak-ng-data/lang/aav/vi-VN-x-south",
    "espeak-ng-data/vi_dict",
    "espeak-ng-data/voices/!v/victor",
    "espeak-ng-data/voices/!v/whisper",
    "espeak-ng-data/voices/!v/whisperf",
    "espeak-ng-data/lang/sit/yue",
    "espeak-ng-data/lang/sit/yue-Latn-jyutping",
    "espeak-ng-data/yue_dict",
    "espeak-ng-data/voices/!v/zac",
];

pub const MATCHA_ZH_EN_NON_ESPEAK_FILES: [&'static str; 11] = [
    ".gitattributes",
    "README.md",
    "configuration.json",
    "lexicon.txt",
    "model-steps-6.onnx",
    "pytorch_model.bin",
    "pytorch_model_sherpa.bin",
    "test_sherpa_onnx.py",
    "tokens.txt",
    "vocab_tts.txt",
    "vocos-16khz-univ.onnx",
];

pub const KOKORO_NON_ESPEAK_FILES: [&'static str; 22] = [
    "LICENSE",
    "README.md",
    "date-zh.fst",
    "dict/README.md",
    "dict/generate_user_dict.py",
    "dict/hmm_model.utf8",
    "dict/idf.utf8",
    "dict/jieba.dict.utf8",
    "dict/pos_dict/char_state_tab.utf8",
    "dict/pos_dict/prob_emit.utf8",
    "dict/pos_dict/prob_start.utf8",
    "dict/pos_dict/prob_trans.utf8",
    "dict/stop_words.utf8",
    "dict/user.dict.utf8",
    "lexicon-gb-en.txt",
    "lexicon-us-en.txt",
    "lexicon-zh.txt",
    "model.int8.onnx",
    "number-zh.fst",
    "phone-zh.fst",
    "tokens.txt",
    "voices.bin",
];

pub const ZIPVOICE_NON_ESPEAK_FILES: [&'static str; 9] = [
    "1.wav",
    "fm_decoder.onnx",
    "fm_decoder_int8.onnx",
    "pinyin.raw",
    "prompt.wav",
    "text_encoder.onnx",
    "text_encoder_int8.onnx",
    "tokens.txt",
    "vocos_24khz.onnx",
];

pub const MATCHA_ZH_BAKER_FILES: [&'static str; 19] = [
    "README.md",
    "date.fst",
    "dict/README.md",
    "dict/generate_user_dict.py",
    "dict/hmm_model.utf8",
    "dict/idf.utf8",
    "dict/jieba.dict.utf8",
    "dict/pos_dict/char_state_tab.utf8",
    "dict/pos_dict/prob_emit.utf8",
    "dict/pos_dict/prob_start.utf8",
    "dict/pos_dict/prob_trans.utf8",
    "dict/stop_words.utf8",
    "dict/user.dict.utf8",
    "lexicon.txt",
    "model-steps-3.onnx",
    "number.fst",
    "phone.fst",
    "tokens.txt",
    "vocos-22khz-univ.onnx",
];

fn push_all(v: &mut Vec<&'static str>, items: &[&'static str])
    ensures
        final(v)@ == old(v)@ + items@,
{
    let mut i: usize = 0;
    while i < items.len()
        invariant
            i <= items@.len(),
            v@ == old(v)@ + items@.take(i as int),
        decreases items.len() - i,
    {
        v.push(items[i]);
        assert(items@.take(i + 1) =~= items@.take(i as int).push(items@[i as int]));
        i += 1;
    }
    assert(items@.take(items@.len() as int) =~= items@);
}

/// The shared `espeak-ng-data` files followed by `extra`.
pub fn concat_espeak(extra: &[&'static str]) -> (r: Vec<&'static str>)
    ensures
        r@ == ESPEAK_NG_DATA_FILES@ + extra@,
{
    let mut v: Vec<&'static str> = Vec::new();
    push_all(&mut v, &ESPEAK_NG_DATA_FILES);
    push_all(&mut v, extra);
    v
}

/// The built-in file list of a mirror directory, relative to it.
pub open spec fn static_subdir_files_spec(id: Seq<char>) -> Option<Seq<&'static str>> {
    if id == "sherpa-matcha-zh"@ {
        Some(MATCHA_ZH_BAKER_FILES@)
    } else if id == "sherpa-matcha-zh-en"@ {
        Some(ESPEAK_NG_DATA_FILES@ + MATCHA_ZH_EN_NON_ESPEAK_FILES@)
    } else if id == "sherpa-kokoro-multi-lang"@ {
        Some(ESPEAK_NG_DATA_FILES@ + KOKORO_NON_ESPEAK_FILES@)
    } else if id == "sherpa-zipvoice-zh-en"@ {
        Some(ESPEAK_NG_DATA_FILES@ + ZIPVOICE_NON_ESPEAK_FILES@)
    } else {
        None
    }
}

pub fn static_subdir_files(id: &str) -> (r: Option<Vec<&'static str>>)
    ensures
        match static_subdir_files_spec(id@) {
            Some(l) => r matches Some(v) && v@ == l,
            None => r is None,
        },
{
    if str_eq(id, "sherpa-matcha-zh") {
        let mut v: Vec<&'static str> = Vec::new();
        push_all(&mut v, &MATCHA_ZH_BAKER_FILES);
        Some(v)
    } else if str_eq(id, "sherpa-matcha-zh-en") {
        Some(concat_espeak(&MATCHA_ZH_EN_NON_ESPEAK_FILES))
    } else if str_eq(id, "sherpa-kokoro-multi-lang") {
        Some(concat_espeak(&KOKORO_NON_ESPEAK_FILES))
    } else if str_eq(id, "sherpa-zipvoice-zh-en") {
        Some(concat_espeak(&ZIPVOICE_NON_ESPEAK_FILES))
    } else {
        None
    }
}

/// File extension implied by a download URL.
pub open spec fn expected_extension_spec(url: Seq<char>) -> Seq<char> {
    if ends_with(url, ".tar.bz2"@) {
        "tar.bz2"@
    } else if ends_with(url, ".zip"@) {
        "zip"@
    } else if ends_with(url, ".json"@) {
        "json"@
    } else if ends_with(url, ".onnx"@) {
        "onnx"@
    } else if ends_with(url, ".pt"@) {
        "pt"@
    } else if ends_with(url, ".7z"@) {
        "7z"@
    } else {
        "bin"@
    }
}

pub fn expected_extension(entry: &AssetEntry) -> (r: &'static str)
    ensures
        r@ == expected_extension_spec(entry.download_url@),
{
    let url = entry.download_url.as_str();
    if str_ends_with(url, ".tar.bz2") {
        "tar.bz2"
    } else if str_ends_with(url, ".zip") {
        "zip"
    } else if str_ends_with(url, ".json") {
        "json"
    } else if str_ends_with(url, ".onnx") {
        "onnx"
    } else if str_ends_with(url, ".pt") {
        "pt"
    } else if str_ends_with(url, ".7z") {
        "7z"
    } else {
        "bin"
    }
}

} // verus!

verus! {

/// Whether a relative path has a `..` component.
pub open spec fn has_parent_segment(s: Seq<char>) -> bool {
    exists|j: int|
        0 <= j && j + 2 <= s.len() && #[trigger] s[j] == '.' && s[j + 1] == '.' && (j == 0 || s[j - 1]
            == '/') && (j + 2 == s.len() || s[j + 2] == '/')
}

/// A path safe to join under a mirror directory: not empty, not starting
/// with `/`, and without a `..` component.
pub open spec fn is_safe_relative(s: Seq<char>) -> bool {
    s.len() > 0 && s[0] != '/' && !has_parent_segment(s)
}

/// A part of `ESPEAK_NG_DATA_FILES`, entry by entry: each is a safe relative path.
proof fn lemma_espeak_ng_data_files_safe_0()
    ensures
        forall|i: int| 0 <= i < 40 ==> is_safe_relative(#[trigger] ESPEAK_NG_DATA_FILES@[i]@),
{
    assert forall|i: int| 0 <= i < 40 implies is_safe_relative(#[trigger] ESPEAK_NG_DATA_FILES@[i]@) by {
        if i == 0 {
            reveal_strlit("espeak-ng-data/voices/!v/adam");
            assert(ESPEAK_NG_DATA_FILES@[0] == "espeak-ng-data/voices/!v/adam");
        } else if i == 1 {
            reveal_strlit("espeak-ng-data/lang/gmw/af");
            assert(ESPEAK_NG_DATA_FILES@[1] == "espeak-ng-data/lang/gmw/af");
        } else if i == 2 {
            reveal_strlit("espeak-ng-data/af_dict");
            assert(ESPEAK_NG_DATA_FILES@[2] == "espeak-ng-data/af_dict");
        } else if i == 3 {
            reveal_strlit("espeak-ng-data/voices/!v/Alex");
            assert(ESPEAK_NG_DATA_FILES@[3] == "espeak-ng-data/voices/!v/Alex");
        } else if i == 4 {
            reveal_strlit("espeak-ng-data/voices/!v/Alicia");
            assert(ESPEAK_NG_DATA_FILES@[4] == "espeak-ng-data/voices/!v/Alicia");
        } else if i == 5 {
            reveal_strlit("espeak-ng-data/lang/sem/am");
            assert(ESPEAK_NG_DATA_FILES@[5] == "espeak-ng-data/lang/sem/am");
        } else if i == 6 {
            reveal_strlit("espeak-ng-data/am_dict");
            assert(ESPEAK_NG_DATA_FILES@[6] == "espeak-ng-data/am_dict");
        } else if i == 7 {
            reveal_strlit("espeak-ng-data/lang/roa/an");
            assert(ESPEAK_NG_DATA_FILES@[7] == "espeak-ng-data/lang/roa/an");
        } else if i == 8 {
            reveal_strlit("espeak-ng-data/an_dict");
            assert(ESPEAK_NG_DATA_FILES@[8] == "espeak-ng-data/an_dict");
        } else if i == 9 {
            reveal_strlit("espeak-ng-data/voices/!v/Andrea");
            assert(ESPEAK_NG_DATA_FILES@[9] == "espeak-ng-data/voices/!v/Andrea");
        } else if i == 10 {
            reveal_strlit("espeak-ng-data/voices/!v/Andy");
            assert(ESPEAK_NG_DATA_FILES@[10] == "espeak-ng-data/voices/!v/Andy");
        } else if i == 11 {
            reveal_strlit("espeak-ng-data/voices/!v/anika");
            assert(ESPEAK_NG_DATA_FILES@[11] == "espeak-ng-data/voices/!v/anika");
        } else if i == 12 {
            reveal_strlit("espeak-ng-data/voices/!v/anikaRobot");
            assert(ESPEAK_NG_DATA_FILES@[12] == "espeak-ng-data/voices/!v/anikaRobot");
        } else if i == 13 {
            reveal_strlit("espeak-ng-data/voices/!v/Annie");
            assert(ESPEAK_NG_DATA_FILES@[13] == "espeak-ng-data/voices/!v/Annie");
        } else if i == 14 {
            reveal_strlit("espeak-ng-data/voices/!v/announcer");
            assert(ESPEAK_NG_DATA_FILES@[14] == "espeak-ng-data/voices/!v/announcer");
        } else if i == 15 {
            reveal_strlit("espeak-ng-data/voices/!v/antonio");
            assert(ESPEAK_NG_DATA_FILES@[15] == "espeak-ng-data/voices/!v/antonio");
        } else if i == 16 {
            reveal_strlit("espeak-ng-data/voices/!v/AnxiousAndy");
            assert(ESPEAK_NG_DATA_FILES@[16] == "espeak-ng-data/voices/!v/AnxiousAndy");
        } else if i == 17 {
            reveal_strlit("espeak-ng-data/lang/sem/ar");
            assert(ESPEAK_NG_DATA_FILES@[17] == "espeak-ng-data/lang/sem/ar");
        } else if i == 18 {
            reveal_strlit("espeak-ng-data/ar_dict");
            assert(ESPEAK_NG_DATA_FILES@[18] == "espeak-ng-data/ar_dict");
        } else if i == 19 {
            reveal_strlit("espeak-ng-data/lang/inc/as");
            assert(ESPEAK_NG_DATA_FILES@[19] == "espeak-ng-data/lang/inc/as");
        } else if i == 20 {
            reveal_strlit("espeak-ng-data/as_dict");
            assert(ESPEAK_NG_DATA_FILES@[20] == "espeak-ng-data/as_dict");
        } else if i == 21 {
            reveal_strlit("espeak-ng-data/voices/!v/aunty");
            assert(ESPEAK_NG_DATA_FILES@[21] == "espeak-ng-data/voices/!v/aunty");
        } else if i == 22 {
            reveal_strlit("espeak-ng-data/lang/trk/az");
            assert(ESPEAK_NG_DATA_FILES@[22] == "espeak-ng-data/lang/trk/az");
        } else if i == 23 {
            reveal_strlit("espeak-ng-data/az_dict");
            assert(ESPEAK_NG_DATA_FILES@[23] == "espeak-ng-data/az_dict");
        } else if i == 24 {
            reveal_strlit("espeak-ng-data/lang/trk/ba");
            assert(ESPEAK_NG_DATA_FILES@[24] == "espeak-ng-data/lang/trk/ba");
        } else if i == 25 {
            reveal_strlit("espeak-ng-data/ba_dict");
            assert(ESPEAK_NG_DATA_FILES@[25] == "espeak-ng-data/ba_dict");
        } else if i == 26 {
            reveal_strlit("espeak-ng-data/lang/zle/be");
            assert(ESPEAK_NG_DATA_FILES@[26] == "espeak-ng-data/lang/zle/be");
        } else if i == 27 {
            reveal_strlit("espeak-ng-data/be_dict");
            assert(ESPEAK_NG_DATA_FILES@[27] == "espeak-ng-data/be_dict");
        } else if i == 28 {
            reveal_strlit("espeak-ng-data/voices/!v/belinda");
            assert(ESPEAK_NG_DATA_FILES@[28] == "espeak-ng-data/voices/!v/belinda");
        } else if i == 29 {
            reveal_strlit("espeak-ng-data/voices/!v/benjamin");
            assert(ESPEAK_NG_DATA_FILES@[29] == "espeak-ng-data/voices/!v/benjamin");
        } else if i == 30 {
            reveal_strlit("espeak-ng-data/lang/zls/bg");
            assert(ESPEAK_NG_DATA_FILES@[30] == "espeak-ng-data/lang/zls/bg");
        } else if i == 31 {
            reveal_strlit("espeak-ng-data/bg_dict");
            assert(ESPEAK_NG_DATA_FILES@[31] == "espeak-ng-data/bg_dict");
        } else if i == 32 {
            reveal_strlit("espeak-ng-data/lang/inc/bn");
            assert(ESPEAK_NG_DATA_FILES@[32] == "espeak-ng-data/lang/inc/bn");
        } else if i == 33 {
            reveal_strlit("espeak-ng-data/bn_dict");
            assert(ESPEAK_NG_DATA_FILES@[33] == "espeak-ng-data/bn_dict");
        } else if i == 34 {
            reveal_strlit("espeak-ng-data/voices/!v/boris");
            assert(ESPEAK_NG_DATA_FILES@[34] == "espeak-ng-data/voices/!v/boris");
        } else if i == 35 {
            reveal_strlit("espeak-ng-data/lang/inc/bpy");
            assert(ESPEAK_NG_DATA_FILES@[35] == "espeak-ng-data/lang/inc/bpy");
        } else if i == 36 {
            reveal_strlit("espeak-ng-data/bpy_dict");
            assert(ESPEAK_NG_DATA_FILES@[36] == "espeak-ng-data/bpy_dict");
        } else if i == 37 {
            reveal_strlit("espeak-ng-data/lang/zls/bs");
            assert(ESPEAK_NG_DATA_FILES@[37] == "espeak-ng-data/lang/zls/bs");
        } else if i == 38 {
            reveal_strlit("espeak-ng-data/bs_dict");
            assert(ESPEAK_NG_DATA_FILES@[38] == "espeak-ng-data/bs_dict");
        } else if i == 39 {
            reveal_strlit("espeak-ng-data/lang/roa/ca");
            assert(ESPEAK_NG_DATA_FILES@[39] == "espeak-ng-data/lang/roa/ca");
        }
    }
}

/// A part of `ESPEAK_NG_DATA_FILES`, entry by entry: each is a safe relative path.
proof fn lemma_espeak_ng_data_files_safe_1()
    ensures
        forall|i: int| 40 <= i < 80 ==> is_safe_relative(#[trigger] ESPEAK_NG_DATA_FILES@[i]@),
{
    assert forall|i: int| 40 <= i < 80 implies is_safe_relative(#[trigger] ESPEAK_NG_DATA_FILES@[i]@) by {
        if i == 40 {
            reveal_strlit("espeak-ng-data/ca_dict");
            assert(ESPEAK_NG_DATA_FILES@[40] == "espeak-ng-data/ca_dict");
        } else if i == 41 {
            reveal_strlit("espeak-ng-data/voices/!v/caleb");
            assert(ESPEAK_NG_DATA_FILES@[41] == "espeak-ng-data/voices/!v/caleb");
        } else if i == 42 {
            reveal_strlit("espeak-ng-data/lang/iro/chr");
            assert(ESPEAK_NG_DATA_FILES@[42] == "espeak-ng-data/lang/iro/chr");
        } else if i == 43 {
            reveal_strlit("espeak-ng-data/chr_dict");
            assert(ESPEAK_NG_DATA_FILES@[43] == "espeak-ng-data/chr_dict");
        } else if i == 44 {
            reveal_strlit("espeak-ng-data/lang/sit/cmn");
            assert(ESPEAK_NG_DATA_FILES@[44] == "espeak-ng-data/lang/sit/cmn");
        } else if i == 45 {
            reveal_strlit("espeak-ng-data/lang/sit/cmn-Latn-pinyin");
            assert(ESPEAK_NG_DATA_FILES@[45] == "espeak-ng-data/lang/sit/cmn-Latn-pinyin");
        } else if i == 46 {
            reveal_strlit("espeak-ng-data/cmn_dict");
            assert(ESPEAK_NG_DATA_FILES@[46] == "espeak-ng-data/cmn_dict");
        } else if i == 47 {
            reveal_strlit("espeak-ng-data/voices/!v/croak");
            assert(ESPEAK_NG_DATA_FILES@[47] == "espeak-ng-data/voices/!v/croak");
        } else if i == 48 {
            reveal_strlit("espeak-ng-data/lang/zlw/cs");
            assert(ESPEAK_NG_DATA_FILES@[48] == "espeak-ng-data/lang/zlw/cs");
        } else if i == 49 {
            reveal_strlit("espeak-ng-data/cs_dict");
            assert(ESPEAK_NG_DATA_FILES@[49] == "espeak-ng-data/cs_dict");
        } else if i == 50 {
            reveal_strlit("espeak-ng-data/lang/trk/cv");
            assert(ESPEAK_NG_DATA_FILES@[50] == "espeak-ng-data/lang/trk/cv");
        } else if i == 51 {
            reveal_strlit("espeak-ng-data/cv_dict");
            assert(ESPEAK_NG_DATA_FILES@[51] == "espeak-ng-data/cv_dict");
        } else if i == 52 {
            reveal_strlit("espeak-ng-data/lang/cel/cy");
            assert(ESPEAK_NG_DATA_FILES@[52] == "espeak-ng-data/lang/cel/cy");
        } else if i == 53 {
            reveal_strlit("espeak-ng-data/cy_dict");
            assert(ESPEAK_NG_DATA_FILES@[53] == "espeak-ng-data/cy_dict");
        } else if i == 54 {
            reveal_strlit("espeak-ng-data/lang/gmq/da");
            assert(ESPEAK_NG_DATA_FILES@[54] == "espeak-ng-data/lang/gmq/da");
        } else if i == 55 {
            reveal_strlit("espeak-ng-data/da_dict");
            assert(ESPEAK_NG_DATA_FILES@[55] == "espeak-ng-data/da_dict");
        } else if i == 56 {
            reveal_strlit("espeak-ng-data/voices/!v/david");
            assert(ESPEAK_NG_DATA_FILES@[56] == "espeak-ng-data/voices/!v/david");
        } else if i == 57 {
            reveal_strlit("espeak-ng-data/lang/gmw/de");
            assert(ESPEAK_NG_DATA_FILES@[57] == "espeak-ng-data/lang/gmw/de");
        } else if i == 58 {
            reveal_strlit("espeak-ng-data/de_dict");
            assert(ESPEAK_NG_DATA_FILES@[58] == "espeak-ng-data/de_dict");
        } else if i == 59 {
            reveal_strlit("espeak-ng-data/voices/!v/Demonic");
            assert(ESPEAK_NG_DATA_FILES@[59] == "espeak-ng-data/voices/!v/Demonic");
        } else if i == 60 {
            reveal_strlit("espeak-ng-data/voices/!v/Denis");
            assert(ESPEAK_NG_DATA_FILES@[60] == "espeak-ng-data/voices/!v/Denis");
        } else if i == 61 {
            reveal_strlit("espeak-ng-data/voices/!v/Diogo");
            assert(ESPEAK_NG_DATA_FILES@[61] == "espeak-ng-data/voices/!v/Diogo");
        } else if i == 62 {
            reveal_strlit("espeak-ng-data/voices/!v/ed");
            assert(ESPEAK_NG_DATA_FILES@[62] == "espeak-ng-data/voices/!v/ed");
        } else if i == 63 {
            reveal_strlit("espeak-ng-data/voices/!v/edward");
            assert(ESPEAK_NG_DATA_FILES@[63] == "espeak-ng-data/voices/!v/edward");
        } else if i == 64 {
            reveal_strlit("espeak-ng-data/voices/!v/edward2");
            assert(ESPEAK_NG_DATA_FILES@[64] == "espeak-ng-data/voices/!v/edward2");
        } else if i == 65 {
            reveal_strlit("espeak-ng-data/lang/grk/el");
            assert(ESPEAK_NG_DATA_FILES@[65] == "espeak-ng-data/lang/grk/el");
        } else if i == 66 {
            reveal_strlit("espeak-ng-data/el_dict");
            assert(ESPEAK_NG_DATA_FILES@[66] == "espeak-ng-data/el_dict");
        } else if i == 67 {
            reveal_strlit("espeak-ng-data/lang/gmw/en");
            assert(ESPEAK_NG_DATA_FILES@[67] == "espeak-ng-data/lang/gmw/en");
        } else if i == 68 {
            reveal_strlit("espeak-ng-data/lang/gmw/en-029");
            assert(ESPEAK_NG_DATA_FILES@[68] == "espeak-ng-data/lang/gmw/en-029");
        } else if i == 69 {
            reveal_strlit("espeak-ng-data/lang/gmw/en-GB-scotland");
            assert(ESPEAK_NG_DATA_FILES@[69] == "espeak-ng-data/lang/gmw/en-GB-scotland");
        } else if i == 70 {
            reveal_strlit("espeak-ng-data/lang/gmw/en-GB-x-gbclan");
            assert(ESPEAK_NG_DATA_FILES@[70] == "espeak-ng-data/lang/gmw/en-GB-x-gbclan");
        } else if i == 71 {
            reveal_strlit("espeak-ng-data/lang/gmw/en-GB-x-gbcwmd");
            assert(ESPEAK_NG_DATA_FILES@[71] == "espeak-ng-data/lang/gmw/en-GB-x-gbcwmd");
        } else if i == 72 {
            reveal_strlit("espeak-ng-data/lang/gmw/en-GB-x-rp");
            assert(ESPEAK_NG_DATA_FILES@[72] == "espeak-ng-data/lang/gmw/en-GB-x-rp");
        } else if i == 73 {
            reveal_strlit("espeak-ng-data/lang/gmw/en-US");
            assert(ESPEAK_NG_DATA_FILES@[73] == "espeak-ng-data/lang/gmw/en-US");
        } else if i == 74 {
            reveal_strlit("espeak-ng-data/lang/gmw/en-US-nyc");
            assert(ESPEAK_NG_DATA_FILES@[74] == "espeak-ng-data/lang/gmw/en-US-nyc");
        } else if i == 75 {
            reveal_strlit("espeak-ng-data/en_dict");
            assert(ESPEAK_NG_DATA_FILES@[75] == "espeak-ng-data/en_dict");
        } else if i == 76 {
            reveal_strlit("espeak-ng-data/lang/art/eo");
            assert(ESPEAK_NG_DATA_FILES@[76] == "espeak-ng-data/lang/art/eo");
        } else if i == 77 {
            reveal_strlit("espeak-ng-data/eo_dict");
            assert(ESPEAK_NG_DATA_FILES@[77] == "espeak-ng-data/eo_dict");
        } else if i == 78 {
            reveal_strlit("espeak-ng-data/lang/roa/es");
            assert(ESPEAK_NG_DATA_FILES@[78] == "espeak-ng-data/lang/roa/es");
        } else if i == 79 {
            reveal_strlit("espeak-ng-data/lang/roa/es-419");
            assert(ESPEAK_NG_DATA_FILES@[79] == "espeak-ng-data/lang/roa/es-419");
        }
    }
}

/// A part of `ESPEAK_NG_DATA_FILES`, entry by entry: each is a safe relative path.
proof fn lemma_espeak_ng_data_files_safe_2()
    ensures
        forall|i: int| 80 <= i < 120 ==> is_safe_relative(#[trigger] ESPEAK_NG_DATA_FILES@[i]@),
{
    assert forall|i: int| 80 <= i < 120 implies is_safe_relative(#[trigger] ESPEAK_NG_DATA_FILES@[i]@) by {
        if i == 80 {
            reveal_strlit("espeak-ng-data/es_dict");
            assert(ESPEAK_NG_DATA_FILES@[80] == "espeak-ng-data/es_dict");
        } else if i == 81 {
            reveal_strlit("espeak-ng-data/lang/urj/et");
            assert(ESPEAK_NG_DATA_FILES@[81] == "espeak-ng-data/lang/urj/et");
        } else if i == 82 {
            reveal_strlit("espeak-ng-data/et_dict");
            assert(ESPEAK_NG_DATA_FILES@[82] == "espeak-ng-data/et_dict");
        } else if i == 83 {
            reveal_strlit("espeak-ng-data/lang/eu");
            assert(ESPEAK_NG_DATA_FILES@[83] == "espeak-ng-data/lang/eu");
        } else if i == 84 {
            reveal_strlit("espeak-ng-data/eu_dict");
            assert(ESPEAK_NG_DATA_FILES@[84] == "espeak-ng-data/eu_dict");
        } else if i == 85 {
            reveal_strlit("espeak-ng-data/voices/!v/f1");
            assert(ESPEAK_NG_DATA_FILES@[85] == "espeak-ng-data/voices/!v/f1");
        } else if i == 86 {
            reveal_strlit("espeak-ng-data/voices/!v/f2");
            assert(ESPEAK_NG_DATA_FILES@[86] == "espeak-ng-data/voices/!v/f2");
        } else if i == 87 {
            reveal_strlit("espeak-ng-data/voices/!v/f3");
            assert(ESPEAK_NG_DATA_FILES@[87] == "espeak-ng-data/voices/!v/f3");
        } else if i == 88 {
            reveal_strlit("espeak-ng-data/voices/!v/f4");
            assert(ESPEAK_NG_DATA_FILES@[88] == "espeak-ng-data/voices/!v/f4");
        } else if i == 89 {
            reveal_strlit("espeak-ng-data/voices/!v/f5");
            assert(ESPEAK_NG_DATA_FILES@[89] == "espeak-ng-data/voices/!v/f5");
        } else if i == 90 {
            reveal_strlit("espeak-ng-data/lang/ira/fa");
            assert(ESPEAK_NG_DATA_FILES@[90] == "espeak-ng-data/lang/ira/fa");
        } else if i == 91 {
            reveal_strlit("espeak-ng-data/lang/ira/fa-Latn");
            assert(ESPEAK_NG_DATA_FILES@[91] == "espeak-ng-data/lang/ira/fa-Latn");
        } else if i == 92 {
            reveal_strlit("espeak-ng-data/fa_dict");
            assert(ESPEAK_NG_DATA_FILES@[92] == "espeak-ng-data/fa_dict");
        } else if i == 93 {
            reveal_strlit("espeak-ng-data/voices/!v/fast");
            assert(ESPEAK_NG_DATA_FILES@[93] == "espeak-ng-data/voices/!v/fast");
        } else if i == 94 {
            reveal_strlit("espeak-ng-data/lang/urj/fi");
            assert(ESPEAK_NG_DATA_FILES@[94] == "espeak-ng-data/lang/urj/fi");
        } else if i == 95 {
            reveal_strlit("espeak-ng-data/fi_dict");
            assert(ESPEAK_NG_DATA_FILES@[95] == "espeak-ng-data/fi_dict");
        } else if i == 96 {
            reveal_strlit("espeak-ng-data/lang/roa/fr");
            assert(ESPEAK_NG_DATA_FILES@[96] == "espeak-ng-data/lang/roa/fr");
        } else if i == 97 {
            reveal_strlit("espeak-ng-data/lang/roa/fr-BE");
            assert(ESPEAK_NG_DATA_FILES@[97] == "espeak-ng-data/lang/roa/fr-BE");
        } else if i == 98 {
            reveal_strlit("espeak-ng-data/lang/roa/fr-CH");
            assert(ESPEAK_NG_DATA_FILES@[98] == "espeak-ng-data/lang/roa/fr-CH");
        } else if i == 99 {
            reveal_strlit("espeak-ng-data/fr_dict");
            assert(ESPEAK_NG_DATA_FILES@[99] == "espeak-ng-data/fr_dict");
        } else if i == 100 {
            reveal_strlit("espeak-ng-data/lang/cel/ga");
            assert(ESPEAK_NG_DATA_FILES@[100] == "espeak-ng-data/lang/cel/ga");
        } else if i == 101 {
            reveal_strlit("espeak-ng-data/ga_dict");
            assert(ESPEAK_NG_DATA_FILES@[101] == "espeak-ng-data/ga_dict");
        } else if i == 102 {
            reveal_strlit("espeak-ng-data/lang/cel/gd");
            assert(ESPEAK_NG_DATA_FILES@[102] == "espeak-ng-data/lang/cel/gd");
        } else if i == 103 {
            reveal_strlit("espeak-ng-data/gd_dict");
            assert(ESPEAK_NG_DATA_FILES@[103] == "espeak-ng-data/gd_dict");
        } else if i == 104 {
            reveal_strlit("espeak-ng-data/voices/!v/Gene");
            assert(ESPEAK_NG_DATA_FILES@[104] == "espeak-ng-data/voices/!v/Gene");
        } else if i == 105 {
            reveal_strlit("espeak-ng-data/voices/!v/Gene2");
            assert(ESPEAK_NG_DATA_FILES@[105] == "espeak-ng-data/voices/!v/Gene2");
        } else if i == 106 {
            reveal_strlit("espeak-ng-data/lang/sai/gn");
            assert(ESPEAK_NG_DATA_FILES@[106] == "espeak-ng-data/lang/sai/gn");
        } else if i == 107 {
            reveal_strlit("espeak-ng-data/gn_dict");
            assert(ESPEAK_NG_DATA_FILES@[107] == "espeak-ng-data/gn_dict");
        } else if i == 108 {
            reveal_strlit("espeak-ng-data/voices/!v/grandma");
            assert(ESPEAK_NG_DATA_FILES@[108] == "espeak-ng-data/voices/!v/grandma");
        } else if i == 109 {
            reveal_strlit("espeak-ng-data/voices/!v/grandpa");
            assert(ESPEAK_NG_DATA_FILES@[109] == "espeak-ng-data/voices/!v/grandpa");
        } else if i == 110 {
            reveal_strlit("espeak-ng-data/lang/grk/grc");
            assert(ESPEAK_NG_DATA_FILES@[110] == "espeak-ng-data/lang/grk/grc");
        } else if i == 111 {
            reveal_strlit("espeak-ng-data/grc_dict");
            assert(ESPEAK_NG_DATA_FILES@[111] == "espeak-ng-data/grc_dict");
        } else if i == 112 {
            reveal_strlit("espeak-ng-data/lang/inc/gu");
            assert(ESPEAK_NG_DATA_FILES@[112] == "espeak-ng-data/lang/inc/gu");
        } else if i == 113 {
            reveal_strlit("espeak-ng-data/gu_dict");
            assert(ESPEAK_NG_DATA_FILES@[113] == "espeak-ng-data/gu_dict");
        } else if i == 114 {
            reveal_strlit("espeak-ng-data/voices/!v/gustave");
            assert(ESPEAK_NG_DATA_FILES@[114] == "espeak-ng-data/voices/!v/gustave");
        } else if i == 115 {
            reveal_strlit("espeak-ng-data/lang/sit/hak");
            assert(ESPEAK_NG_DATA_FILES@[115] == "espeak-ng-data/lang/sit/hak");
        } else if i == 116 {
            reveal_strlit("espeak-ng-data/hak_dict");
            assert(ESPEAK_NG_DATA_FILES@[116] == "espeak-ng-data/hak_dict");
        } else if i == 117 {
            reveal_strlit("espeak-ng-data/lang/map/haw");
            assert(ESPEAK_NG_DATA_FILES@[117] == "espeak-ng-data/lang/map/haw");
        } else if i == 118 {
            reveal_strlit("espeak-ng-data/haw_dict");
            assert(ESPEAK_NG_DATA_FILES@[118] == "espeak-ng-data/haw_dict");
        } else if i == 119 {
            reveal_strlit("espeak-ng-data/lang/sem/he");
            assert(ESPEAK_NG_DATA_FILES@[119] == "espeak-ng-data/lang/sem/he");
        }
    }
}

/// A part of `ESPEAK_NG_DATA_FILES`, entry by entry: each is a safe relative path.
proof fn lemma_espeak_ng_data_files_safe_3()
    ensures
        forall|i: int| 120 <= i < 160 ==> is_safe_relative(#[trigger] ESPEAK_NG_DATA_FILES@[i]@),
{
    assert forall|i: int| 120 <= i < 160 implies is_safe_relative(#[trigger] ESPEAK_NG_DATA_FILES@[i]@) by {
        if i == 120 {
            reveal_strlit("espeak-ng-data/he_dict");
            assert(ESPEAK_NG_DATA_FILES@[120] == "espeak-ng-data/he_dict");
        } else if i == 121 {
            reveal_strlit("espeak-ng-data/voices/!v/Henrique");
            assert(ESPEAK_NG_DATA_FILES@[121] == "espeak-ng-data/voices/!v/Henrique");
        } else if i == 122 {
            reveal_strlit("espeak-ng-data/lang/inc/hi");
            assert(ESPEAK_NG_DATA_FILES@[122] == "espeak-ng-data/lang/inc/hi");
        } else if i == 123 {
            reveal_strlit("espeak-ng-data/hi_dict");
            assert(ESPEAK_NG_DATA_FILES@[123] == "espeak-ng-data/hi_dict");
        } else if i == 124 {
            reveal_strlit("espeak-ng-data/lang/zls/hr");
            assert(ESPEAK_NG_DATA_FILES@[124] == "espeak-ng-data/lang/zls/hr");
        } else if i == 125 {
            reveal_strlit("espeak-ng-data/hr_dict");
            assert(ESPEAK_NG_DATA_FILES@[125] == "espeak-ng-data/hr_dict");
        } else if i == 126 {
            reveal_strlit("espeak-ng-data/lang/roa/ht");
            assert(ESPEAK_NG_DATA_FILES@[126] == "espeak-ng-data/lang/roa/ht");
        } else if i == 127 {
            reveal_strlit("espeak-ng-data/ht_dict");
            assert(ESPEAK_NG_DATA_FILES@[127] == "espeak-ng-data/ht_dict");
        } else if i == 128 {
            reveal_strlit("espeak-ng-data/lang/urj/hu");
            assert(ESPEAK_NG_DATA_FILES@[128] == "espeak-ng-data/lang/urj/hu");
        } else if i == 129 {
            reveal_strlit("espeak-ng-data/hu_dict");
            assert(ESPEAK_NG_DATA_FILES@[129] == "espeak-ng-data/hu_dict");
        } else if i == 130 {
            reveal_strlit("espeak-ng-data/voices/!v/Hugo");
            assert(ESPEAK_NG_DATA_FILES@[130] == "espeak-ng-data/voices/!v/Hugo");
        } else if i == 131 {
            reveal_strlit("espeak-ng-data/lang/ine/hy");
            assert(ESPEAK_NG_DATA_FILES@[131] == "espeak-ng-data/lang/ine/hy");
        } else if i == 132 {
            reveal_strlit("espeak-ng-data/hy_dict");
            assert(ESPEAK_NG_DATA_FILES@[132] == "espeak-ng-data/hy_dict");
        } else if i == 133 {
            reveal_strlit("espeak-ng-data/lang/ine/hyw");
            assert(ESPEAK_NG_DATA_FILES@[133] == "espeak-ng-data/lang/ine/hyw");
        } else if i == 134 {
            reveal_strlit("espeak-ng-data/lang/art/ia");
            assert(ESPEAK_NG_DATA_FILES@[134] == "espeak-ng-data/lang/art/ia");
        } else if i == 135 {
            reveal_strlit("espeak-ng-data/ia_dict");
            assert(ESPEAK_NG_DATA_FILES@[135] == "espeak-ng-data/ia_dict");
        } else if i == 136 {
            reveal_strlit("espeak-ng-data/voices/!v/ian");
            assert(ESPEAK_NG_DATA_FILES@[136] == "espeak-ng-data/voices/!v/ian");
        } else if i == 137 {
            reveal_strlit("espeak-ng-data/lang/poz/id");
            assert(ESPEAK_NG_DATA_FILES@[137] == "espeak-ng-data/lang/poz/id");
        } else if i == 138 {
            reveal_strlit("espeak-ng-data/id_dict");
            assert(ESPEAK_NG_DATA_FILES@[138] == "espeak-ng-data/id_dict");
        } else if i == 139 {
            reveal_strlit("espeak-ng-data/intonations");
            assert(ESPEAK_NG_DATA_FILES@[139] == "espeak-ng-data/intonations");
        } else if i == 140 {
            reveal_strlit("espeak-ng-data/lang/art/io");
            assert(ESPEAK_NG_DATA_FILES@[140] == "espeak-ng-data/lang/art/io");
        } else if i == 141 {
            reveal_strlit("espeak-ng-data/io_dict");
            assert(ESPEAK_NG_DATA_FILES@[141] == "espeak-ng-data/io_dict");
        } else if i == 142 {
            reveal_strlit("espeak-ng-data/lang/gmq/is");
            assert(ESPEAK_NG_DATA_FILES@[142] == "espeak-ng-data/lang/gmq/is");
        } else if i == 143 {
            reveal_strlit("espeak-ng-data/is_dict");
            assert(ESPEAK_NG_DATA_FILES@[143] == "espeak-ng-data/is_dict");
        } else if i == 144 {
            reveal_strlit("espeak-ng-data/lang/roa/it");
            assert(ESPEAK_NG_DATA_FILES@[144] == "espeak-ng-data/lang/roa/it");
        } else if i == 145 {
            reveal_strlit("espeak-ng-data/it_dict");
            assert(ESPEAK_NG_DATA_FILES@[145] == "espeak-ng-data/it_dict");
        } else if i == 146 {
            reveal_strlit("espeak-ng-data/voices/!v/iven");
            assert(ESPEAK_NG_DATA_FILES@[146] == "espeak-ng-data/voices/!v/iven");
        } else if i == 147 {
            reveal_strlit("espeak-ng-data/voices/!v/iven2");
            assert(ESPEAK_NG_DATA_FILES@[147] == "espeak-ng-data/voices/!v/iven2");
        } else if i == 148 {
            reveal_strlit("espeak-ng-data/voices/!v/iven3");
            assert(ESPEAK_NG_DATA_FILES@[148] == "espeak-ng-data/voices/!v/iven3");
        } else if i == 149 {
            reveal_strlit("espeak-ng-data/voices/!v/iven4");
            assert(ESPEAK_NG_DATA_FILES@[149] == "espeak-ng-data/voices/!v/iven4");
        } else if i == 150 {
            reveal_strlit("espeak-ng-data/lang/jpx/ja");
            assert(ESPEAK_NG_DATA_FILES@[150] == "espeak-ng-data/lang/jpx/ja");
        } else if i == 151 {
            reveal_strlit("espeak-ng-data/ja_dict");
            assert(ESPEAK_NG_DATA_FILES@[151] == "espeak-ng-data/ja_dict");
        } else if i == 152 {
            reveal_strlit("espeak-ng-data/voices/!v/Jacky");
            assert(ESPEAK_NG_DATA_FILES@[152] == "espeak-ng-data/voices/!v/Jacky");
        } else if i == 153 {
            reveal_strlit("espeak-ng-data/lang/art/jbo");
            assert(ESPEAK_NG_DATA_FILES@[153] == "espeak-ng-data/lang/art/jbo");
        } else if i == 154 {
            reveal_strlit("espeak-ng-data/jbo_dict");
            assert(ESPEAK_NG_DATA_FILES@[154] == "espeak-ng-data/jbo_dict");
        } else if i == 155 {
            reveal_strlit("espeak-ng-data/voices/!v/john");
            assert(ESPEAK_NG_DATA_FILES@[155] == "espeak-ng-data/voices/!v/john");
        } else if i == 156 {
            reveal_strlit("espeak-ng-data/lang/ccs/ka");
            assert(ESPEAK_NG_DATA_FILES@[156] == "espeak-ng-data/lang/ccs/ka");
        } else if i == 157 {
            reveal_strlit("espeak-ng-data/ka_dict");
            assert(ESPEAK_NG_DATA_FILES@[157] == "espeak-ng-data/ka_dict");
        } else if i == 158 {
            reveal_strlit("espeak-ng-data/voices/!v/kaukovalta");
            assert(ESPEAK_NG_DATA_FILES@[158] == "espeak-ng-data/voices/!v/kaukovalta");
        } else if i == 159 {
            reveal_strlit("espeak-ng-data/lang/trk/kk");
            assert(ESPEAK_NG_DATA_FILES@[159] == "espeak-ng-data/lang/trk/kk");
        }
    }
}

/// A part of `ESPEAK_NG_DATA_FILES`, entry by entry: each is a safe relative path.
proof fn lemma_espeak_ng_data_files_safe_4()
    ensures
        forall|i: int| 160 <= i < 200 ==> is_safe_relative(#[trigger] ESPEAK_NG_DATA_FILES@[i]@),
{
    assert forall|i: int| 160 <= i < 200 implies is_safe_relative(#[trigger] ESPEAK_NG_DATA_FILES@[i]@) by {
        if i == 160 {
            reveal_strlit("espeak-ng-data/kk_dict");
            assert(ESPEAK_NG_DATA_FILES@[160] == "espeak-ng-data/kk_dict");
        } else if i == 161 {
            reveal_strlit("espeak-ng-data/lang/esx/kl");
            assert(ESPEAK_NG_DATA_FILES@[161] == "espeak-ng-data/lang/esx/kl");
        } else if i == 162 {
            reveal_strlit("espeak-ng-data/kl_dict");
            assert(ESPEAK_NG_DATA_FILES@[162] == "espeak-ng-data/kl_dict");
        } else if i == 163 {
            reveal_strlit("espeak-ng-data/voices/!v/klatt");
            assert(ESPEAK_NG_DATA_FILES@[163] == "espeak-ng-data/voices/!v/klatt");
        } else if i == 164 {
            reveal_strlit("espeak-ng-data/voices/!v/klatt2");
            assert(ESPEAK_NG_DATA_FILES@[164] == "espeak-ng-data/voices/!v/klatt2");
        } else if i == 165 {
            reveal_strlit("espeak-ng-data/voices/!v/klatt3");
            assert(ESPEAK_NG_DATA_FILES@[165] == "espeak-ng-data/voices/!v/klatt3");
        } else if i == 166 {
            reveal_strlit("espeak-ng-data/voices/!v/klatt4");
            assert(ESPEAK_NG_DATA_FILES@[166] == "espeak-ng-data/voices/!v/klatt4");
        } else if i == 167 {
            reveal_strlit("espeak-ng-data/voices/!v/klatt5");
            assert(ESPEAK_NG_DATA_FILES@[167] == "espeak-ng-data/voices/!v/klatt5");
        } else if i == 168 {
            reveal_strlit("espeak-ng-data/voices/!v/klatt6");
            assert(ESPEAK_NG_DATA_FILES@[168] == "espeak-ng-data/voices/!v/klatt6");
        } else if i == 169 {
            reveal_strlit("espeak-ng-data/lang/dra/kn");
            assert(ESPEAK_NG_DATA_FILES@[169] == "espeak-ng-data/lang/dra/kn");
        } else if i == 170 {
            reveal_strlit("espeak-ng-data/kn_dict");
            assert(ESPEAK_NG_DATA_FILES@[170] == "espeak-ng-data/kn_dict");
        } else if i == 171 {
            reveal_strlit("espeak-ng-data/lang/ko");
            assert(ESPEAK_NG_DATA_FILES@[171] == "espeak-ng-data/lang/ko");
        } else if i == 172 {
            reveal_strlit("espeak-ng-data/ko_dict");
            assert(ESPEAK_NG_DATA_FILES@[172] == "espeak-ng-data/ko_dict");
        } else if i == 173 {
            reveal_strlit("espeak-ng-data/lang/inc/kok");
            assert(ESPEAK_NG_DATA_FILES@[173] == "espeak-ng-data/lang/inc/kok");
        } else if i == 174 {
            reveal_strlit("espeak-ng-data/kok_dict");
            assert(ESPEAK_NG_DATA_FILES@[174] == "espeak-ng-data/kok_dict");
        } else if i == 175 {
            reveal_strlit("espeak-ng-data/lang/ira/ku");
            assert(ESPEAK_NG_DATA_FILES@[175] == "espeak-ng-data/lang/ira/ku");
        } else if i == 176 {
            reveal_strlit("espeak-ng-data/ku_dict");
            assert(ESPEAK_NG_DATA_FILES@[176] == "espeak-ng-data/ku_dict");
        } else if i == 177 {
            reveal_strlit("espeak-ng-data/lang/trk/ky");
            assert(ESPEAK_NG_DATA_FILES@[177] == "espeak-ng-data/lang/trk/ky");
        } else if i == 178 {
            reveal_strlit("espeak-ng-data/ky_dict");
            assert(ESPEAK_NG_DATA_FILES@[178] == "espeak-ng-data/ky_dict");
        } else if i == 179 {
            reveal_strlit("espeak-ng-data/lang/itc/la");
            assert(ESPEAK_NG_DATA_FILES@[179] == "espeak-ng-data/lang/itc/la");
        } else if i == 180 {
            reveal_strlit("espeak-ng-data/la_dict");
            assert(ESPEAK_NG_DATA_FILES@[180] == "espeak-ng-data/la_dict");
        } else if i == 181 {
            reveal_strlit("espeak-ng-data/lang/gmw/lb");
            assert(ESPEAK_NG_DATA_FILES@[181] == "espeak-ng-data/lang/gmw/lb");
        } else if i == 182 {
            reveal_strlit("espeak-ng-data/lb_dict");
            assert(ESPEAK_NG_DATA_FILES@[182] == "espeak-ng-data/lb_dict");
        } else if i == 183 {
            reveal_strlit("espeak-ng-data/voices/!v/Lee");
            assert(ESPEAK_NG_DATA_FILES@[183] == "espeak-ng-data/voices/!v/Lee");
        } else if i == 184 {
            reveal_strlit("espeak-ng-data/lang/art/lfn");
            assert(ESPEAK_NG_DATA_FILES@[184] == "espeak-ng-data/lang/art/lfn");
        } else if i == 185 {
            reveal_strlit("espeak-ng-data/lfn_dict");
            assert(ESPEAK_NG_DATA_FILES@[185] == "espeak-ng-data/lfn_dict");
        } else if i == 186 {
            reveal_strlit("espeak-ng-data/voices/!v/linda");
            assert(ESPEAK_NG_DATA_FILES@[186] == "espeak-ng-data/voices/!v/linda");
        } else if i == 187 {
            reveal_strlit("espeak-ng-data/lang/bat/lt");
            assert(ESPEAK_NG_DATA_FILES@[187] == "espeak-ng-data/lang/bat/lt");
        } else if i == 188 {
            reveal_strlit("espeak-ng-data/lt_dict");
            assert(ESPEAK_NG_DATA_FILES@[188] == "espeak-ng-data/lt_dict");
        } else if i == 189 {
            reveal_strlit("espeak-ng-data/lang/bat/ltg");
            assert(ESPEAK_NG_DATA_FILES@[189] == "espeak-ng-data/lang/bat/ltg");
        } else if i == 190 {
            reveal_strlit("espeak-ng-data/lang/bat/lv");
            assert(ESPEAK_NG_DATA_FILES@[190] == "espeak-ng-data/lang/bat/lv");
        } else if i == 191 {
            reveal_strlit("espeak-ng-data/lv_dict");
            assert(ESPEAK_NG_DATA_FILES@[191] == "espeak-ng-data/lv_dict");
        } else if i == 192 {
            reveal_strlit("espeak-ng-data/voices/!v/m1");
            assert(ESPEAK_NG_DATA_FILES@[192] == "espeak-ng-data/voices/!v/m1");
        } else if i == 193 {
            reveal_strlit("espeak-ng-data/voices/!v/m2");
            assert(ESPEAK_NG_DATA_FILES@[193] == "espeak-ng-data/voices/!v/m2");
        } else if i == 194 {
            reveal_strlit("espeak-ng-data/voices/!v/m3");
            assert(ESPEAK_NG_DATA_FILES@[194] == "espeak-ng-data/voices/!v/m3");
        } else if i == 195 {
            reveal_strlit("espeak-ng-data/voices/!v/m4");
            assert(ESPEAK_NG_DATA_FILES@[195] == "espeak-ng-data/voices/!v/m4");
        } else if i == 196 {
            reveal_strlit("espeak-ng-data/voices/!v/m5");
            assert(ESPEAK_NG_DATA_FILES@[196] == "espeak-ng-data/voices/!v/m5");
        } else if i == 197 {
            reveal_strlit("espeak-ng-data/voices/!v/m6");
            assert(ESPEAK_NG_DATA_FILES@[197] == "espeak-ng-data/voices/!v/m6");
        } else if i == 198 {
            reveal_strlit("espeak-ng-data/voices/!v/m7");
            assert(ESPEAK_NG_DATA_FILES@[198] == "espeak-ng-data/voices/!v/m7");
        } else if i == 199 {
            reveal_strlit("espeak-ng-data/voices/!v/m8");
            assert(ESPEAK_NG_DATA_FILES@[199] == "espeak-ng-data/voices/!v/m8");
        }
    }
}

/// A part of `ESPEAK_NG_DATA_FILES`, entry by entry: each is a safe relative path.
proof fn lemma_espeak_ng_data_files_safe_5()
    ensures
        forall|i: int| 200 <= i < 240 ==> is_safe_relative(#[trigger] ESPEAK_NG_DATA_FILES@[i]@),
{
    assert forall|i: int| 200 <= i < 240 implies is_safe_relative(#[trigger] ESPEAK_NG_DATA_FILES@[i]@) by {
        if i == 200 {
            reveal_strlit("espeak-ng-data/voices/!v/marcelo");
            assert(ESPEAK_NG_DATA_FILES@[200] == "espeak-ng-data/voices/!v/marcelo");
        } else if i == 201 {
            reveal_strlit("espeak-ng-data/voices/!v/Marco");
            assert(ESPEAK_NG_DATA_FILES@[201] == "espeak-ng-data/voices/!v/Marco");
        } else if i == 202 {
            reveal_strlit("espeak-ng-data/voices/!v/Mario");
            assert(ESPEAK_NG_DATA_FILES@[202] == "espeak-ng-data/voices/!v/Mario");
        } else if i == 203 {
            reveal_strlit("espeak-ng-data/voices/!v/max");
            assert(ESPEAK_NG_DATA_FILES@[203] == "espeak-ng-data/voices/!v/max");
        } else if i == 204 {
            reveal_strlit("espeak-ng-data/lang/poz/mi");
            assert(ESPEAK_NG_DATA_FILES@[204] == "espeak-ng-data/lang/poz/mi");
        } else if i == 205 {
            reveal_strlit("espeak-ng-data/mi_dict");
            assert(ESPEAK_NG_DATA_FILES@[205] == "espeak-ng-data/mi_dict");
        } else if i == 206 {
            reveal_strlit("espeak-ng-data/voices/!v/Michael");
            assert(ESPEAK_NG_DATA_FILES@[206] == "espeak-ng-data/voices/!v/Michael");
        } else if i == 207 {
            reveal_strlit("espeak-ng-data/voices/!v/michel");
            assert(ESPEAK_NG_DATA_FILES@[207] == "espeak-ng-data/voices/!v/michel");
        } else if i == 208 {
            reveal_strlit("espeak-ng-data/voices/!v/miguel");
            assert(ESPEAK_NG_DATA_FILES@[208] == "espeak-ng-data/voices/!v/miguel");
        } else if i == 209 {
            reveal_strlit("espeak-ng-data/voices/!v/Mike");
            assert(ESPEAK_NG_DATA_FILES@[209] == "espeak-ng-data/voices/!v/Mike");
        } else if i == 210 {
            reveal_strlit("espeak-ng-data/voices/!v/mike2");
            assert(ESPEAK_NG_DATA_FILES@[210] == "espeak-ng-data/voices/!v/mike2");
        } else if i == 211 {
            reveal_strlit("espeak-ng-data/lang/zls/mk");
            assert(ESPEAK_NG_DATA_FILES@[211] == "espeak-ng-data/lang/zls/mk");
        } else if i == 212 {
            reveal_strlit("espeak-ng-data/mk_dict");
            assert(ESPEAK_NG_DATA_FILES@[212] == "espeak-ng-data/mk_dict");
        } else if i == 213 {
            reveal_strlit("espeak-ng-data/lang/dra/ml");
            assert(ESPEAK_NG_DATA_FILES@[213] == "espeak-ng-data/lang/dra/ml");
        } else if i == 214 {
            reveal_strlit("espeak-ng-data/ml_dict");
            assert(ESPEAK_NG_DATA_FILES@[214] == "espeak-ng-data/ml_dict");
        } else if i == 215 {
            reveal_strlit("espeak-ng-data/lang/inc/mr");
            assert(ESPEAK_NG_DATA_FILES@[215] == "espeak-ng-data/lang/inc/mr");
        } else if i == 216 {
            reveal_strlit("espeak-ng-data/voices/!v/Mr serious");
            assert(ESPEAK_NG_DATA_FILES@[216] == "espeak-ng-data/voices/!v/Mr serious");
        } else if i == 217 {
            reveal_strlit("espeak-ng-data/mr_dict");
            assert(ESPEAK_NG_DATA_FILES@[217] == "espeak-ng-data/mr_dict");
        } else if i == 218 {
            reveal_strlit("espeak-ng-data/lang/poz/ms");
            assert(ESPEAK_NG_DATA_FILES@[218] == "espeak-ng-data/lang/poz/ms");
        } else if i == 219 {
            reveal_strlit("espeak-ng-data/ms_dict");
            assert(ESPEAK_NG_DATA_FILES@[219] == "espeak-ng-data/ms_dict");
        } else if i == 220 {
            reveal_strlit("espeak-ng-data/lang/sem/mt");
            assert(ESPEAK_NG_DATA_FILES@[220] == "espeak-ng-data/lang/sem/mt");
        } else if i == 221 {
            reveal_strlit("espeak-ng-data/mt_dict");
            assert(ESPEAK_NG_DATA_FILES@[221] == "espeak-ng-data/mt_dict");
        } else if i == 222 {
            reveal_strlit("espeak-ng-data/lang/miz/mto");
            assert(ESPEAK_NG_DATA_FILES@[222] == "espeak-ng-data/lang/miz/mto");
        } else if i == 223 {
            reveal_strlit("espeak-ng-data/mto_dict");
            assert(ESPEAK_NG_DATA_FILES@[223] == "espeak-ng-data/mto_dict");
        } else if i == 224 {
            reveal_strlit("espeak-ng-data/lang/sit/my");
            assert(ESPEAK_NG_DATA_FILES@[224] == "espeak-ng-data/lang/sit/my");
        } else if i == 225 {
            reveal_strlit("espeak-ng-data/my_dict");
            assert(ESPEAK_NG_DATA_FILES@[225] == "espeak-ng-data/my_dict");
        } else if i == 226 {
            reveal_strlit("espeak-ng-data/lang/gmq/nb");
            assert(ESPEAK_NG_DATA_FILES@[226] == "espeak-ng-data/lang/gmq/nb");
        } else if i == 227 {
            reveal_strlit("espeak-ng-data/lang/azc/nci");
            assert(ESPEAK_NG_DATA_FILES@[227] == "espeak-ng-data/lang/azc/nci");
        } else if i == 228 {
            reveal_strlit("espeak-ng-data/nci_dict");
            assert(ESPEAK_NG_DATA_FILES@[228] == "espeak-ng-data/nci_dict");
        } else if i == 229 {
            reveal_strlit("espeak-ng-data/lang/inc/ne");
            assert(ESPEAK_NG_DATA_FILES@[229] == "espeak-ng-data/lang/inc/ne");
        } else if i == 230 {
            reveal_strlit("espeak-ng-data/ne_dict");
            assert(ESPEAK_NG_DATA_FILES@[230] == "espeak-ng-data/ne_dict");
        } else if i == 231 {
            reveal_strlit("espeak-ng-data/voices/!v/Nguyen");
            assert(ESPEAK_NG_DATA_FILES@[231] == "espeak-ng-data/voices/!v/Nguyen");
        } else if i == 232 {
            reveal_strlit("espeak-ng-data/lang/gmw/nl");
            assert(ESPEAK_NG_DATA_FILES@[232] == "espeak-ng-data/lang/gmw/nl");
        } else if i == 233 {
            reveal_strlit("espeak-ng-data/nl_dict");
            assert(ESPEAK_NG_DATA_FILES@[233] == "espeak-ng-data/nl_dict");
        } else if i == 234 {
            reveal_strlit("espeak-ng-data/no_dict");
            assert(ESPEAK_NG_DATA_FILES@[234] == "espeak-ng-data/no_dict");
        } else if i == 235 {
            reveal_strlit("espeak-ng-data/lang/trk/nog");
            assert(ESPEAK_NG_DATA_FILES@[235] == "espeak-ng-data/lang/trk/nog");
        } else if i == 236 {
            reveal_strlit("espeak-ng-data/nog_dict");
            assert(ESPEAK_NG_DATA_FILES@[236] == "espeak-ng-data/nog_dict");
        } else if i == 237 {
            reveal_strlit("espeak-ng-data/voices/!v/norbert");
            assert(ESPEAK_NG_DATA_FILES@[237] == "espeak-ng-data/voices/!v/norbert");
        } else if i == 238 {
            reveal_strlit("espeak-ng-data/lang/cus/om");
            assert(ESPEAK_NG_DATA_FILES@[238] == "espeak-ng-data/lang/cus/om");
        } else if i == 239 {
            reveal_strlit("espeak-ng-data/om_dict");
            assert(ESPEAK_NG_DATA_FILES@[239] == "espeak-ng-data/om_dict");
        }
    }
}

/// A part of `ESPEAK_NG_DATA_FILES`, entry by entry: each is a safe relative path.
proof fn lemma_espeak_ng_data_files_safe_6()
    ensures
        forall|i: int| 240 <= i < 280 ==> is_safe_relative(#[trigger] ESPEAK_NG_DATA_FILES@[i]@),
{
    assert forall|i: int| 240 <= i < 280 implies is_safe_relative(#[trigger] ESPEAK_NG_DATA_FILES@[i]@) by {
        if i == 240 {
            reveal_strlit("espeak-ng-data/lang/inc/or");
            assert(ESPEAK_NG_DATA_FILES@[240] == "espeak-ng-data/lang/inc/or");
        } else if i == 241 {
            reveal_strlit("espeak-ng-data/or_dict");
            assert(ESPEAK_NG_DATA_FILES@[241] == "espeak-ng-data/or_dict");
        } else if i == 242 {
            reveal_strlit("espeak-ng-data/lang/inc/pa");
            assert(ESPEAK_NG_DATA_FILES@[242] == "espeak-ng-data/lang/inc/pa");
        } else if i == 243 {
            reveal_strlit("espeak-ng-data/pa_dict");
            assert(ESPEAK_NG_DATA_FILES@[243] == "espeak-ng-data/pa_dict");
        } else if i == 244 {
            reveal_strlit("espeak-ng-data/voices/!v/pablo");
            assert(ESPEAK_NG_DATA_FILES@[244] == "espeak-ng-data/voices/!v/pablo");
        } else if i == 245 {
            reveal_strlit("espeak-ng-data/lang/roa/pap");
            assert(ESPEAK_NG_DATA_FILES@[245] == "espeak-ng-data/lang/roa/pap");
        } else if i == 246 {
            reveal_strlit("espeak-ng-data/pap_dict");
            assert(ESPEAK_NG_DATA_FILES@[246] == "espeak-ng-data/pap_dict");
        } else if i == 247 {
            reveal_strlit("espeak-ng-data/voices/!v/paul");
            assert(ESPEAK_NG_DATA_FILES@[247] == "espeak-ng-data/voices/!v/paul");
        } else if i == 248 {
            reveal_strlit("espeak-ng-data/voices/!v/pedro");
            assert(ESPEAK_NG_DATA_FILES@[248] == "espeak-ng-data/voices/!v/pedro");
        } else if i == 249 {
            reveal_strlit("espeak-ng-data/phondata");
            assert(ESPEAK_NG_DATA_FILES@[249] == "espeak-ng-data/phondata");
        } else if i == 250 {
            reveal_strlit("espeak-ng-data/phondata-manifest");
            assert(ESPEAK_NG_DATA_FILES@[250] == "espeak-ng-data/phondata-manifest");
        } else if i == 251 {
            reveal_strlit("espeak-ng-data/phonindex");
            assert(ESPEAK_NG_DATA_FILES@[251] == "espeak-ng-data/phonindex");
        } else if i == 252 {
            reveal_strlit("espeak-ng-data/phontab");
            assert(ESPEAK_NG_DATA_FILES@[252] == "espeak-ng-data/phontab");
        } else if i == 253 {
            reveal_strlit("espeak-ng-data/lang/art/piqd");
            assert(ESPEAK_NG_DATA_FILES@[253] == "espeak-ng-data/lang/art/piqd");
        } else if i == 254 {
            reveal_strlit("espeak-ng-data/piqd_dict");
            assert(ESPEAK_NG_DATA_FILES@[254] == "espeak-ng-data/piqd_dict");
        } else if i == 255 {
            reveal_strlit("espeak-ng-data/lang/zlw/pl");
            assert(ESPEAK_NG_DATA_FILES@[255] == "espeak-ng-data/lang/zlw/pl");
        } else if i == 256 {
            reveal_strlit("espeak-ng-data/pl_dict");
            assert(ESPEAK_NG_DATA_FILES@[256] == "espeak-ng-data/pl_dict");
        } else if i == 257 {
            reveal_strlit("espeak-ng-data/lang/roa/pt");
            assert(ESPEAK_NG_DATA_FILES@[257] == "espeak-ng-data/lang/roa/pt");
        } else if i == 258 {
            reveal_strlit("espeak-ng-data/lang/roa/pt-BR");
            assert(ESPEAK_NG_DATA_FILES@[258] == "espeak-ng-data/lang/roa/pt-BR");
        } else if i == 259 {
            reveal_strlit("espeak-ng-data/pt_dict");
            assert(ESPEAK_NG_DATA_FILES@[259] == "espeak-ng-data/pt_dict");
        } else if i == 260 {
            reveal_strlit("espeak-ng-data/lang/art/py");
            assert(ESPEAK_NG_DATA_FILES@[260] == "espeak-ng-data/lang/art/py");
        } else if i == 261 {
            reveal_strlit("espeak-ng-data/py_dict");
            assert(ESPEAK_NG_DATA_FILES@[261] == "espeak-ng-data/py_dict");
        } else if i == 262 {
            reveal_strlit("espeak-ng-data/lang/art/qdb");
            assert(ESPEAK_NG_DATA_FILES@[262] == "espeak-ng-data/lang/art/qdb");
        } else if i == 263 {
            reveal_strlit("espeak-ng-data/qdb_dict");
            assert(ESPEAK_NG_DATA_FILES@[263] == "espeak-ng-data/qdb_dict");
        } else if i == 264 {
            reveal_strlit("espeak-ng-data/lang/qu");
            assert(ESPEAK_NG_DATA_FILES@[264] == "espeak-ng-data/lang/qu");
        } else if i == 265 {
            reveal_strlit("espeak-ng-data/qu_dict");
            assert(ESPEAK_NG_DATA_FILES@[265] == "espeak-ng-data/qu_dict");
        } else if i == 266 {
            reveal_strlit("espeak-ng-data/lang/myn/quc");
            assert(ESPEAK_NG_DATA_FILES@[266] == "espeak-ng-data/lang/myn/quc");
        } else if i == 267 {
            reveal_strlit("espeak-ng-data/quc_dict");
            assert(ESPEAK_NG_DATA_FILES@[267] == "espeak-ng-data/quc_dict");
        } else if i == 268 {
            reveal_strlit("espeak-ng-data/voices/!v/quincy");
            assert(ESPEAK_NG_DATA_FILES@[268] == "espeak-ng-data/voices/!v/quincy");
        } else if i == 269 {
            reveal_strlit("espeak-ng-data/lang/art/qya");
            assert(ESPEAK_NG_DATA_FILES@[269] == "espeak-ng-data/lang/art/qya");
        } else if i == 270 {
            reveal_strlit("espeak-ng-data/qya_dict");
            assert(ESPEAK_NG_DATA_FILES@[270] == "espeak-ng-data/qya_dict");
        } else if i == 271 {
            reveal_strlit("espeak-ng-data/voices/!v/Reed");
            assert(ESPEAK_NG_DATA_FILES@[271] == "espeak-ng-data/voices/!v/Reed");
        } else if i == 272 {
            reveal_strlit("espeak-ng-data/voices/!v/RicishayMax");
            assert(ESPEAK_NG_DATA_FILES@[272] == "espeak-ng-data/voices/!v/RicishayMax");
        } else if i == 273 {
            reveal_strlit("espeak-ng-data/voices/!v/RicishayMax2");
            assert(ESPEAK_NG_DATA_FILES@[273] == "espeak-ng-data/voices/!v/RicishayMax2");
        } else if i == 274 {
            reveal_strlit("espeak-ng-data/voices/!v/RicishayMax3");
            assert(ESPEAK_NG_DATA_FILES@[274] == "espeak-ng-data/voices/!v/RicishayMax3");
        } else if i == 275 {
            reveal_strlit("espeak-ng-data/lang/roa/ro");
            assert(ESPEAK_NG_DATA_FILES@[275] == "espeak-ng-data/lang/roa/ro");
        } else if i == 276 {
            reveal_strlit("espeak-ng-data/ro_dict");
            assert(ESPEAK_NG_DATA_FILES@[276] == "espeak-ng-data/ro_dict");
        } else if i == 277 {
            reveal_strlit("espeak-ng-data/voices/!v/rob");
            assert(ESPEAK_NG_DATA_FILES@[277] == "espeak-ng-data/voices/!v/rob");
        } else if i == 278 {
            reveal_strlit("espeak-ng-data/voices/!v/robert");
            assert(ESPEAK_NG_DATA_FILES@[278] == "espeak-ng-data/voices/!v/robert");
        } else if i == 279 {
            reveal_strlit("espeak-ng-data/voices/!v/robosoft");
            assert(ESPEAK_NG_DATA_FILES@[279] == "espeak-ng-data/voices/!v/robosoft");
        }
    }
}

/// A part of `ESPEAK_NG_DATA_FILES`, entry by entry: each is a safe relative path.
proof fn lemma_espeak_ng_data_files_safe_7()
    ensures
        forall|i: int| 280 <= i < 320 ==> is_safe_relative(#[trigger] ESPEAK_NG_DATA_FILES@[i]@),
{
    assert forall|i: int| 280 <= i < 320 implies is_safe_relative(#[trigger] ESPEAK_NG_DATA_FILES@[i]@) by {
        if i == 280 {
            reveal_strlit("espeak-ng-data/voices/!v/robosoft2");
            assert(ESPEAK_NG_DATA_FILES@[280] == "espeak-ng-data/voices/!v/robosoft2");
        } else if i == 281 {
            reveal_strlit("espeak-ng-data/voices/!v/robosoft3");
            assert(ESPEAK_NG_DATA_FILES@[281] == "espeak-ng-data/voices/!v/robosoft3");
        } else if i == 282 {
            reveal_strlit("espeak-ng-data/voices/!v/robosoft4");
            assert(ESPEAK_NG_DATA_FILES@[282] == "espeak-ng-data/voices/!v/robosoft4");
        } else if i == 283 {
            reveal_strlit("espeak-ng-data/voices/!v/robosoft5");
            assert(ESPEAK_NG_DATA_FILES@[283] == "espeak-ng-data/voices/!v/robosoft5");
        } else if i == 284 {
            reveal_strlit("espeak-ng-data/voices/!v/robosoft6");
            assert(ESPEAK_NG_DATA_FILES@[284] == "espeak-ng-data/voices/!v/robosoft6");
        } else if i == 285 {
            reveal_strlit("espeak-ng-data/voices/!v/robosoft7");
            assert(ESPEAK_NG_DATA_FILES@[285] == "espeak-ng-data/voices/!v/robosoft7");
        } else if i == 286 {
            reveal_strlit("espeak-ng-data/voices/!v/robosoft8");
            assert(ESPEAK_NG_DATA_FILES@[286] == "espeak-ng-data/voices/!v/robosoft8");
        } else if i == 287 {
            reveal_strlit("espeak-ng-data/lang/zle/ru");
            assert(ESPEAK_NG_DATA_FILES@[287] == "espeak-ng-data/lang/zle/ru");
        } else if i == 288 {
            reveal_strlit("espeak-ng-data/lang/zle/ru-cl");
            assert(ESPEAK_NG_DATA_FILES@[288] == "espeak-ng-data/lang/zle/ru-cl");
        } else if i == 289 {
            reveal_strlit("espeak-ng-data/lang/zle/ru-LV");
            assert(ESPEAK_NG_DATA_FILES@[289] == "espeak-ng-data/lang/zle/ru-LV");
        } else if i == 290 {
            reveal_strlit("espeak-ng-data/ru_dict");
            assert(ESPEAK_NG_DATA_FILES@[290] == "espeak-ng-data/ru_dict");
        } else if i == 291 {
            reveal_strlit("espeak-ng-data/voices/!v/sandro");
            assert(ESPEAK_NG_DATA_FILES@[291] == "espeak-ng-data/voices/!v/sandro");
        } else if i == 292 {
            reveal_strlit("espeak-ng-data/lang/inc/sd");
            assert(ESPEAK_NG_DATA_FILES@[292] == "espeak-ng-data/lang/inc/sd");
        } else if i == 293 {
            reveal_strlit("espeak-ng-data/sd_dict");
            assert(ESPEAK_NG_DATA_FILES@[293] == "espeak-ng-data/sd_dict");
        } else if i == 294 {
            reveal_strlit("espeak-ng-data/voices/!v/shelby");
            assert(ESPEAK_NG_DATA_FILES@[294] == "espeak-ng-data/voices/!v/shelby");
        } else if i == 295 {
            reveal_strlit("espeak-ng-data/lang/tai/shn");
            assert(ESPEAK_NG_DATA_FILES@[295] == "espeak-ng-data/lang/tai/shn");
        } else if i == 296 {
            reveal_strlit("espeak-ng-data/shn_dict");
            assert(ESPEAK_NG_DATA_FILES@[296] == "espeak-ng-data/shn_dict");
        } else if i == 297 {
            reveal_strlit("espeak-ng-data/lang/inc/si");
            assert(ESPEAK_NG_DATA_FILES@[297] == "espeak-ng-data/lang/inc/si");
        } else if i == 298 {
            reveal_strlit("espeak-ng-data/si_dict");
            assert(ESPEAK_NG_DATA_FILES@[298] == "espeak-ng-data/si_dict");
        } else if i == 299 {
            reveal_strlit("espeak-ng-data/lang/art/sjn");
            assert(ESPEAK_NG_DATA_FILES@[299] == "espeak-ng-data/lang/art/sjn");
        } else if i == 300 {
            reveal_strlit("espeak-ng-data/sjn_dict");
            assert(ESPEAK_NG_DATA_FILES@[300] == "espeak-ng-data/sjn_dict");
        } else if i == 301 {
            reveal_strlit("espeak-ng-data/lang/zlw/sk");
            assert(ESPEAK_NG_DATA_FILES@[301] == "espeak-ng-data/lang/zlw/sk");
        } else if i == 302 {
            reveal_strlit("espeak-ng-data/sk_dict");
            assert(ESPEAK_NG_DATA_FILES@[302] == "espeak-ng-data/sk_dict");
        } else if i == 303 {
            reveal_strlit("espeak-ng-data/lang/zls/sl");
            assert(ESPEAK_NG_DATA_FILES@[303] == "espeak-ng-data/lang/zls/sl");
        } else if i == 304 {
            reveal_strlit("espeak-ng-data/sl_dict");
            assert(ESPEAK_NG_DATA_FILES@[304] == "espeak-ng-data/sl_dict");
        } else if i == 305 {
            reveal_strlit("espeak-ng-data/lang/urj/smj");
            assert(ESPEAK_NG_DATA_FILES@[305] == "espeak-ng-data/lang/urj/smj");
        } else if i == 306 {
            reveal_strlit("espeak-ng-data/smj_dict");
            assert(ESPEAK_NG_DATA_FILES@[306] == "espeak-ng-data/smj_dict");
        } else if i == 307 {
            reveal_strlit("espeak-ng-data/lang/ine/sq");
            assert(ESPEAK_NG_DATA_FILES@[307] == "espeak-ng-data/lang/ine/sq");
        } else if i == 308 {
            reveal_strlit("espeak-ng-data/sq_dict");
            assert(ESPEAK_NG_DATA_FILES@[308] == "espeak-ng-data/sq_dict");
        } else if i == 309 {
            reveal_strlit("espeak-ng-data/lang/zls/sr");
            assert(ESPEAK_NG_DATA_FILES@[309] == "espeak-ng-data/lang/zls/sr");
        } else if i == 310 {
            reveal_strlit("espeak-ng-data/sr_dict");
            assert(ESPEAK_NG_DATA_FILES@[310] == "espeak-ng-data/sr_dict");
        } else if i == 311 {
            reveal_strlit("espeak-ng-data/voices/!v/steph");
            assert(ESPEAK_NG_DATA_FILES@[311] == "espeak-ng-data/voices/!v/steph");
        } else if i == 312 {
            reveal_strlit("espeak-ng-data/voices/!v/steph2");
            assert(ESPEAK_NG_DATA_FILES@[312] == "espeak-ng-data/voices/!v/steph2");
        } else if i == 313 {
            reveal_strlit("espeak-ng-data/voices/!v/steph3");
            assert(ESPEAK_NG_DATA_FILES@[313] == "espeak-ng-data/voices/!v/steph3");
        } else if i == 314 {
            reveal_strlit("espeak-ng-data/voices/!v/Storm");
            assert(ESPEAK_NG_DATA_FILES@[314] == "espeak-ng-data/voices/!v/Storm");
        } else if i == 315 {
            reveal_strlit("espeak-ng-data/lang/gmq/sv");
            assert(ESPEAK_NG_DATA_FILES@[315] == "espeak-ng-data/lang/gmq/sv");
        } else if i == 316 {
            reveal_strlit("espeak-ng-data/sv_dict");
            assert(ESPEAK_NG_DATA_FILES@[316] == "espeak-ng-data/sv_dict");
        } else if i == 317 {
            reveal_strlit("espeak-ng-data/lang/bnt/sw");
            assert(ESPEAK_NG_DATA_FILES@[317] == "espeak-ng-data/lang/bnt/sw");
        } else if i == 318 {
            reveal_strlit("espeak-ng-data/sw_dict");
            assert(ESPEAK_NG_DATA_FILES@[318] == "espeak-ng-data/sw_dict");
        } else if i == 319 {
            reveal_strlit("espeak-ng-data/lang/dra/ta");
            assert(ESPEAK_NG_DATA_FILES@[319] == "espeak-ng-data/lang/dra/ta");
        }
    }
}

/// A part of `ESPEAK_NG_DATA_FILES`, entry by entry: each is a safe relative path.
proof fn lemma_espeak_ng_data_files_safe_8()
    ensures
        forall|i: int| 320 <= i < 355 ==> is_safe_relative(#[trigger] ESPEAK_NG_DATA_FILES@[i]@),
{
    assert forall|i: int| 320 <= i < 355 implies is_safe_relative(#[trigger] ESPEAK_NG_DATA_FILES@[i]@) by {
        if i == 320 {
            reveal_strlit("espeak-ng-data/ta_dict");
            assert(ESPEAK_NG_DATA_FILES@[320] == "espeak-ng-data/ta_dict");
        } else if i == 321 {
            reveal_strlit("espeak-ng-data/lang/dra/te");
            assert(ESPEAK_NG_DATA_FILES@[321] == "espeak-ng-data/lang/dra/te");
        } else if i == 322 {
            reveal_strlit("espeak-ng-data/te_dict");
            assert(ESPEAK_NG_DATA_FILES@[322] == "espeak-ng-data/te_dict");
        } else if i == 323 {
            reveal_strlit("espeak-ng-data/lang/tai/th");
            assert(ESPEAK_NG_DATA_FILES@[323] == "espeak-ng-data/lang/tai/th");
        } else if i == 324 {
            reveal_strlit("espeak-ng-data/th_dict");
            assert(ESPEAK_NG_DATA_FILES@[324] == "espeak-ng-data/th_dict");
        } else if i == 325 {
            reveal_strlit("espeak-ng-data/lang/trk/tk");
            assert(ESPEAK_NG_DATA_FILES@[325] == "espeak-ng-data/lang/trk/tk");
        } else if i == 326 {
            reveal_strlit("espeak-ng-data/tk_dict");
            assert(ESPEAK_NG_DATA_FILES@[326] == "espeak-ng-data/tk_dict");
        } else if i == 327 {
            reveal_strlit("espeak-ng-data/lang/bnt/tn");
            assert(ESPEAK_NG_DATA_FILES@[327] == "espeak-ng-data/lang/bnt/tn");
        } else if i == 328 {
            reveal_strlit("espeak-ng-data/tn_dict");
            assert(ESPEAK_NG_DATA_FILES@[328] == "espeak-ng-data/tn_dict");
        } else if i == 329 {
            reveal_strlit("espeak-ng-data/lang/trk/tr");
            assert(ESPEAK_NG_DATA_FILES@[329] == "espeak-ng-data/lang/trk/tr");
        } else if i == 330 {
            reveal_strlit("espeak-ng-data/tr_dict");
            assert(ESPEAK_NG_DATA_FILES@[330] == "espeak-ng-data/tr_dict");
        } else if i == 331 {
            reveal_strlit("espeak-ng-data/voices/!v/travis");
            assert(ESPEAK_NG_DATA_FILES@[331] == "espeak-ng-data/voices/!v/travis");
        } else if i == 332 {
            reveal_strlit("espeak-ng-data/lang/trk/tt");
            assert(ESPEAK_NG_DATA_FILES@[332] == "espeak-ng-data/lang/trk/tt");
        } else if i == 333 {
            reveal_strlit("espeak-ng-data/tt_dict");
            assert(ESPEAK_NG_DATA_FILES@[333] == "espeak-ng-data/tt_dict");
        } else if i == 334 {
            reveal_strlit("espeak-ng-data/voices/!v/Tweaky");
            assert(ESPEAK_NG_DATA_FILES@[334] == "espeak-ng-data/voices/!v/Tweaky");
        } else if i == 335 {
            reveal_strlit("espeak-ng-data/lang/trk/ug");
            assert(ESPEAK_NG_DATA_FILES@[335] == "espeak-ng-data/lang/trk/ug");
        } else if i == 336 {
            reveal_strlit("espeak-ng-data/ug_dict");
            assert(ESPEAK_NG_DATA_FILES@[336] == "espeak-ng-data/ug_dict");
        } else if i == 337 {
            reveal_strlit("espeak-ng-data/lang/zle/uk");
            assert(ESPEAK_NG_DATA_FILES@[337] == "espeak-ng-data/lang/zle/uk");
        } else if i == 338 {
            reveal_strlit("espeak-ng-data/uk_dict");
            assert(ESPEAK_NG_DATA_FILES@[338] == "espeak-ng-data/uk_dict");
        } else if i == 339 {
            reveal_strlit("espeak-ng-data/voices/!v/UniRobot");
            assert(ESPEAK_NG_DATA_FILES@[339] == "espeak-ng-data/voices/!v/UniRobot");
        } else if i == 340 {
            reveal_strlit("espeak-ng-data/lang/inc/ur");
            assert(ESPEAK_NG_DATA_FILES@[340] == "espeak-ng-data/lang/inc/ur");
        } else if i == 341 {
            reveal_strlit("espeak-ng-data/ur_dict");
            assert(ESPEAK_NG_DATA_FILES@[341] == "espeak-ng-data/ur_dict");
        } else if i == 342 {
            reveal_strlit("espeak-ng-data/lang/trk/uz");
            assert(ESPEAK_NG_DATA_FILES@[342] == "espeak-ng-data/lang/trk/uz");
        } else if i == 343 {
            reveal_strlit("espeak-ng-data/uz_dict");
            assert(ESPEAK_NG_DATA_FILES@[343] == "espeak-ng-data/uz_dict");
        } else if i == 344 {
            reveal_strlit("espeak-ng-data/lang/aav/vi");
            assert(ESPEAK_NG_DATA_FILES@[344] == "espeak-ng-data/lang/aav/vi");
        } else if i == 345 {
            reveal_strlit("espeak-ng-data/lang/aav/vi-VN-x-central");
            assert(ESPEAK_NG_DATA_FILES@[345] == "espeak-ng-data/lang/aav/vi-VN-x-central");
        } else if i == 346 {
            reveal_strlit("espeak-ng-data/lang/aav/vi-VN-x-south");
            assert(ESPEAK_NG_DATA_FILES@[346] == "espeak-ng-data/lang/aav/vi-VN-x-south");
        } else if i == 347 {
            reveal_strlit("espeak-ng-data/vi_dict");
            assert(ESPEAK_NG_DATA_FILES@[347] == "espeak-ng-data/vi_dict");
        } else if i == 348 {
            reveal_strlit("espeak-ng-data/voices/!v/victor");
            assert(ESPEAK_NG_DATA_FILES@[348] == "espeak-ng-data/voices/!v/victor");
        } else if i == 349 {
            reveal_strlit("espeak-ng-data/voices/!v/whisper");
            assert(ESPEAK_NG_DATA_FILES@[349] == "espeak-ng-data/voices/!v/whisper");
        } else if i == 350 {
            reveal_strlit("espeak-ng-data/voices/!v/whisperf");
            assert(ESPEAK_NG_DATA_FILES@[350] == "espeak-ng-data/voices/!v/whisperf");
        } else if i == 351 {
            reveal_strlit("espeak-ng-data/lang/sit/yue");
            assert(ESPEAK_NG_DATA_FILES@[351] == "espeak-ng-data/lang/sit/yue");
        } else if i == 352 {
            reveal_strlit("espeak-ng-data/lang/sit/yue-Latn-jyutping");
            assert(ESPEAK_NG_DATA_FILES@[352] == "espeak-ng-data/lang/sit/yue-Latn-jyutping");
        } else if i == 353 {
            reveal_strlit("espeak-ng-data/yue_dict");
            assert(ESPEAK_NG_DATA_FILES@[353] == "espeak-ng-data/yue_dict");
        } else if i == 354 {
            reveal_strlit("espeak-ng-data/voices/!v/zac");
            assert(ESPEAK_NG_DATA_FILES@[354] == "espeak-ng-data/voices/!v/zac");
        }
    }
}

/// Every entry of `ESPEAK_NG_DATA_FILES` is a safe relative path.
proof fn lemma_espeak_ng_data_files_safe()
    ensures
        forall|i: int| 0 <= i < ESPEAK_NG_DATA_FILES@.len() ==> is_safe_relative(#[trigger] ESPEAK_NG_DATA_FILES@[i]@),
{
    lemma_espeak_ng_data_files_safe_0();
    lemma_espeak_ng_data_files_safe_1();
    lemma_espeak_ng_data_files_safe_2();
    lemma_espeak_ng_data_files_safe_3();
    lemma_espeak_ng_data_files_safe_4();
    lemma_espeak_ng_data_files_safe_5();
    lemma_espeak_ng_data_files_safe_6();
    lemma_espeak_ng_data_files_safe_7();
    lemma_espeak_ng_data_files_safe_8();
}

/// A part of `MATCHA_ZH_EN_NON_ESPEAK_FILES`, entry by entry: each is a safe relative path.
proof fn lemma_matcha_zh_en_non_espeak_files_safe_0()
    ensures
        forall|i: int| 0 <= i < 11 ==> is_safe_relative(#[trigger] MATCHA_ZH_EN_NON_ESPEAK_FILES@[i]@),
{
    assert forall|i: int| 0 <= i < 11 implies is_safe_relative(#[trigger] MATCHA_ZH_EN_NON_ESPEAK_FILES@[i]@) by {
        if i == 0 {
            reveal_strlit(".gitattributes");
            assert(MATCHA_ZH_EN_NON_ESPEAK_FILES@[0] == ".gitattributes");
        } else if i == 1 {
            reveal_strlit("README.md");
            assert(MATCHA_ZH_EN_NON_ESPEAK_FILES@[1] == "README.md");
        } else if i == 2 {
            reveal_strlit("configuration.json");
            assert(MATCHA_ZH_EN_NON_ESPEAK_FILES@[2] == "configuration.json");
        } else if i == 3 {
            reveal_strlit("lexicon.txt");
            assert(MATCHA_ZH_EN_NON_ESPEAK_FILES@[3] == "lexicon.txt");
        } else if i == 4 {
            reveal_strlit("model-steps-6.onnx");
            assert(MATCHA_ZH_EN_NON_ESPEAK_FILES@[4] == "model-steps-6.onnx");
        } else if i == 5 {
            reveal_strlit("pytorch_model.bin");
            assert(MATCHA_ZH_EN_NON_ESPEAK_FILES@[5] == "pytorch_model.bin");
        } else if i == 6 {
            reveal_strlit("pytorch_model_sherpa.bin");
            assert(MATCHA_ZH_EN_NON_ESPEAK_FILES@[6] == "pytorch_model_sherpa.bin");
        } else if i == 7 {
            reveal_strlit("test_sherpa_onnx.py");
            assert(MATCHA_ZH_EN_NON_ESPEAK_FILES@[7] == "test_sherpa_onnx.py");
        } else if i == 8 {
            reveal_strlit("tokens.txt");
            assert(MATCHA_ZH_EN_NON_ESPEAK_FILES@[8] == "tokens.txt");
        } else if i == 9 {
            reveal_strlit("vocab_tts.txt");
            assert(MATCHA_ZH_EN_NON_ESPEAK_FILES@[9] == "vocab_tts.txt");
        } else if i == 10 {
            reveal_strlit("vocos-16khz-univ.onnx");
            assert(MATCHA_ZH_EN_NON_ESPEAK_FILES@[10] == "vocos-16khz-univ.onnx");
        }
    }
}

/// Every entry of `MATCHA_ZH_EN_NON_ESPEAK_FILES` is a safe relative path.
proof fn lemma_matcha_zh_en_non_espeak_files_safe()
    ensures
        forall|i: int| 0 <= i < MATCHA_ZH_EN_NON_ESPEAK_FILES@.len() ==> is_safe_relative(#[trigger] MATCHA_ZH_EN_NON_ESPEAK_FILES@[i]@),
{
    lemma_matcha_zh_en_non_espeak_files_safe_0();
}

/// A part of `KOKORO_NON_ESPEAK_FILES`, entry by entry: each is a safe relative path.
proof fn lemma_kokoro_non_espeak_files_safe_0()
    ensures
        forall|i: int| 0 <= i < 22 ==> is_safe_relative(#[trigger] KOKORO_NON_ESPEAK_FILES@[i]@),
{
    assert forall|i: int| 0 <= i < 22 implies is_safe_relative(#[trigger] KOKORO_NON_ESPEAK_FILES@[i]@) by {
        if i == 0 {
            reveal_strlit("LICENSE");
            assert(KOKORO_NON_ESPEAK_FILES@[0] == "LICENSE");
        } else if i == 1 {
            reveal_strlit("README.md");
            assert(KOKORO_NON_ESPEAK_FILES@[1] == "README.md");
        } else if i == 2 {
            reveal_strlit("date-zh.fst");
            assert(KOKORO_NON_ESPEAK_FILES@[2] == "date-zh.fst");
        } else if i == 3 {
            reveal_strlit("dict/README.md");
            assert(KOKORO_NON_ESPEAK_FILES@[3] == "dict/README.md");
        } else if i == 4 {
            reveal_strlit("dict/generate_user_dict.py");
            assert(KOKORO_NON_ESPEAK_FILES@[4] == "dict/generate_user_dict.py");
        } else if i == 5 {
            reveal_strlit("dict/hmm_model.utf8");
            assert(KOKORO_NON_ESPEAK_FILES@[5] == "dict/hmm_model.utf8");
        } else if i == 6 {
            reveal_strlit("dict/idf.utf8");
            assert(KOKORO_NON_ESPEAK_FILES@[6] == "dict/idf.utf8");
        } else if i == 7 {
            reveal_strlit("dict/jieba.dict.utf8");
            assert(KOKORO_NON_ESPEAK_FILES@[7] == "dict/jieba.dict.utf8");
        } else if i == 8 {
            reveal_strlit("dict/pos_dict/char_state_tab.utf8");
            assert(KOKORO_NON_ESPEAK_FILES@[8] == "dict/pos_dict/char_state_tab.utf8");
        } else if i == 9 {
            reveal_strlit("dict/pos_dict/prob_emit.utf8");
            assert(KOKORO_NON_ESPEAK_FILES@[9] == "dict/pos_dict/prob_emit.utf8");
        } else if i == 10 {
            reveal_strlit("dict/pos_dict/prob_start.utf8");
            assert(KOKORO_NON_ESPEAK_FILES@[10] == "dict/pos_dict/prob_start.utf8");
        } else if i == 11 {
            reveal_strlit("dict/pos_dict/prob_trans.utf8");
            assert(KOKORO_NON_ESPEAK_FILES@[11] == "dict/pos_dict/prob_trans.utf8");
        } else if i == 12 {
            reveal_strlit("dict/stop_words.utf8");
            assert(KOKORO_NON_ESPEAK_FILES@[12] == "dict/stop_words.utf8");
        } else if i == 13 {
            reveal_strlit("dict/user.dict.utf8");
            assert(KOKORO_NON_ESPEAK_FILES@[13] == "dict/user.dict.utf8");
        } else if i == 14 {
            reveal_strlit("lexicon-gb-en.txt");
            assert(KOKORO_NON_ESPEAK_FILES@[14] == "lexicon-gb-en.txt");
        } else if i == 15 {
            reveal_strlit("lexicon-us-en.txt");
            assert(KOKORO_NON_ESPEAK_FILES@[15] == "lexicon-us-en.txt");
        } else if i == 16 {
            reveal_strlit("lexicon-zh.txt");
            assert(KOKORO_NON_ESPEAK_FILES@[16] == "lexicon-zh.txt");
        } else if i == 17 {
            reveal_strlit("model.int8.onnx");
            assert(KOKORO_NON_ESPEAK_FILES@[17] == "model.int8.onnx");
        } else if i == 18 {
            reveal_strlit("number-zh.fst");
            assert(KOKORO_NON_ESPEAK_FILES@[18] == "number-zh.fst");
        } else if i == 19 {
            reveal_strlit("phone-zh.fst");
            assert(KOKORO_NON_ESPEAK_FILES@[19] == "phone-zh.fst");
        } else if i == 20 {
            reveal_strlit("tokens.txt");
            assert(KOKORO_NON_ESPEAK_FILES@[20] == "tokens.txt");
        } else if i == 21 {
            reveal_strlit("voices.bin");
            assert(KOKORO_NON_ESPEAK_FILES@[21] == "voices.bin");
        }
    }
}

/// Every entry of `KOKORO_NON_ESPEAK_FILES` is a safe relative path.
proof fn lemma_kokoro_non_espeak_files_safe()
    ensures
        forall|i: int| 0 <= i < KOKORO_NON_ESPEAK_FILES@.len() ==> is_safe_relative(#[trigger] KOKORO_NON_ESPEAK_FILES@[i]@),
{
    lemma_kokoro_non_espeak_files_safe_0();
}

/// A part of `ZIPVOICE_NON_ESPEAK_FILES`, entry by entry: each is a safe relative path.
proof fn lemma_zipvoice_non_espeak_files_safe_0()
    ensures
        forall|i: int| 0 <= i < 9 ==> is_safe_relative(#[trigger] ZIPVOICE_NON_ESPEAK_FILES@[i]@),
{
    assert forall|i: int| 0 <= i < 9 implies is_safe_relative(#[trigger] ZIPVOICE_NON_ESPEAK_FILES@[i]@) by {
        if i == 0 {
            reveal_strlit("1.wav");
            assert(ZIPVOICE_NON_ESPEAK_FILES@[0] == "1.wav");
        } else if i == 1 {
            reveal_strlit("fm_decoder.onnx");
            assert(ZIPVOICE_NON_ESPEAK_FILES@[1] == "fm_decoder.onnx");
        } else if i == 2 {
            reveal_strlit("fm_decoder_int8.onnx");
            assert(ZIPVOICE_NON_ESPEAK_FILES@[2] == "fm_decoder_int8.onnx");
        } else if i == 3 {
            reveal_strlit("pinyin.raw");
            assert(ZIPVOICE_NON_ESPEAK_FILES@[3] == "pinyin.raw");
        } else if i == 4 {
            reveal_strlit("prompt.wav");
            assert(ZIPVOICE_NON_ESPEAK_FILES@[4] == "prompt.wav");
        } else if i == 5 {
            reveal_strlit("text_encoder.onnx");
            assert(ZIPVOICE_NON_ESPEAK_FILES@[5] == "text_encoder.onnx");
        } else if i == 6 {
            reveal_strlit("text_encoder_int8.onnx");
            assert(ZIPVOICE_NON_ESPEAK_FILES@[6] == "text_encoder_int8.onnx");
        } else if i == 7 {
            reveal_strlit("tokens.txt");
            assert(ZIPVOICE_NON_ESPEAK_FILES@[7] == "tokens.txt");
        } else if i == 8 {
            reveal_strlit("vocos_24khz.onnx");
            assert(ZIPVOICE_NON_ESPEAK_FILES@[8] == "vocos_24khz.onnx");
        }
    }
}

/// Every entry of `ZIPVOICE_NON_ESPEAK_FILES` is a safe relative path.
proof fn lemma_zipvoice_non_espeak_files_safe()
    ensures
        forall|i: int| 0 <= i < ZIPVOICE_NON_ESPEAK_FILES@.len() ==> is_safe_relative(#[trigger] ZIPVOICE_NON_ESPEAK_FILES@[i]@),
{
    lemma_zipvoice_non_espeak_files_safe_0();
}

/// A part of `MATCHA_ZH_BAKER_FILES`, entry by entry: each is a safe relative path.
proof fn lemma_matcha_zh_baker_files_safe_0()
    ensures
        forall|i: int| 0 <= i < 19 ==> is_safe_relative(#[trigger] MATCHA_ZH_BAKER_FILES@[i]@),
{
    assert forall|i: int| 0 <= i < 19 implies is_safe_relative(#[trigger] MATCHA_ZH_BAKER_FILES@[i]@) by {
        if i == 0 {
            reveal_strlit("README.md");
            assert(MATCHA_ZH_BAKER_FILES@[0] == "README.md");
        } else if i == 1 {
            reveal_strlit("date.fst");
            assert(MATCHA_ZH_BAKER_FILES@[1] == "date.fst");
        } else if i == 2 {
            reveal_strlit("dict/README.md");
            assert(MATCHA_ZH_BAKER_FILES@[2] == "dict/README.md");
        } else if i == 3 {
            reveal_strlit("dict/generate_user_dict.py");
            assert(MATCHA_ZH_BAKER_FILES@[3] == "dict/generate_user_dict.py");
        } else if i == 4 {
            reveal_strlit("dict/hmm_model.utf8");
            assert(MATCHA_ZH_BAKER_FILES@[4] == "dict/hmm_model.utf8");
        } else if i == 5 {
            reveal_strlit("dict/idf.utf8");
            assert(MATCHA_ZH_BAKER_FILES@[5] == "dict/idf.utf8");
        } else if i == 6 {
            reveal_strlit("dict/jieba.dict.utf8");
            assert(MATCHA_ZH_BAKER_FILES@[6] == "dict/jieba.dict.utf8");
        } else if i == 7 {
            reveal_strlit("dict/pos_dict/char_state_tab.utf8");
            assert(MATCHA_ZH_BAKER_FILES@[7] == "dict/pos_dict/char_state_tab.utf8");
        } else if i == 8 {
            reveal_strlit("dict/pos_dict/prob_emit.utf8");
            assert(MATCHA_ZH_BAKER_FILES@[8] == "dict/pos_dict/prob_emit.utf8");
        } else if i == 9 {
            reveal_strlit("dict/pos_dict/prob_start.utf8");
            assert(MATCHA_ZH_BAKER_FILES@[9] == "dict/pos_dict/prob_start.utf8");
        } else if i == 10 {
            reveal_strlit("dict/pos_dict/prob_trans.utf8");
            assert(MATCHA_ZH_BAKER_FILES@[10] == "dict/pos_dict/prob_trans.utf8");
        } else if i == 11 {
            reveal_strlit("dict/stop_words.utf8");
            assert(MATCHA_ZH_BAKER_FILES@[11] == "dict/stop_words.utf8");
        } else if i == 12 {
            reveal_strlit("dict/user.dict.utf8");
            assert(MATCHA_ZH_BAKER_FILES@[12] == "dict/user.dict.utf8");
        } else if i == 13 {
            reveal_strlit("lexicon.txt");
            assert(MATCHA_ZH_BAKER_FILES@[13] == "lexicon.txt");
        } else if i == 14 {
            reveal_strlit("model-steps-3.onnx");
            assert(MATCHA_ZH_BAKER_FILES@[14] == "model-steps-3.onnx");
        } else if i == 15 {
            reveal_strlit("number.fst");
            assert(MATCHA_ZH_BAKER_FILES@[15] == "number.fst");
        } else if i == 16 {
            reveal_strlit("phone.fst");
            assert(MATCHA_ZH_BAKER_FILES@[16] == "phone.fst");
        } else if i == 17 {
            reveal_strlit("tokens.txt");
            assert(MATCHA_ZH_BAKER_FILES@[17] == "tokens.txt");
        } else if i == 18 {
            reveal_strlit("vocos-22khz-univ.onnx");
            assert(MATCHA_ZH_BAKER_FILES@[18] == "vocos-22khz-univ.onnx");
        }
    }
}

/// Every entry of `MATCHA_ZH_BAKER_FILES` is a safe relative path.
proof fn lemma_matcha_zh_baker_files_safe()
    ensures
        forall|i: int| 0 <= i < MATCHA_ZH_BAKER_FILES@.len() ==> is_safe_relative(#[trigger] MATCHA_ZH_BAKER_FILES@[i]@),
{
    lemma_matcha_zh_baker_files_safe_0();
}


/// Every entry of `a + b` is a safe relative path when every entry of each is.
proof fn lemma_concat_safe(a: Seq<&'static str>, b: Seq<&'static str>)
    requires
        forall|i: int| 0 <= i < a.len() ==> is_safe_relative(#[trigger] a[i]@),
        forall|i: int| 0 <= i < b.len() ==> is_safe_relative(#[trigger] b[i]@),
    ensures
        forall|i: int| 0 <= i < (a + b).len() ==> is_safe_relative(#[trigger] (a + b)[i]@),
{
    assert forall|i: int| 0 <= i < (a + b).len() implies is_safe_relative(#[trigger] (a + b)[i]@) by {
        if i < a.len() {
            assert((a + b)[i] == a[i]);
        } else {
            assert((a + b)[i] == b[i - a.len()]);
        }
    }
}

/// Every catalog entry that is mirrored on ModelScope has a built-in file
/// list, which is not empty, and each file in it is a relative path that
/// stays inside the mirror directory: it does not start with `/` and has
/// no `..` component.
pub proof fn law_mirror_lists_stay_inside(i: int)
    requires
        0 <= i < catalog_view().len(),
        catalog_view()[i].modelscope_dir is Some,
    ensures
        static_subdir_files_spec(catalog_view()[i].id) matches Some(l) && l.len() > 0 && forall|k: int|
            0 <= k < l.len() ==> is_safe_relative(#[trigger] l[k]@),
{
    reveal_strlit("sherpa-matcha-zh");
    reveal_strlit("sherpa-matcha-zh-en");
    reveal_strlit("sherpa-kokoro-multi-lang");
    reveal_strlit("sherpa-zipvoice-zh-en");
    lemma_espeak_ng_data_files_safe();
    lemma_matcha_zh_en_non_espeak_files_safe();
    lemma_kokoro_non_espeak_files_safe();
    lemma_zipvoice_non_espeak_files_safe();
    lemma_matcha_zh_baker_files_safe();
    lemma_concat_safe(ESPEAK_NG_DATA_FILES@, MATCHA_ZH_EN_NON_ESPEAK_FILES@);
    lemma_concat_safe(ESPEAK_NG_DATA_FILES@, KOKORO_NON_ESPEAK_FILES@);
    lemma_concat_safe(ESPEAK_NG_DATA_FILES@, ZIPVOICE_NON_ESPEAK_FILES@);
    assert(4 <= i < 8);
}

} // verus!
