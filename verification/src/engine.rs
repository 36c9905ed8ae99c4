//! The built-in IndexTTS2 engine: the files it needs before Python is
//! started, and how missing ones are reported.

use vstd::prelude::*;

use crate::path::{join, join_spec};
use crate::registry::opt_view;
use crate::text::{owned, trim, trimmed, u64_to_string, decimal};

verus! {

/// What one requirement asks of the disk.
#[derive(Debug, Clone, Copy, PartialEq, Eq, Structural)]
pub enum RequirementKind {
    /// A file that is not empty.
    File,
    /// A directory with at least one entry.
    Dir,
    /// Something the configuration lacks; reported as it is.
    Missing,
}

/// A requirement: a path to check, or a message for what is missing.
#[derive(Debug, Clone)]
pub struct Requirement {
    pub kind: RequirementKind,
    pub text: String,
}

/// The fields of the engine's `config.yaml` that name further files.
#[derive(Debug, Clone)]
pub struct EngineConfigFields {
    pub gpt_checkpoint: Option<String>,
    pub w2v_stat: Option<String>,
    pub s2mel_checkpoint: Option<String>,
    pub emo_matrix: Option<String>,
    pub spk_matrix: Option<String>,
    /// `dataset.bpe_model`.
    pub bpe_model: Option<String>,
    pub qwen_emo_path: Option<String>,
}

pub open spec fn req_views(v: Seq<Requirement>) -> Seq<(RequirementKind, Seq<char>)> {
    v.map_values(|r: Requirement| (r.kind, r.text@))
}

pub open spec fn site_packages_torch(runtime: Seq<char>) -> Seq<char> {
    join_spec(join_spec(join_spec(runtime, "Lib"@), "site-packages"@), "torch"@)
}

pub open spec fn runtime_reqs(runtime: Seq<char>) -> Seq<(RequirementKind, Seq<char>)> {
    seq![
        (RequirementKind::File, join_spec(runtime, "python310.dll"@)),
        (RequirementKind::File, join_spec(runtime, "python310.zip"@)),
        (RequirementKind::File, join_spec(site_packages_torch(runtime), "__init__.py"@)),
        (RequirementKind::Dir, join_spec(site_packages_torch(runtime), "lib"@)),
    ]
}

pub open spec fn checkpoints_dir(data: Seq<char>) -> Seq<char> {
    join_spec(data, "checkpoints"@)
}

pub open spec fn config_path_spec(data: Seq<char>) -> Seq<char> {
    join_spec(checkpoints_dir(data), "config.yaml"@)
}

/// A configuration field: the (trimmed) path it names under the
/// checkpoints, or a message saying it is missing.
pub open spec fn field_req(
    checkpoints: Seq<char>,
    config: Seq<char>,
    key: Seq<char>,
    value: Option<Seq<char>>,
    kind: RequirementKind,
) -> (RequirementKind, Seq<char>) {
    match value {
        Some(v) => (kind, join_spec(checkpoints, trim(v))),
        None => (RequirementKind::Missing, config + " 中缺少字段 "@ + key),
    }
}

/// What the configuration adds: nothing when it cannot be read; a message
/// when it is not YAML; otherwise one requirement per field, in order.
pub open spec fn config_reqs(data: Seq<char>, config: Option<Option<EngineConfigFields>>) -> Seq<
    (RequirementKind, Seq<char>),
> {
    let c = checkpoints_dir(data);
    let p = config_path_spec(data);
    match config {
        None => seq![],
        Some(None) => seq![(RequirementKind::Missing, p + " 不是有效 YAML"@)],
        Some(Some(f)) => seq![
            field_req(c, p, "gpt_checkpoint"@, opt_view(f.gpt_checkpoint), RequirementKind::File),
            field_req(c, p, "w2v_stat"@, opt_view(f.w2v_stat), RequirementKind::File),
            field_req(c, p, "s2mel_checkpoint"@, opt_view(f.s2mel_checkpoint), RequirementKind::File),
            field_req(c, p, "emo_matrix"@, opt_view(f.emo_matrix), RequirementKind::File),
            field_req(c, p, "spk_matrix"@, opt_view(f.spk_matrix), RequirementKind::File),
            field_req(c, p, "dataset.bpe_model"@, opt_view(f.bpe_model), RequirementKind::File),
            field_req(c, p, "qwen_emo_path"@, opt_view(f.qwen_emo_path), RequirementKind::Dir),
        ],
    }
}

pub open spec fn hf_cache_dir(data: Seq<char>) -> Seq<char> {
    join_spec(checkpoints_dir(data), "hf_cache"@)
}

pub open spec fn hf_reqs(data: Seq<char>) -> Seq<(RequirementKind, Seq<char>)> {
    let h = hf_cache_dir(data);
    seq![
        (RequirementKind::File, join_spec(h, "semantic_codec_model.safetensors"@)),
        (RequirementKind::File, join_spec(h, "campplus_cn_common.bin"@)),
        (RequirementKind::File, join_spec(join_spec(h, "bigvgan"@), "config.json"@)),
        (RequirementKind::File, join_spec(join_spec(h, "bigvgan"@), "bigvgan_generator.pt"@)),
        (RequirementKind::Dir, join_spec(h, "w2v-bert-2.0"@)),
    ]
}

/// Everything the engine needs, in the order it is checked and reported:
/// the Python runtime, the configuration file and what it names (when it
/// can be read: `config` is `None` then, and `Some(None)` when it is not
/// YAML), and the model cache.
pub open spec fn engine_requirements_spec(
    runtime: Seq<char>,
    data: Seq<char>,
    config: Option<Option<EngineConfigFields>>,
) -> Seq<(RequirementKind, Seq<char>)> {
    runtime_reqs(runtime) + seq![(RequirementKind::File, config_path_spec(data))] + config_reqs(
        data,
        config,
    ) + hf_reqs(data)
}

fn push_req(v: &mut Vec<Requirement>, kind: RequirementKind, text: String)
    ensures
        req_views(final(v)@) == req_views(old(v)@).push((kind, text@)),
{
    let ghost before = v@;
    let r = Requirement { kind, text };
    v.push(r);
    assert(v@ == before.push(r));
    assert(req_views(v@) =~= req_views(before).push((kind, text@)));
}

fn push_field(
    v: &mut Vec<Requirement>,
    checkpoints: &str,
    config: &str,
    key: &str,
    value: &Option<String>,
    kind: RequirementKind,
)
    ensures
        req_views(final(v)@) == req_views(old(v)@).push(
            field_req(checkpoints@, config@, key@, opt_view(*value), kind),
        ),
{
    match value {
        Some(rel) => {
            let t = trimmed(rel.as_str());
            push_req(v, kind, join(checkpoints, t.as_str()));
        },
        None => {
            let mut m = owned(config);
            m.append(" 中缺少字段 ");
            m.append(key);
            push_req(v, RequirementKind::Missing, m);
        },
    }
}

pub fn engine_requirements(
    runtime: &str,
    data: &str,
    config: &Option<Option<EngineConfigFields>>,
) -> (r: Vec<Requirement>)
    ensures
        req_views(r@) == engine_requirements_spec(runtime@, data@, *config),
{
    let mut v: Vec<Requirement> = Vec::new();
    let lib = join(runtime, "Lib");
    let sp = join(lib.as_str(), "site-packages");
    let torch = join(sp.as_str(), "torch");
    push_req(&mut v, RequirementKind::File, join(runtime, "python310.dll"));
    push_req(&mut v, RequirementKind::File, join(runtime, "python310.zip"));
    push_req(&mut v, RequirementKind::File, join(torch.as_str(), "__init__.py"));
    push_req(&mut v, RequirementKind::Dir, join(torch.as_str(), "lib"));
    assert(req_views(v@) =~= runtime_reqs(runtime@));
    let checkpoints = join(data, "checkpoints");
    let config_path = join(checkpoints.as_str(), "config.yaml");
    push_req(&mut v, RequirementKind::File, config_path.clone());
    let ghost head = req_views(v@);
    match config {
        None => {},
        Some(None) => {
            let mut m = config_path.clone();
            m.append(" 不是有效 YAML");
            push_req(&mut v, RequirementKind::Missing, m);
        },
        Some(Some(f)) => {
            let c = checkpoints.as_str();
            let p = config_path.as_str();
            push_field(&mut v, c, p, "gpt_checkpoint", &f.gpt_checkpoint, RequirementKind::File);
            push_field(&mut v, c, p, "w2v_stat", &f.w2v_stat, RequirementKind::File);
            push_field(&mut v, c, p, "s2mel_checkpoint", &f.s2mel_checkpoint, RequirementKind::File);
            push_field(&mut v, c, p, "emo_matrix", &f.emo_matrix, RequirementKind::File);
            push_field(&mut v, c, p, "spk_matrix", &f.spk_matrix, RequirementKind::File);
            push_field(&mut v, c, p, "dataset.bpe_model", &f.bpe_model, RequirementKind::File);
            push_field(&mut v, c, p, "qwen_emo_path", &f.qwen_emo_path, RequirementKind::Dir);
        },
    }
    assert(req_views(v@) =~= head + config_reqs(data@, *config));
    let ghost mid = req_views(v@);
    let hf = join(checkpoints.as_str(), "hf_cache");
    let bigvgan = join(hf.as_str(), "bigvgan");
    push_req(&mut v, RequirementKind::File, join(hf.as_str(), "semantic_codec_model.safetensors"));
    push_req(&mut v, RequirementKind::File, join(hf.as_str(), "campplus_cn_common.bin"));
    push_req(&mut v, RequirementKind::File, join(bigvgan.as_str(), "config.json"));
    push_req(&mut v, RequirementKind::File, join(bigvgan.as_str(), "bigvgan_generator.pt"));
    push_req(&mut v, RequirementKind::Dir, join(hf.as_str(), "w2v-bert-2.0"));
    assert(req_views(v@) =~= mid + hf_reqs(data@));
    v
}

/// `parts` joined with `\n` between them.
pub open spec fn lines_spec(parts: Seq<Seq<char>>) -> Seq<char>
    decreases parts.len(),
{
    if parts.len() == 0 {
        seq![]
    } else if parts.len() == 1 {
        parts[0]
    } else {
        lines_spec(parts.drop_last()) + "\n"@ + parts.last()
    }
}

pub open spec fn texts(v: Seq<String>) -> Seq<Seq<char>> {
    v.map_values(|s: String| s@)
}

/// The verdict on what was found missing: fine when nothing was, else one
/// error listing how many and which.
pub fn missing_report(missing: &[String]) -> (r: Result<(), String>)
    ensures
        missing@.len() == 0 ==> r is Ok,
        missing@.len() > 0 ==> (r matches Err(e) && e@ == "内置 IndexTTS2 资源不完整，共缺失 "@
            + decimal(missing@.len()) + " 项:\n"@ + lines_spec(texts(missing@))),
{
    if missing.len() == 0 {
        return Ok(());
    }
    let mut body = missing[0].clone();
    let mut i: usize = 1;
    assert(texts(missing@).take(1) =~= seq![missing@[0]@]);
    while i < missing.len()
        invariant
            1 <= i <= missing@.len(),
            body@ == lines_spec(texts(missing@).take(i as int)),
        decreases missing.len() - i,
    {
        body.append("\n");
        body.append(missing[i].as_str());
        assert(texts(missing@).take(i + 1).drop_last() =~= texts(missing@).take(i as int));
        i += 1;
    }
    assert(texts(missing@).take(missing@.len() as int) =~= texts(missing@));
    let count = u64_to_string(missing.len() as u64);
    let mut m = owned("内置 IndexTTS2 资源不完整，共缺失 ");
    m.append(count.as_str());
    m.append(" 项:\n");
    m.append(body.as_str());
    Err(m)
}

/// One step of the 64-bit FNV-1a hash: the byte is mixed in, then the
/// hash is multiplied by the FNV prime, wrapping.
pub open spec fn fnv1a_step(hash: u64, byte: u8) -> u64 {
    (((hash ^ (byte as u64)) as int * 0x100000001b3) % 0x1_0000_0000_0000_0000) as u64
}

/// The hash after each byte in turn is mixed in.
pub open spec fn fnv1a_spec(hash: u64, bytes: Seq<u8>) -> u64
    decreases bytes.len(),
{
    if bytes.len() == 0 {
        hash
    } else {
        fnv1a_step(fnv1a_spec(hash, bytes.drop_last()), bytes.last())
    }
}

/// The FNV-1a offset basis, where a hash starts.
pub const FNV_OFFSET_BASIS: u64 = 0xcbf29ce484222325;

/// Mixes `bytes` into `hash` (64-bit FNV-1a); the bundled engine's version
/// stamp is this hash over its sources.
pub fn fnv1a_update(hash: u64, bytes: &[u8]) -> (r: u64)
    ensures
        r == fnv1a_spec(hash, bytes@),
{
    let mut h = hash;
    let mut i: usize = 0;
    while i < bytes.len()
        invariant
            i <= bytes@.len(),
            h == fnv1a_spec(hash, bytes@.take(i as int)),
        decreases bytes.len() - i,
    {
        assert(bytes@.take(i + 1).drop_last() =~= bytes@.take(i as int));
        assert(bytes@.take(i + 1).last() == bytes@[i as int]);
        let x = h ^ (bytes[i] as u64);
        h = x.wrapping_mul(0x100000001b3);
        i += 1;
    }
    assert(bytes@.take(bytes.len() as int) =~= bytes@);
    h
}

/// Hashing two pieces one after the other is hashing them joined.
pub proof fn law_fnv1a_concat(hash: u64, a: Seq<u8>, b: Seq<u8>)
    ensures
        fnv1a_spec(fnv1a_spec(hash, a), b) == fnv1a_spec(hash, a + b),
    decreases b.len(),
{
    if b.len() == 0 {
        assert(a + b =~= a);
    } else {
        law_fnv1a_concat(hash, a, b.drop_last());
        assert((a + b).drop_last() =~= a + b.drop_last());
        assert((a + b).last() == b.last());
    }
}

/// The lowercase hexadecimal digit of `d` (below sixteen).
pub open spec fn hex_digit(d: int) -> char {
    if d < 10 {
        ((d + 48) as u8) as char
    } else {
        ((d + 87) as u8) as char
    }
}

/// The `i`-th of the sixteen hexadecimal digits of `v`, from the most
/// significant.
pub open spec fn hex_nibble(v: u64, i: int) -> u64 {
    (v >> ((4 * (15 - i)) as u64)) & 15
}

/// `v` as sixteen lowercase hexadecimal digits, zero-padded.
pub open spec fn hex16(v: u64) -> Seq<char> {
    Seq::new(16, |i: int| hex_digit(hex_nibble(v, i) as int))
}

/// The name of the stamp file that marks an unpacked engine version:
/// `.bundled-` and the version as sixteen hexadecimal digits.
pub fn bundled_stamp_name(version: u64) -> (r: String)
    ensures
        r@ == ".bundled-"@ + hex16(version),
{
    let mut r = owned(".bundled-");
    let ghost prefix = r@;
    let mut i: u64 = 0;
    while i < 16
        invariant
            i <= 16,
            prefix == ".bundled-"@,
            r@ == prefix + hex16(version).take(i as int),
        decreases 16 - i,
    {
        let shift: u64 = 4 * (15 - i);
        let d: u64 = (version >> shift) & 15;
        assert(d < 16) by (bit_vector)
            requires
                d == (version >> shift) & 15,
        ;
        assert(d == hex_nibble(version, i as int));
        let c: char = if d < 10 {
            ((d + 48) as u8) as char
        } else {
            ((d + 87) as u8) as char
        };
        assert(c == hex_digit(d as int));
        crate::text::push_char(&mut r, c);
        assert(hex16(version).take(i + 1) =~= hex16(version).take(i as int).push(c));
        i += 1;
    }
    assert(hex16(version).take(16) =~= hex16(version));
    r
}

} // verus!
