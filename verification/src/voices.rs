//! Voice presets of the built-in IndexTTS2 engine: which files may be
//! uploaded as a voice, how presets are listed, and when one may be
//! deleted.

use vstd::prelude::*;

use crate::live2d_auto::{lemma_name_lt_irreflexive, lemma_name_lt_transitive, name_lt, str_lt};
use crate::media::listed_in;
use crate::path::{extension, extension_spec, file_name, file_name_spec, join, join_spec, path_exists};
use crate::text::{
    ascii_lower_seq, ascii_lowercase, chars_of, lowercase, owned, str_eq, string_of, to_lowercase,
    trim, trimmed,
};

verus! {

/// The formats a voice preset may have.
pub const VOICE_EXTENSIONS: [&'static str; 4] = ["wav", "mp3", "flac", "ogg"];

/// The largest voice file taken (50 MiB).
pub const MAX_VOICE_FILE_BYTES: usize = 52428800;

pub const INVALID_VOICE_NAME: &'static str = "音色文件名无效，仅支持 wav/mp3/flac/ogg 文件";

/// A voice preset as the settings page lists it.
#[derive(Debug, Clone)]
pub struct IndexTtsVoicePreset {
    pub id: usize,
    pub file_name: String,
    pub size: u64,
}

/// The (ASCII-lowercased) extension of a voice file, when it is a voice
/// format.
pub open spec fn voice_extension_spec(file_name: Seq<char>) -> Option<Seq<char>> {
    match extension_spec(file_name) {
        Some(e) => if listed_in(VOICE_EXTENSIONS@, ascii_lower_seq(e)) {
            Some(ascii_lower_seq(e))
        } else {
            None
        },
        None => None,
    }
}

pub fn voice_extension(file_name: &str) -> (r: Option<String>)
    ensures
        match voice_extension_spec(file_name@) {
            Some(e) => r matches Some(x) && x@ == e,
            None => r is None,
        },
{
    let e = extension(file_name);
    if e.is_none() {
        return None;
    }
    let lower = ascii_lowercase(e.unwrap().as_slice());
    let text = string_of(lower.as_slice());
    let mut i: usize = 0;
    while i < VOICE_EXTENSIONS.len()
        invariant
            i <= VOICE_EXTENSIONS@.len(),
            extension_spec(file_name@) is Some,
            text@ == ascii_lower_seq(extension_spec(file_name@)->Some_0),
            forall|j: int| 0 <= j < i ==> (#[trigger] VOICE_EXTENSIONS@[j])@ != text@,
        decreases VOICE_EXTENSIONS.len() - i,
    {
        if str_eq(VOICE_EXTENSIONS[i], text.as_str()) {
            return Some(text);
        }
        i += 1;
    }
    None
}

/// A voice file name must be a bare file name (nothing but whitespace
/// around it) with a voice extension; it is taken trimmed.
pub open spec fn voice_name_ok(file_name: Seq<char>) -> bool {
    let t = trim(file_name);
    t.len() > 0 && file_name_spec(t) == Some(t) && voice_extension_spec(t) is Some
}

pub fn validate_voice_file_name(file_name: &str) -> (r: Result<String, String>)
    ensures
        voice_name_ok(file_name@) ==> (r matches Ok(x) && x@ == trim(file_name@)),
        !voice_name_ok(file_name@) ==> (r matches Err(e) && e@ == INVALID_VOICE_NAME@),
{
    let t = trimmed(file_name);
    if chars_of(t.as_str()).len() == 0 {
        return Err(owned(INVALID_VOICE_NAME));
    }
    let bare = match crate::path::file_name(t.as_str()) {
        Some(n) => str_eq(n.as_str(), t.as_str()),
        None => false,
    };
    if !bare || voice_extension(t.as_str()).is_none() {
        return Err(owned(INVALID_VOICE_NAME));
    }
    Ok(t)
}

pub open spec fn starts_with_bytes(b: Seq<u8>, p: Seq<u8>) -> bool {
    p.len() <= b.len() && b.take(p.len() as int) == p
}

/// Whether the bytes look like what the extension says.
pub open spec fn voice_magic_ok(ext: Seq<char>, b: Seq<u8>) -> bool {
    if ext == "wav"@ {
        b.len() >= 12 && b.take(4) == seq![0x52u8, 0x49, 0x46, 0x46] && b.subrange(8, 12) == seq![
            0x57u8,
            0x41,
            0x56,
            0x45,
        ]
    } else if ext == "flac"@ {
        starts_with_bytes(b, seq![0x66u8, 0x4c, 0x61, 0x43])
    } else if ext == "ogg"@ {
        starts_with_bytes(b, seq![0x4fu8, 0x67, 0x67, 0x53])
    } else if ext == "mp3"@ {
        starts_with_bytes(b, seq![0x49u8, 0x44, 0x33]) || (b.len() >= 2 && b[0] == 0xff && b[1]
            >= 0xe0)
    } else {
        false
    }
}

/// The error for file content, if any: empty, too large, or not what its
/// extension claims.
pub open spec fn voice_bytes_error(ext: Seq<char>, b: Seq<u8>) -> Option<Seq<char>> {
    if b.len() == 0 {
        Some("音色文件为空"@)
    } else if b.len() > MAX_VOICE_FILE_BYTES {
        Some("音色文件不能超过 50 MB"@)
    } else if !voice_magic_ok(ext, b) {
        Some("文件内容不是有效的 "@ + ext + " 音频"@)
    } else {
        None
    }
}

fn bytes_start_with(b: &[u8], p: &[u8]) -> (r: bool)
    ensures
        r == starts_with_bytes(b@, p@),
{
    if p.len() > b.len() {
        return false;
    }
    let mut i: usize = 0;
    while i < p.len()
        invariant
            i <= p.len() <= b.len(),
            forall|j: int| 0 <= j < i ==> b@[j] == p@[j],
        decreases p.len() - i,
    {
        if b[i] != p[i] {
            return false;
        }
        i += 1;
    }
    assert(b@.take(p@.len() as int) =~= p@);
    true
}

pub fn validate_voice_bytes(ext: &str, bytes: &[u8]) -> (r: Result<(), String>)
    ensures
        match voice_bytes_error(ext@, bytes@) {
            Some(m) => r matches Err(e) && e@ == m,
            None => r is Ok,
        },
{
    if bytes.len() == 0 {
        return Err(owned("音色文件为空"));
    }
    if bytes.len() > MAX_VOICE_FILE_BYTES {
        return Err(owned("音色文件不能超过 50 MB"));
    }
    let valid = if str_eq(ext, "wav") {
        if bytes.len() >= 12 {
            let riff = bytes_start_with(bytes, &[0x52u8, 0x49, 0x46, 0x46]);
            let wave = bytes[8] == 0x57 && bytes[9] == 0x41 && bytes[10] == 0x56 && bytes[11] == 0x45;
            assert(wave <==> bytes@.subrange(8, 12) =~= seq![0x57u8, 0x41, 0x56, 0x45]);
            riff && wave
        } else {
            false
        }
    } else if str_eq(ext, "flac") {
        bytes_start_with(bytes, &[0x66u8, 0x4c, 0x61, 0x43])
    } else if str_eq(ext, "ogg") {
        bytes_start_with(bytes, &[0x4fu8, 0x67, 0x67, 0x53])
    } else if str_eq(ext, "mp3") {
        bytes_start_with(bytes, &[0x49u8, 0x44, 0x33]) || (bytes.len() >= 2 && bytes[0] == 0xff
            && bytes[1] >= 0xe0)
    } else {
        false
    };
    if !valid {
        let mut m = owned("文件内容不是有效的 ");
        m.append(ext);
        m.append(" 音频");
        return Err(m);
    }
    Ok(())
}

/// What an upload must pass before anything is written: its name, then
/// its content; the accepted name and its format come back.
pub fn check_voice_upload(file_name: &str, bytes: &[u8]) -> (r: Result<(String, String), String>)
    ensures
        !voice_name_ok(file_name@) ==> (r matches Err(e) && e@ == INVALID_VOICE_NAME@),
        voice_name_ok(file_name@) ==> match voice_bytes_error(
            voice_extension_spec(trim(file_name@))->Some_0,
            bytes@,
        ) {
            Some(m) => r matches Err(e) && e@ == m,
            None => r matches Ok((n, x)) && n@ == trim(file_name@) && x@ == voice_extension_spec(
                trim(file_name@),
            )->Some_0,
        },
{
    let name = validate_voice_file_name(file_name)?;
    let ext = match voice_extension(name.as_str()) {
        Some(e) => e,
        None => {
            return Err(owned("不支持的音色文件格式"));
        },
    };
    validate_voice_bytes(ext.as_str(), bytes)?;
    Ok((name, ext))
}

/// Where an accepted voice is written, unless a file of that name is
/// already there (what exists is the disk's business).
pub fn voice_upload_target(voices_dir: &str, name: &str) -> (r: Result<String, String>)
    ensures
        r matches Ok(t) ==> t@ == join_spec(voices_dir@, name@),
        r matches Err(e) ==> e@ == "音色文件 "@ + name@ + " 已存在，请先删除或更改文件名"@,
{
    let target = join(voices_dir, name);
    if path_exists(target.as_str()) {
        let mut m = owned("音色文件 ");
        m.append(name);
        m.append(" 已存在，请先删除或更改文件名");
        return Err(m);
    }
    Ok(target)
}

/// Presets are listed by file name, ignoring case (Unicode lowercase),
/// numbered from 0 in that order.
pub open spec fn presets_sorted(v: Seq<IndexTtsVoicePreset>) -> bool {
    forall|i: int, j: int|
        0 <= i < j < v.len() ==> !name_lt(
            lowercase((#[trigger] v[j]).file_name@),
            lowercase((#[trigger] v[i]).file_name@),
        )
}

pub open spec fn preset_entries(v: Seq<IndexTtsVoicePreset>) -> Seq<(String, u64)> {
    v.map_values(|p: IndexTtsVoicePreset| (p.file_name, p.size))
}

/// The presets of a voice folder's `(file name, size)` entries: ordered by
/// lowercased name and numbered from 0.
pub fn list_presets(entries: Vec<(String, u64)>) -> (r: Vec<IndexTtsVoicePreset>)
    ensures
        presets_sorted(r@),
        preset_entries(r@).to_multiset() == entries@.to_multiset(),
        forall|i: int| 0 <= i < r@.len() ==> (#[trigger] r@[i]).id == i,
{
    let mut sorted: Vec<(String, String, u64)> = Vec::new();
    let mut k: usize = 0;
    let ghost keyed = |t: (String, String, u64)| (t.1, t.2);
    assert(entries@.take(0) =~= sorted@.map_values(keyed));
    while k < entries.len()
        invariant
            k <= entries@.len(),
            forall|i: int| 0 <= i < sorted@.len() ==> (#[trigger] sorted@[i]).0@ == lowercase(sorted@[i].1@),
            forall|i: int, j: int|
                0 <= i < j < sorted@.len() ==> !name_lt((#[trigger] sorted@[j]).0@, (#[trigger] sorted@[i]).0@),
            sorted@.map_values(keyed).to_multiset() == entries@.take(k as int).to_multiset(),
            keyed == (|t: (String, String, u64)| (t.1, t.2)),
        decreases entries.len() - k,
    {
        let name = entries[k].0.clone();
        let size = entries[k].1;
        let key = to_lowercase(name.as_str());
        let x = (key, name, size);
        let ghost before = sorted@;
        let mut pos: usize = 0;
        while pos < sorted.len() && !str_lt(x.0.as_str(), sorted[pos].0.as_str())
            invariant
                pos <= sorted@.len(),
                sorted@ == before,
                forall|i: int| 0 <= i < pos ==> !name_lt(x.0@, (#[trigger] before[i]).0@),
            decreases sorted.len() - pos,
        {
            pos += 1;
        }
        sorted.insert(pos, x);
        proof {
            let nv = sorted@;
            assert(nv == before.insert(pos as int, x));
            assert forall|i: int, j: int| 0 <= i < j < nv.len() implies !name_lt(
                (#[trigger] nv[j]).0@,
                (#[trigger] nv[i]).0@,
            ) by {
                if j < pos {
                    assert(nv[i] == before[i] && nv[j] == before[j]);
                } else if i > pos {
                    assert(nv[i] == before[i - 1] && nv[j] == before[j - 1]);
                } else if j == pos {
                    assert(nv[i] == before[i] && nv[j] == x);
                } else if i == pos {
                    assert(nv[i] == x && nv[j] == before[j - 1]);
                    if name_lt(nv[j].0@, x.0@) {
                        assert(name_lt(x.0@, before[pos as int].0@));
                        lemma_name_lt_transitive(nv[j].0@, x.0@, before[pos as int].0@);
                        if j - 1 == pos {
                            lemma_name_lt_irreflexive(before[pos as int].0@);
                        }
                    }
                } else {
                    assert(nv[i] == before[i] && nv[j] == before[j - 1]);
                }
            }
            assert forall|i: int| 0 <= i < nv.len() implies (#[trigger] nv[i]).0@ == lowercase(nv[i].1@) by {
                if i < pos {
                    assert(nv[i] == before[i]);
                } else if i > pos {
                    assert(nv[i] == before[i - 1]);
                }
            }
            assert(nv.map_values(keyed) =~= before.map_values(keyed).insert(pos as int, keyed(x)));
            vstd::seq_lib::to_multiset_insert(before.map_values(keyed), pos as int, keyed(x));
            assert(entries@.take(k + 1) =~= entries@.take(k as int).push(entries@[k as int]));
            vstd::seq_lib::to_multiset_build(entries@.take(k as int), entries@[k as int]);
            assert(keyed(x) == entries@[k as int]);
        }
        k += 1;
    }
    assert(entries@.take(entries@.len() as int) =~= entries@);
    let mut r: Vec<IndexTtsVoicePreset> = Vec::new();
    let mut i: usize = 0;
    while i < sorted.len()
        invariant
            i <= sorted@.len(),
            r@.len() == i,
            forall|a: int| 0 <= a < sorted@.len() ==> (#[trigger] sorted@[a]).0@ == lowercase(sorted@[a].1@),
            forall|a: int, b: int|
                0 <= a < b < sorted@.len() ==> !name_lt((#[trigger] sorted@[b]).0@, (#[trigger] sorted@[a]).0@),
            forall|a: int| 0 <= a < i ==> (#[trigger] r@[a]).id == a && r@[a].file_name == sorted@[a].1
                && r@[a].size == sorted@[a].2,
        decreases sorted.len() - i,
    {
        r.push(IndexTtsVoicePreset { id: i, file_name: sorted[i].1.clone(), size: sorted[i].2 });
        i += 1;
    }
    proof {
        assert(preset_entries(r@) =~= sorted@.map_values(keyed));
        assert forall|a: int, b: int| 0 <= a < b < r@.len() implies !name_lt(
            lowercase((#[trigger] r@[b]).file_name@),
            lowercase((#[trigger] r@[a]).file_name@),
        ) by {
            assert(sorted@[a].0@ == lowercase(sorted@[a].1@));
            assert(sorted@[b].0@ == lowercase(sorted@[b].1@));
        }
    }
    r
}

/// A preset may be deleted only when another remains and it exists.
pub fn check_preset_deletion(presets: &[IndexTtsVoicePreset], name: &str) -> (r: Result<(), String>)
    ensures
        presets@.len() <= 1 ==> (r matches Err(e) && e@ == "至少需要保留一个音色预设，无法删除最后一个音色"@),
        presets@.len() > 1 ==> ((exists|i: int| 0 <= i < presets@.len() && (#[trigger] presets@[i]).file_name@
            == name@) <==> r is Ok),
        presets@.len() > 1 && r is Err ==> (r matches Err(e) && e@ == "音色文件不存在: "@ + name@),
{
    if presets.len() <= 1 {
        return Err(owned("至少需要保留一个音色预设，无法删除最后一个音色"));
    }
    let mut i: usize = 0;
    while i < presets.len()
        invariant
            i <= presets@.len(),
            presets@.len() > 1,
            forall|j: int| 0 <= j < i ==> (#[trigger] presets@[j]).file_name@ != name@,
        decreases presets.len() - i,
    {
        if str_eq(presets[i].file_name.as_str(), name) {
            return Ok(());
        }
        i += 1;
    }
    Err(crate::text::concat2("音色文件不存在: ", name))
}

/// The index of the preset a speaker id selects: the id itself while it
/// is a preset's, else the first.
pub open spec fn speaker_index(count: int, speaker_id: i64) -> int {
    if 0 <= speaker_id < count {
        speaker_id as int
    } else {
        0
    }
}

/// The voice file the engine speaks with for a speaker id, among the
/// presets in listing order; an error when there is none.
pub fn voice_for_speaker(presets: &[IndexTtsVoicePreset], speaker_id: i64) -> (r: Result<String, String>)
    ensures
        presets@.len() == 0 ==> (r matches Err(e) && e@ == "IndexTTS2 音色目录中没有可用文件"@),
        presets@.len() > 0 ==> (r matches Ok(name) && name == presets@[speaker_index(
            presets@.len() as int,
            speaker_id,
        )].file_name),
{
    if presets.len() == 0 {
        return Err(owned("IndexTTS2 音色目录中没有可用文件"));
    }
    let index: usize = if 0 <= speaker_id && (speaker_id as u64) < (presets.len() as u64) {
        speaker_id as usize
    } else {
        0
    };
    Ok(presets[index].file_name.clone())
}

} // verus!
