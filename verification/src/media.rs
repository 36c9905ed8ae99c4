//! Media libraries (background music, ambient sounds, chat sounds and
//! backgrounds): which files are listed, how an uploaded track is named,
//! and the items handed to the front end.

use vstd::prelude::*;

use infer::MatcherType;

use crate::path::{extension, extension_spec, file_name, file_name_spec, file_stem, file_stem_spec,
    join, join_spec, path_exists};
use crate::text::{
    ascii_lower_seq, ascii_lowercase, chars_eq, chars_of, decimal, lowercase, owned, str_eq,
    string_of, to_lowercase, u64_to_string,
};

verus! {

/// Extensions listed as background music and ambient sounds.
pub const AUDIO_EXTENSIONS: [&'static str; 7] = ["mp3", "wav", "flac", "webm", "weba", "ogg", "oga"];

/// Extensions listed as chat sounds (the upload dialog offers the same).
pub const CHAT_SOUND_EXTENSIONS: [&'static str; 5] = ["mp3", "wav", "flac", "ogg", "m4a"];

/// Extensions listed as background images.
pub const IMAGE_EXTENSIONS: [&'static str; 8] = ["png", "jpg", "jpeg", "webp", "bmp", "svg", "tif", "gif"];

/// Formats an uploaded track or ambient sound may have, as its header
/// reveals them.
pub const UPLOAD_AUDIO_FORMATS: [&'static str; 4] = ["mp3", "wav", "flac", "ogg"];

/// Categories that name no folder of the music library.
pub const RESERVED_MUSIC_CATEGORIES: [&'static str; 3] = ["根目录", "全部", "插件"];

/// The error an upload with an unusable format gets.
pub const INVALID_FORMAT: &'static str = "MUSIC_INVALID_FORMAT";

#[derive(Debug, Clone)]
pub struct AmbientItemInfo {
    pub name: String,
    pub url: String,
    pub time: String,
    /// `game`, or the id of the plugin that provides the sound.
    pub source: String,
    pub plugin_id: Option<String>,
}

#[derive(Debug, Clone)]
pub struct BackgroundItemInfo {
    pub title: String,
    pub url: String,
    pub time: String,
    /// The sub-folder the image lies in (`根目录` for the top folder).
    pub category: String,
    pub source: String,
    pub plugin_id: Option<String>,
}

#[derive(Debug, Clone)]
pub struct ChatSoundItemInfo {
    pub name: String,
    pub url: String,
    pub time: String,
}

#[derive(Debug, Clone)]
pub struct MusicItemInfo {
    pub name: String,
    pub url: String,
    pub time: String,
    pub category: String,
    pub source: String,
    pub plugin_id: Option<String>,
}

#[derive(Debug, Clone)]
pub struct UploadMusicResult {
    pub actual_name: String,
    pub original_name: String,
    pub detected_kind: String,
    pub was_corrected: bool,
}

// ---------------------------------------------------------------------------
// Listing
// ---------------------------------------------------------------------------

pub open spec fn listed_in(list: Seq<&'static str>, s: Seq<char>) -> bool {
    exists|i: int| 0 <= i < list.len() && (#[trigger] list[i])@ == s
}

fn in_list(list: &[&'static str], s: &str) -> (r: bool)
    ensures
        r == listed_in(list@, s@),
{
    let mut i: usize = 0;
    while i < list.len()
        invariant
            i <= list@.len(),
            forall|j: int| 0 <= j < i ==> (#[trigger] list@[j])@ != s@,
        decreases list.len() - i,
    {
        if str_eq(list[i], s) {
            return true;
        }
        i += 1;
    }
    false
}

/// A file is listed when its extension, lowercased, is one of `allowed`.
pub open spec fn listed_file_spec(path: Seq<char>, allowed: Seq<&'static str>) -> bool {
    match extension_spec(path) {
        Some(e) => listed_in(allowed, lowercase(e)),
        None => false,
    }
}

pub fn has_listed_extension(path: &str, allowed: &[&'static str]) -> (r: bool)
    ensures
        r == listed_file_spec(path@, allowed@),
{
    match extension(path) {
        Some(e) => {
            let text = string_of(e.as_slice());
            let lower = to_lowercase(text.as_str());
            in_list(allowed, lower.as_str())
        },
        None => false,
    }
}

/// The item listed for a sound file of the game's own ambient folder.
pub fn game_ambient_item(path: &str, time: String) -> (r: AmbientItemInfo)
    ensures
        r.name@ == match file_stem_spec(path@) {
            Some(s) => s,
            None => Seq::<char>::empty(),
        },
        r.url@ == path@,
        r.time == time,
        r.source@ == "game"@,
        r.plugin_id is None,
{
    let name = match file_stem(path) {
        Some(s) => string_of(s.as_slice()),
        None => String::new(),
    };
    AmbientItemInfo { name, url: owned(path), time, source: owned("game"), plugin_id: None }
}

/// The item listed for a sound a plugin provides.
pub fn plugin_ambient_item(name: String, path: &str, time: String, plugin_id: String) -> (r:
    AmbientItemInfo)
    ensures
        r.name == name,
        r.url@ == path@,
        r.time == time,
        r.source == plugin_id,
        r.plugin_id == Some(plugin_id),
{
    AmbientItemInfo { name, url: owned(path), time, source: plugin_id.clone(), plugin_id: Some(plugin_id) }
}

/// The stem of a listed file's name, or nothing when it has none.
pub open spec fn listed_name_spec(path: Seq<char>) -> Seq<char> {
    match file_stem_spec(path) {
        Some(s) => s,
        None => Seq::<char>::empty(),
    }
}

fn listed_name(path: &str) -> (r: String)
    ensures
        r@ == listed_name_spec(path@),
{
    match file_stem(path) {
        Some(s) => string_of(s.as_slice()),
        None => String::new(),
    }
}

/// The item listed for a music file of the game's own folder, in the
/// category of the sub-folder it lies in.
pub fn game_music_item(path: &str, category: String, time: String) -> (r: MusicItemInfo)
    ensures
        r.name@ == listed_name_spec(path@),
        r.url@ == path@,
        r.time == time,
        r.category == category,
        r.source@ == "game"@,
        r.plugin_id is None,
{
    MusicItemInfo { name: listed_name(path), url: owned(path), time, category, source: owned("game"), plugin_id: None }
}

/// The item listed for a music file a plugin provides: in the `插件`
/// category, with the plugin as its source.
pub fn plugin_music_item(name: String, path: &str, time: String, plugin_id: String) -> (r: MusicItemInfo)
    ensures
        r.name == name,
        r.url@ == path@,
        r.time == time,
        r.category@ == "插件"@,
        r.source == plugin_id,
        r.plugin_id == Some(plugin_id),
{
    MusicItemInfo {
        name,
        url: owned(path),
        time,
        category: owned("插件"),
        source: plugin_id.clone(),
        plugin_id: Some(plugin_id),
    }
}

/// The item listed for an image of the game's own background folder.
pub fn game_background_item(path: &str, category: String, time: String) -> (r: BackgroundItemInfo)
    ensures
        r.title@ == listed_name_spec(path@),
        r.url@ == path@,
        r.time == time,
        r.category == category,
        r.source@ == "game"@,
        r.plugin_id is None,
{
    BackgroundItemInfo { title: listed_name(path), url: owned(path), time, category, source: owned("game"), plugin_id: None }
}

/// The item listed for a background a plugin provides.
pub fn plugin_background_item(name: String, path: &str, time: String, plugin_id: String) -> (r:
    BackgroundItemInfo)
    ensures
        r.title == name,
        r.url@ == path@,
        r.time == time,
        r.category@ == "插件"@,
        r.source == plugin_id,
        r.plugin_id == Some(plugin_id),
{
    BackgroundItemInfo {
        title: name,
        url: owned(path),
        time,
        category: owned("插件"),
        source: plugin_id.clone(),
        plugin_id: Some(plugin_id),
    }
}

/// The item listed for a chat sound file.
pub fn chat_sound_item(path: &str, time: String) -> (r: ChatSoundItemInfo)
    ensures
        r.name@ == listed_name_spec(path@),
        r.url@ == path@,
        r.time == time,
{
    ChatSoundItemInfo { name: listed_name(path), url: owned(path), time }
}

/// The name an uploaded file is stored under: the last component of the
/// name given, so that no path can lead out of the folder; an error when
/// there is none.
pub fn safe_upload_name(file_name_arg: &str) -> (r: Result<String, String>)
    ensures
        match file_name_spec(file_name_arg@) {
            Some(n) => r matches Ok(x) && x@ == n,
            None => r matches Err(e) && e@ == "无效的文件名: "@ + file_name_arg@,
        },
{
    match file_name(file_name_arg) {
        Some(n) => Ok(n),
        None => {
            let mut e = owned("无效的文件名: ");
            e.append(file_name_arg);
            Err(e)
        },
    }
}

/// The category of what a folder holds: the folder's own name (or the
/// parent's category when it has none).
pub open spec fn sub_category_spec(folder: Seq<char>, parent_category: Seq<char>) -> Seq<char> {
    match file_name_spec(folder) {
        Some(n) => n,
        None => parent_category,
    }
}

pub fn sub_category(folder: &str, parent_category: &str) -> (r: String)
    ensures
        r@ == sub_category_spec(folder@, parent_category@),
        file_name_spec(folder@) matches Some(n) ==> r@ == n,
{
    match file_name(folder) {
        Some(n) => n,
        None => owned(parent_category),
    }
}

/// What a named sub-folder holds is filed under the sub-folder's own name,
/// whatever the parent's category: for `base/n`, with `n` a plain name (not
/// empty, no separator, not `.` or `..`), the category is `n`.
pub proof fn law_sub_category_is_folder_name(base: Seq<char>, n: Seq<char>, parent_category: Seq<char>)
    requires
        n.len() > 0,
        forall|i: int| 0 <= i < n.len() ==> n[i] != '/',
        n != seq!['.'],
        n != seq!['.', '.'],
    ensures
        sub_category_spec(base + seq!['/'] + n, parent_category) == n,
{
    crate::path::lemma_file_name_of_child(base, n);
}

/// Whether a music category names no folder: `根目录`, `全部` or `插件`.
pub open spec fn is_reserved_music_category_spec(name: Seq<char>) -> bool {
    listed_in(RESERVED_MUSIC_CATEGORIES@, name)
}

pub fn is_reserved_music_category(name: &str) -> (r: bool)
    ensures
        r == is_reserved_music_category_spec(name@),
{
    in_list(&RESERVED_MUSIC_CATEGORIES, name)
}

/// A music file named by the front end: an absolute path as it is, any
/// other path under the music folder, category folders included.
pub fn resolve_music_path(base: &str, url: &str) -> (r: String)
    ensures
        r@ == join_spec(base@, url@),
{
    join(base, url)
}

// ---------------------------------------------------------------------------
// Uploads
// ---------------------------------------------------------------------------

/// The class of file `infer` recognises a header as.
#[derive(Debug, Clone, Copy, PartialEq, Eq, Structural)]
pub enum SniffedKind {
    App,
    Archive,
    Audio,
    Book,
    Doc,
    Font,
    Image,
    Text,
    Video,
    Custom,
}

/// What `infer::get` recognises in a file's first bytes: nothing, or a
/// class, an extension and a MIME type.
pub uninterp spec fn sniffed(header: Seq<u8>) -> Option<(SniffedKind, Seq<char>, Seq<char>)>;

/// `infer::get`: recognises a file by its first bytes (up to 8192 are
/// looked at). Its result is named, not stated: it is `infer`'s table.
#[verifier::external_body]
pub(crate) fn sniff(header: &[u8]) -> (r: Option<(SniffedKind, &'static str, &'static str)>)
    ensures
        match sniffed(header@) {
            Some((k, e, m)) => r matches Some((k2, e2, m2)) && k2 == k && e2@ == e && m2@ == m,
            None => r is None,
        },
{
    match infer::get(header) {
        Some(t) => Some((match t.matcher_type() {
            MatcherType::App => SniffedKind::App,
            MatcherType::Archive => SniffedKind::Archive,
            MatcherType::Audio => SniffedKind::Audio,
            MatcherType::Book => SniffedKind::Book,
            MatcherType::Doc => SniffedKind::Doc,
            MatcherType::Font => SniffedKind::Font,
            MatcherType::Image => SniffedKind::Image,
            MatcherType::Text => SniffedKind::Text,
            MatcherType::Video => SniffedKind::Video,
            MatcherType::Custom => SniffedKind::Custom,
        }, t.extension(), t.mime_type())),
        None => None,
    }
}

/// The class and extension a header is recognised as.
pub open spec fn sniffed_class(header: Seq<u8>) -> Option<(SniffedKind, Seq<char>)> {
    match sniffed(header) {
        Some((k, e, _)) => Some((k, e)),
        None => None,
    }
}

/// The MIME type a header is recognised as.
pub open spec fn sniffed_mime(header: Seq<u8>) -> Option<Seq<char>> {
    match sniffed(header) {
        Some((_, _, m)) => Some(m),
        None => None,
    }
}

pub open spec fn sniffed_view(s: Option<(SniffedKind, &'static str)>) -> Option<(SniffedKind, Seq<char>)> {
    match s {
        Some((k, e)) => Some((k, e@)),
        None => None,
    }
}

/// The format of an upload from what its header revealed: only audio
/// recognised as mp3, wav, flac or ogg is taken (an m4a may be taken for
/// video, so it is refused with the rest).
pub open spec fn upload_format_spec(sniff: Option<(SniffedKind, Seq<char>)>) -> Option<Seq<char>> {
    match sniff {
        Some((SniffedKind::Audio, ext)) => if listed_in(UPLOAD_AUDIO_FORMATS@, ext) {
            Some(ext)
        } else {
            None
        },
        _ => None,
    }
}

pub fn upload_format(sniff: Option<(SniffedKind, &'static str)>) -> (r: Result<String, String>)
    ensures
        match upload_format_spec(sniffed_view(sniff)) {
            Some(ext) => r matches Ok(x) && x@ == ext,
            None => r matches Err(e) && e@ == INVALID_FORMAT@,
        },
{
    match sniff {
        Some((SniffedKind::Audio, ext)) => {
            if in_list(&UPLOAD_AUDIO_FORMATS, ext) {
                Ok(owned(ext))
            } else {
                Err(owned(INVALID_FORMAT))
            }
        },
        _ => Err(owned(INVALID_FORMAT)),
    }
}

/// The format of an upload whose first bytes are `header`.
pub fn upload_format_of(header: &[u8]) -> (r: Result<String, String>)
    ensures
        match upload_format_spec(sniffed_class(header@)) {
            Some(ext) => r matches Ok(x) && x@ == ext,
            None => r matches Err(e) && e@ == INVALID_FORMAT@,
        },
{
    let s = match sniff(header) {
        Some((k, e, _)) => Some((k, e)),
        None => None,
    };
    upload_format(s)
}

/// The name an upload is known by: the file name of what the front end
/// sent when that is not empty, else the name the platform gave the file.
pub open spec fn original_name_spec(file_name_arg: Seq<char>, display_name: Seq<char>) -> Seq<char> {
    if file_name_arg.len() > 0 {
        match file_name_spec(file_name_arg) {
            Some(n) => if n.len() > 0 {
                n
            } else {
                display_name
            },
            None => display_name,
        }
    } else {
        display_name
    }
}

pub fn original_upload_name(file_name_arg: &str, display_name: &str) -> (r: Result<String, String>)
    ensures
        if original_name_spec(file_name_arg@, display_name@).len() > 0 {
            r matches Ok(x) && x@ == original_name_spec(file_name_arg@, display_name@)
        } else {
            r matches Err(e) && e@ == "无效的文件名: "@ + file_name_arg@
        },
{
    let fv = chars_of(file_name_arg);
    let name = if fv.len() > 0 {
        match file_name(file_name_arg) {
            Some(n) => {
                let nv = chars_of(n.as_str());
                if nv.len() > 0 {
                    n
                } else {
                    owned(display_name)
                }
            },
            None => owned(display_name),
        }
    } else {
        owned(display_name)
    };
    let nv = chars_of(name.as_str());
    if nv.len() == 0 {
        return Err(crate::text::concat2("无效的文件名: ", file_name_arg));
    }
    Ok(name)
}

/// The stem kept for an uploaded track: the original name without its
/// extension, or `track`.
pub open spec fn track_stem_spec(original: Seq<char>) -> Seq<char> {
    match file_stem_spec(original) {
        Some(s) => s,
        None => "track"@,
    }
}

pub fn track_stem(original: &str) -> (r: String)
    ensures
        r@ == track_stem_spec(original@),
{
    match file_stem(original) {
        Some(s) => string_of(s.as_slice()),
        None => owned("track"),
    }
}

pub open spec fn track_name_spec(stem: Seq<char>, ext: Seq<char>) -> Seq<char> {
    stem + seq!['.'] + ext
}

pub open spec fn numbered_track_spec(stem: Seq<char>, counter: nat, ext: Seq<char>) -> Seq<char> {
    stem + seq!['_'] + decimal(counter) + seq!['.'] + ext
}

/// The last resort when a thousand numbered names are taken: the stem, `_`,
/// the time in milliseconds and the extension, written with no dot between
/// them.
pub open spec fn timestamped_track_spec(stem: Seq<char>, millis: int, ext: Seq<char>) -> Seq<char> {
    stem + seq!['_'] + signed_decimal(millis) + ext
}

pub open spec fn signed_decimal(n: int) -> Seq<char> {
    if n < 0 {
        seq!['-'] + decimal((-n) as nat)
    } else {
        decimal(n as nat)
    }
}

pub fn i64_to_string(n: i64) -> (r: String)
    ensures
        r@ == signed_decimal(n as int),
{
    if n < 0 {
        let magnitude: u64 = ((-(n + 1)) as u64) + 1;
        let digits = u64_to_string(magnitude);
        let mut r = owned("-");
        r.append(digits.as_str());
        proof {
            reveal_strlit("-");
        }
        r
    } else {
        u64_to_string(n as u64)
    }
}

pub fn track_name(stem: &str, ext: &str) -> (r: String)
    ensures
        r@ == track_name_spec(stem@, ext@),
{
    let mut r = owned(stem);
    r.append(".");
    r.append(ext);
    proof {
        reveal_strlit(".");
    }
    r
}

pub fn numbered_track_name(stem: &str, counter: u32, ext: &str) -> (r: String)
    ensures
        r@ == numbered_track_spec(stem@, counter as nat, ext@),
{
    let number = u64_to_string(counter as u64);
    let mut r = owned(stem);
    r.append("_");
    r.append(number.as_str());
    r.append(".");
    r.append(ext);
    proof {
        reveal_strlit("_");
        reveal_strlit(".");
    }
    r
}

pub fn timestamped_track_name(stem: &str, millis: i64, ext: &str) -> (r: String)
    ensures
        r@ == timestamped_track_spec(stem@, millis as int, ext@),
{
    let number = i64_to_string(millis);
    let mut r = owned(stem);
    r.append("_");
    r.append(number.as_str());
    r.append(ext);
    proof {
        reveal_strlit("_");
    }
    r
}

/// `chrono::Utc::now().timestamp_millis()`: milliseconds since the Unix
/// epoch. Nothing is stated of the value: it is the clock's.
#[verifier::external_body]
fn now_millis() -> (r: i64) {
    chrono::Utc::now().timestamp_millis()
}

/// The `i`-th name tried for an upload: `{stem}.{ext}` first, then
/// `{stem}_2.{ext}`, `{stem}_3.{ext}`, ...
pub open spec fn candidate_track_spec(stem: Seq<char>, ext: Seq<char>, i: int) -> Seq<char> {
    if i == 0 {
        track_name_spec(stem, ext)
    } else {
        numbered_track_spec(stem, (i + 1) as nat, ext)
    }
}

/// The first name not taken, by position.
pub open spec fn first_untaken(taken: Seq<bool>) -> Option<int>
    decreases taken.len(),
{
    if taken.len() == 0 {
        None
    } else {
        match first_untaken(taken.drop_last()) {
            Some(i) => Some(i),
            None => if !taken.last() {
                Some(taken.len() - 1)
            } else {
                None
            },
        }
    }
}

pub proof fn lemma_first_untaken_prefix(taken: Seq<bool>, k: int)
    requires
        0 <= k <= taken.len(),
        first_untaken(taken.take(k)) is Some,
    ensures
        first_untaken(taken) == first_untaken(taken.take(k)),
    decreases taken.len(),
{
    if k < taken.len() {
        assert(taken.take(k) =~= taken.drop_last().take(k));
        lemma_first_untaken_prefix(taken.drop_last(), k);
    } else {
        assert(taken.take(k) =~= taken);
    }
}

/// The name an upload gets, given which of the 999 candidates
/// (`{stem}.{ext}`, `{stem}_2.{ext}` ... `{stem}_999.{ext}`) are taken: the
/// first one not taken, else the name made from `millis`.
pub open spec fn pick_track_spec(stem: Seq<char>, ext: Seq<char>, taken: Seq<bool>, millis: int) -> Seq<char> {
    match first_untaken(taken) {
        Some(i) => candidate_track_spec(stem, ext, i),
        None => timestamped_track_spec(stem, millis, ext),
    }
}

pub fn pick_track_name(stem: &str, ext: &str, taken: &[bool], millis: i64) -> (r: String)
    requires
        taken@.len() == 999,
    ensures
        r@ == pick_track_spec(stem@, ext@, taken@, millis as int),
{
    let mut i: usize = 0;
    while i < 999
        invariant
            i <= 999,
            taken@.len() == 999,
            first_untaken(taken@.take(i as int)) is None,
        decreases 999 - i,
    {
        assert(taken@.take(i + 1).drop_last() =~= taken@.take(i as int));
        assert(taken@.take(i + 1).last() == taken@[i as int]);
        if !taken[i] {
            proof {
                lemma_first_untaken_prefix(taken@, i + 1);
            }
            if i == 0 {
                return track_name(stem, ext);
            } else {
                return numbered_track_name(stem, (i + 1) as u32, ext);
            }
        }
        i += 1;
    }
    assert(taken@.take(999) =~= taken@);
    timestamped_track_name(stem, millis, ext)
}

/// A name for an upload in `dir` that no file has yet: the candidates are
/// tried on disk in order, and the first free one is taken; when all 999
/// are taken, the name is made from the clock. What exists on disk, and
/// the time, are not functions of the arguments, so the contract states
/// the result as [`pick_track_name`] gives it for some answers of the disk
/// and of the clock.
pub fn free_track_name(dir: &str, stem: &str, ext: &str) -> (r: String)
    ensures
        exists|taken: Seq<bool>, millis: i64|
            taken.len() == 999 && r@ == #[trigger] pick_track_spec(stem@, ext@, taken, millis as int),
{
    let mut taken: Vec<bool> = Vec::new();
    let mut found = false;
    let mut i: usize = 0;
    while i < 999
        invariant
            i <= 999,
            taken@.len() == i,
            found <==> first_untaken(taken@) is Some,
        decreases 999 - i,
    {
        let ghost before = taken@;
        if found {
            taken.push(true);
        } else {
            let name = if i == 0 {
                track_name(stem, ext)
            } else {
                numbered_track_name(stem, (i + 1) as u32, ext)
            };
            let candidate = join(dir, name.as_str());
            let exists = path_exists(candidate.as_str());
            taken.push(exists);
            if !exists {
                found = true;
            }
        }
        assert(taken@.drop_last() =~= before);
        i += 1;
    }
    let millis: i64 = if found { 0 } else { now_millis() };
    let r = pick_track_name(stem, ext, taken.as_slice(), millis);
    assert(pick_track_spec(stem@, ext@, taken@, millis as int) == r@);
    r
}

/// ASCII-case-insensitive equality (`eq_ignore_ascii_case`).
pub open spec fn eq_ignore_ascii_case_spec(a: Seq<char>, b: Seq<char>) -> bool {
    ascii_lower_seq(a) == ascii_lower_seq(b)
}

pub fn eq_ignore_ascii_case(a: &str, b: &str) -> (r: bool)
    ensures
        r == eq_ignore_ascii_case_spec(a@, b@),
{
    let va = chars_of(a);
    let vb = chars_of(b);
    let la = ascii_lowercase(va.as_slice());
    let lb = ascii_lowercase(vb.as_slice());
    chars_eq(la.as_slice(), lb.as_slice())
}

/// The answer to an upload: an upload counts as corrected only when its
/// name changed in more than letter case.
pub fn upload_result(original_name: String, actual_name: String, detected_kind: String) -> (r:
    UploadMusicResult)
    ensures
        r.actual_name == actual_name,
        r.original_name == original_name,
        r.detected_kind == detected_kind,
        r.was_corrected == !eq_ignore_ascii_case_spec(original_name@, actual_name@),
{
    let same = eq_ignore_ascii_case(original_name.as_str(), actual_name.as_str());
    UploadMusicResult { actual_name, original_name, detected_kind, was_corrected: !same }
}

} // verus!
