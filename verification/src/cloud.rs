//! Cloud voice enrollment: naming rules for submitted voices, the status
//! check that gates a preview, and the fields read from the service's
//! answers.

use vstd::prelude::*;

use crate::json::{field, field_spec, str_field, str_field_spec, Json};
use crate::text::{
    concat2, concat3, lowercase, to_lowercase, ascii_lower_seq, ascii_lowercase, char_is_ascii_alnum, chars_of, decimal, is_ascii_alnum,
    owned, str_eq, string_of, trim, trimmed, u64_to_string,
};

verus! {

/// The ASCII letters and digits of `s`, in order.
pub open spec fn ascii_alnum_only(s: Seq<char>) -> Seq<char>
    decreases s.len(),
{
    if s.len() == 0 {
        s
    } else if is_ascii_alnum(s.last()) {
        ascii_alnum_only(s.drop_last()).push(s.last())
    } else {
        ascii_alnum_only(s.drop_last())
    }
}

/// Voice-name prefix accepted by the service: the first ten ASCII letters
/// and digits of the name, lowercased, or `voice` when there are none.
pub open spec fn sanitize_prefix_spec(name: Seq<char>) -> Seq<char> {
    let kept = ascii_alnum_only(name);
    let cut = if kept.len() > 10 {
        kept.take(10)
    } else {
        kept
    };
    if cut.len() == 0 {
        "voice"@
    } else {
        ascii_lower_seq(cut)
    }
}

pub fn sanitize_prefix(name: &str) -> (r: String)
    ensures
        r@ == sanitize_prefix_spec(name@),
{
    let cs = chars_of(name);
    let mut kept: Vec<char> = Vec::new();
    let mut i: usize = 0;
    while i < cs.len()
        invariant
            i <= cs.len(),
            cs@ == name@,
            kept@ == ascii_alnum_only(cs@.take(i as int)),
        decreases cs.len() - i,
    {
        assert(cs@.take(i + 1).drop_last() =~= cs@.take(i as int));
        if char_is_ascii_alnum(cs[i]) {
            kept.push(cs[i]);
        }
        i += 1;
    }
    assert(cs@.take(cs.len() as int) =~= cs@);
    if kept.len() > 10 {
        kept.truncate(10);
    }
    if kept.len() == 0 {
        return owned("voice");
    }
    let lower = ascii_lowercase(kept.as_slice());
    string_of(lower.as_slice())
}

/// Client for the cloud voice service.
#[derive(Debug, Clone)]
pub struct CloudVoiceService {
    api_key: String,
}

impl CloudVoiceService {
    pub closed spec fn spec_api_key(&self) -> Seq<char> {
        self.api_key@
    }

    pub fn new(api_key: String) -> (s: Self)
        ensures
            s.spec_api_key() == api_key@,
    {
        CloudVoiceService { api_key }
    }

    pub fn api_key(&self) -> (r: &str)
        ensures
            r@ == self.spec_api_key(),
    {
        self.api_key.as_str()
    }
}

/// Whether an API key is set: present and not blank.
pub fn api_key_configured(key: Option<&str>) -> (r: bool)
    ensures
        r == (key matches Some(k) && trim(k@).len() > 0),
{
    match key {
        Some(k) => {
            let t = trimmed(k);
            chars_of(t.as_str()).len() > 0
        },
        None => false,
    }
}

/// The service for the configured key; an error when no key is set.
pub fn service_for_key(key: Option<String>) -> (r: Result<CloudVoiceService, String>)
    ensures
        match key {
            Some(k) => if trim(k@).len() > 0 {
                r matches Ok(s) && s.spec_api_key() == k@
            } else {
                r matches Err(e) && e@ == "CosyVoice API Key 未配置，请在设置中填写"@
            },
            None => r matches Err(e) && e@ == "CosyVoice API Key 未配置，请在设置中填写"@,
        },
{
    let k = match key {
        Some(k) => k,
        None => String::new(),
    };
    if !api_key_configured(Some(k.as_str())) {
        return Err(owned("CosyVoice API Key 未配置，请在设置中填写"));
    }
    Ok(CloudVoiceService::new(k))
}

/// The language hint of a submitted sample: the one given, trimmed, or
/// `zh` when it is blank.
pub fn sample_language(language: &str) -> (r: String)
    ensures
        r@ == if trim(language@).len() == 0 {
            "zh"@
        } else {
            trim(language@)
        },
{
    let t = trimmed(language);
    if chars_of(t.as_str()).len() == 0 {
        owned("zh")
    } else {
        t
    }
}

/// Whether a cached approval status must be refreshed from the service
/// before a preview: everything except `ok`.
pub fn needs_live_status_check(status: Option<&str>) -> (r: bool)
    ensures
        r == !(status matches Some(s) && s@ == "ok"@),
{
    match status {
        Some(s) => !str_eq(s, "ok"),
        None => true,
    }
}

/// Whole seconds since the Unix epoch, or `None` when the clock is before it.
#[verifier::external_body]
fn unix_seconds_now() -> (r: Option<u64>) {
    match std::time::SystemTime::now().duration_since(std::time::UNIX_EPOCH) {
        Ok(d) => Some(d.as_secs()),
        Err(_) => None,
    }
}

/// The current Unix time in seconds as decimal text, or empty when the
/// clock is before the epoch.
pub fn unix_seconds_str() -> (r: String)
    ensures
        r@ == Seq::<char>::empty() || exists|n: u64| r@ == decimal(n as nat),
{
    match unix_seconds_now() {
        Some(n) => u64_to_string(n),
        None => String::new(),
    }
}

/// Whether the service has an API key and which models it offers.
#[derive(Debug, Clone)]
pub struct CosyvoiceConfig {
    pub api_key_configured: bool,
    pub models: Vec<String>,
}

/// A registered cloud voice as shown in the settings page.
#[derive(Debug, Clone)]
pub struct CosyVoiceView {
    pub voice_id: String,
    pub name: String,
    pub model: String,
    pub status: Option<String>,
}

/// Phase key of an enrollment in progress (`uploading`, `submitting`, ...).
#[derive(Debug, Clone)]
pub struct CosyvoiceProgress {
    pub phase: String,
}

/// `Uuid::new_v4().simple().to_string()`: a random UUID as 32 lowercase
/// hex digits. Which one is chance's business; only its form is stated.
#[verifier::external_body]
fn random_simple_uuid() -> (r: String)
    ensures
        r@.len() == 32,
        forall|i: int| 0 <= i < 32 ==> crate::scene::is_lower_hex(#[trigger] r@[i]),
{
    uuid::Uuid::new_v4().simple().to_string()
}

/// The name a sample is uploaded under.
pub open spec fn sample_name_spec(file_path: Seq<char>) -> Seq<char> {
    match crate::path::file_name_spec(file_path) {
        Some(n) => n,
        None => "sample.wav"@,
    }
}

/// The object key of an uploaded voice sample: the upload folder the
/// service granted, then eight random hex digits (so that two samples of
/// the same name do not overwrite each other), `-`, and the sample's file
/// name.
pub fn oss_object_key(upload_dir: &str, file_path: &str) -> (r: String)
    ensures
        exists|p: Seq<char>|
            #![trigger upload_dir@ + "/"@ + p]
            p.len() == 8 && (forall|i: int| 0 <= i < 8 ==> crate::scene::is_lower_hex(#[trigger] p[i]))
                && r@ == upload_dir@ + "/"@ + p + "-"@ + sample_name_spec(file_path@),
{
    let id = random_simple_uuid();
    let digits = chars_of(id.as_str());
    let prefix = vstd::slice::slice_to_vec(vstd::slice::slice_subrange(digits.as_slice(), 0, 8));
    let prefix_text = string_of(prefix.as_slice());
    let name = match crate::path::file_name(file_path) {
        Some(n) => n,
        None => owned("sample.wav"),
    };
    let mut key = owned(upload_dir);
    key.append("/");
    key.append(prefix_text.as_str());
    key.append("-");
    key.append(name.as_str());
    assert(prefix_text@ =~= digits@.subrange(0, 8));
    assert(upload_dir@ + "/"@ + prefix_text@ == upload_dir@ + "/"@ + prefix_text@);
    key
}

} // verus!

verus! {

/// The text of `doc[outer][inner]`, when that is a string.
pub open spec fn nested_str_spec(doc: Json, outer: Seq<char>, inner: Seq<char>) -> Option<Seq<char>> {
    match field_spec(doc, outer) {
        Some(o) => str_field_spec(o, inner),
        None => None,
    }
}

fn nested_str(doc: &Json, outer: &str, inner: &str) -> (r: Option<String>)
    ensures
        match nested_str_spec(*doc, outer@, inner@) {
            Some(s) => r matches Some(x) && x@ == s,
            None => r is None,
        },
{
    match field(doc, outer) {
        Some(o) => str_field(o, inner),
        None => None,
    }
}

/// The voice id of a `create_voice` answer (`output.voice_id`). `shown` is
/// the answer as printed, which the error quotes.
pub fn voice_id_of(resp: &Json, shown: &str) -> (r: Result<String, String>)
    ensures
        match nested_str_spec(*resp, "output"@, "voice_id"@) {
            Some(v) => r matches Ok(x) && x@ == v,
            None => r matches Err(e) && e@ == "create_voice 响应缺少 voice_id: "@ + shown@,
        },
{
    match nested_str(resp, "output", "voice_id") {
        Some(v) => Ok(v),
        None => Err(concat2("create_voice 响应缺少 voice_id: ", shown)),
    }
}

/// The status of a `query_voice` answer (`output.status`), lowercased.
/// `shown` is the answer as printed, which the error quotes.
pub fn voice_status_of(resp: &Json, shown: &str) -> (r: Result<String, String>)
    ensures
        match nested_str_spec(*resp, "output"@, "status"@) {
            Some(v) => r matches Ok(x) && x@ == lowercase(v),
            None => r matches Err(e) && e@ == "query_voice 响应缺少 status: "@ + shown@,
        },
{
    match nested_str(resp, "output", "status") {
        Some(v) => Ok(to_lowercase(v.as_str())),
        None => Err(concat2("query_voice 响应缺少 status: ", shown)),
    }
}

/// The upload credentials a `getPolicy` answer gives.
pub struct UploadPolicy {
    pub upload_host: String,
    pub upload_dir: String,
    pub policy: String,
    pub oss_access_key_id: String,
    pub signature: String,
    pub x_oss_object_acl: String,
    pub x_oss_forbid_overwrite: String,
}

/// The fields of a `getPolicy` answer, in the order they are read.
pub const POLICY_FIELDS: [&'static str; 7] = [
    "upload_host",
    "upload_dir",
    "policy",
    "oss_access_key_id",
    "signature",
    "x_oss_object_acl",
    "x_oss_forbid_overwrite",
];

/// The first field of `keys` that `data` lacks as a string.
pub open spec fn first_missing(data: Json, keys: Seq<&'static str>) -> Option<Seq<char>>
    decreases keys.len(),
{
    if keys.len() == 0 {
        None
    } else {
        match first_missing(data, keys.drop_last()) {
            Some(k) => Some(k),
            None => if str_field_spec(data, keys.last()@) is None {
                Some(keys.last()@)
            } else {
                None
            },
        }
    }
}

proof fn lemma_first_missing_prefix(data: Json, keys: Seq<&'static str>, k: int)
    requires
        0 <= k <= keys.len(),
        first_missing(data, keys.take(k)) is Some,
    ensures
        first_missing(data, keys) == first_missing(data, keys.take(k)),
    decreases keys.len(),
{
    if k < keys.len() {
        assert(keys.take(k) =~= keys.drop_last().take(k));
        lemma_first_missing_prefix(data, keys.drop_last(), k);
    } else {
        assert(keys.take(k) =~= keys);
    }
}

fn required_field(data: &Json, key: &str, shown: &str) -> (r: Result<String, String>)
    ensures
        match str_field_spec(*data, key@) {
            Some(v) => r matches Ok(x) && x@ == v,
            None => r matches Err(e) && e@ == "getPolicy 响应缺少 "@ + key@ + ": "@ + shown@,
        },
{
    match str_field(data, key) {
        Some(v) => Ok(v),
        None => {
            let mut e = concat3("getPolicy 响应缺少 ", key, ": ");
            e.append(shown);
            Err(e)
        },
    }
}

/// Reads the upload credentials; every field is required, and the first
/// one missing is reported. `shown` is the answer as printed.
pub fn policy_of(data: &Json, shown: &str) -> (r: Result<UploadPolicy, String>)
    ensures
        match first_missing(*data, POLICY_FIELDS@) {
            Some(k) => r matches Err(e) && e@ == "getPolicy 响应缺少 "@ + k + ": "@ + shown@,
            None => r matches Ok(p) && Some(p.upload_host@) == str_field_spec(*data, POLICY_FIELDS[0]@)
                && Some(p.upload_dir@) == str_field_spec(*data, POLICY_FIELDS[1]@)
                && Some(p.policy@) == str_field_spec(*data, POLICY_FIELDS[2]@)
                && Some(p.oss_access_key_id@) == str_field_spec(*data, POLICY_FIELDS[3]@)
                && Some(p.signature@) == str_field_spec(*data, POLICY_FIELDS[4]@)
                && Some(p.x_oss_object_acl@) == str_field_spec(*data, POLICY_FIELDS[5]@)
                && Some(p.x_oss_forbid_overwrite@) == str_field_spec(*data, POLICY_FIELDS[6]@),
        },
{
    let ghost keys = POLICY_FIELDS@;
    let mut vals: Vec<String> = Vec::new();
    let mut k: usize = 0;
    while k < 7
        invariant
            k <= 7,
            keys == POLICY_FIELDS@,
            vals@.len() == k,
            first_missing(*data, keys.take(k as int)) is None,
            forall|i: int| 0 <= i < k ==> Some((#[trigger] vals@[i])@) == str_field_spec(*data, keys[i]@),
        decreases 7 - k,
    {
        assert(keys.take(k + 1).drop_last() =~= keys.take(k as int));
        assert(keys.take(k + 1).last() == keys[k as int]);
        match required_field(data, POLICY_FIELDS[k], shown) {
            Ok(v) => vals.push(v),
            Err(e) => {
                proof {
                    lemma_first_missing_prefix(*data, keys, k + 1);
                }
                return Err(e);
            },
        }
        k += 1;
    }
    assert(keys.take(7) =~= keys);
    let x_oss_forbid_overwrite = vals.pop().unwrap();
    let x_oss_object_acl = vals.pop().unwrap();
    let signature = vals.pop().unwrap();
    let oss_access_key_id = vals.pop().unwrap();
    let policy = vals.pop().unwrap();
    let upload_dir = vals.pop().unwrap();
    let upload_host = vals.pop().unwrap();
    Ok(UploadPolicy {
        upload_host,
        upload_dir,
        policy,
        oss_access_key_id,
        signature,
        x_oss_object_acl,
        x_oss_forbid_overwrite,
    })
}

} // verus!
