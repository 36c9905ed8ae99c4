//! Starting with the system: the status the settings panel shows, how
//! stored settings are read back, and the decisions of a boot that brings
//! up an external voice service.

use vstd::prelude::*;

use crate::text::{owned, str_eq, trim, trimmed};

verus! {

/// Where autostart stands, for the settings panel and the start-up logic.
#[derive(Debug, Clone)]
pub struct AutostartStatus {
    /// Whether the system starts the application at login.
    pub system_enabled: bool,
    /// Whether an autostart enters pet mode.
    pub boot_as_pet: bool,
    /// The role a pet boot loads (empty: the last one).
    pub pet_role_id: String,
    /// The script that starts an external voice service (may be empty).
    pub tts_launcher_bat: String,
    /// Whether this start came from the system (`--autostart`).
    pub launched_by_autostart: bool,
    pub auto_play: bool,
    pub startup_pet_mode: bool,
    pub startup_greeting: bool,
    pub auto_start_tts: bool,
}

/// What an autostart boot did about the voice service.
#[derive(Debug, Clone)]
pub struct AutostartBootResult {
    pub tts_type: String,
    /// Whether the voice engine is the built-in one.
    pub embedded: bool,
    /// Whether the launcher script was run.
    pub launched: bool,
    /// Whether the service answers.
    pub ready: bool,
    pub error: Option<String>,
}

/// A stored setting as the store hands it back.
#[derive(Debug, Clone, PartialEq, Eq)]
pub enum StoredValue {
    Bool(bool),
    Text(String),
    /// A number, written out as the store writes it.
    Number(String),
    Other,
}

/// A flag: a stored boolean, or the text `true`; anything else, or
/// nothing, is off.
pub open spec fn stored_bool_spec(v: Option<StoredValue>) -> bool {
    match v {
        Some(StoredValue::Bool(b)) => b,
        Some(StoredValue::Text(s)) => s@ == "true"@,
        _ => false,
    }
}

pub fn stored_bool(v: Option<StoredValue>) -> (r: bool)
    ensures
        r == stored_bool_spec(v),
{
    match v {
        Some(StoredValue::Bool(b)) => b,
        Some(StoredValue::Text(s)) => str_eq(s.as_str(), "true"),
        _ => false,
    }
}

/// A text setting: stored text or a number (a role id may be stored as
/// one); anything else, or nothing, is empty.
pub open spec fn stored_string_spec(v: Option<StoredValue>) -> Seq<char> {
    match v {
        Some(StoredValue::Text(s)) => s@,
        Some(StoredValue::Number(n)) => n@,
        _ => Seq::<char>::empty(),
    }
}

pub fn stored_string(v: Option<StoredValue>) -> (r: String)
    ensures
        r@ == stored_string_spec(v),
{
    match v {
        Some(StoredValue::Text(s)) => s,
        Some(StoredValue::Number(n)) => n,
        _ => String::new(),
    }
}

/// Whether the process was started by the system: one of its arguments
/// is `--autostart`.
pub fn is_autostart_launch(args: &[String]) -> (r: bool)
    ensures
        r == exists|i: int| 0 <= i < args@.len() && (#[trigger] args@[i])@ == "--autostart"@,
{
    let mut i: usize = 0;
    while i < args.len()
        invariant
            i <= args@.len(),
            forall|j: int| 0 <= j < i ==> (#[trigger] args@[j])@ != "--autostart"@,
        decreases args.len() - i,
    {
        if str_eq(args[i].as_str(), "--autostart") {
            return true;
        }
        i += 1;
    }
    false
}

// ---------------------------------------------------------------------------
// Boot
// ---------------------------------------------------------------------------

/// The addresses of the external voice services, by voice type.
#[derive(Debug, Clone)]
pub struct TtsServiceUrls {
    pub simple_vits: String,
    pub sbv2: String,
    pub sbv2api: String,
    pub bv2: String,
    pub gsv: String,
    pub aivis: String,
    pub indextts: String,
    pub opentts: String,
    pub fish_s2: String,
}

pub open spec fn service_url_of(urls: TtsServiceUrls, tts_type: Seq<char>) -> Option<Seq<char>> {
    if tts_type == "sva-vits"@ {
        Some(urls.simple_vits@)
    } else if tts_type == "sbv2"@ {
        Some(urls.sbv2@)
    } else if tts_type == "sbv2api"@ {
        Some(urls.sbv2api@)
    } else if tts_type == "sva-bv2"@ {
        Some(urls.bv2@)
    } else if tts_type == "gsv"@ {
        Some(urls.gsv@)
    } else if tts_type == "aivis"@ {
        Some(urls.aivis@)
    } else if tts_type == "indextts2"@ {
        Some(urls.indextts@)
    } else if tts_type == "opentts"@ {
        Some(urls.opentts@)
    } else if tts_type == "fishs2"@ {
        Some(urls.fish_s2@)
    } else {
        None
    }
}

/// The address probed for a voice type: its service's, unless blank.
pub open spec fn probe_url_spec(urls: TtsServiceUrls, tts_type: Seq<char>) -> Option<Seq<char>> {
    match service_url_of(urls, tts_type) {
        Some(u) => if trim(u).len() == 0 {
            None
        } else {
            Some(u)
        },
        None => None,
    }
}

pub fn resolve_probe_url(urls: &TtsServiceUrls, tts_type: &str) -> (r: Option<String>)
    ensures
        match probe_url_spec(*urls, tts_type@) {
            Some(u) => r matches Some(x) && x@ == u,
            None => r is None,
        },
{
    let url = if str_eq(tts_type, "sva-vits") {
        &urls.simple_vits
    } else if str_eq(tts_type, "sbv2") {
        &urls.sbv2
    } else if str_eq(tts_type, "sbv2api") {
        &urls.sbv2api
    } else if str_eq(tts_type, "sva-bv2") {
        &urls.bv2
    } else if str_eq(tts_type, "gsv") {
        &urls.gsv
    } else if str_eq(tts_type, "aivis") {
        &urls.aivis
    } else if str_eq(tts_type, "indextts2") {
        &urls.indextts
    } else if str_eq(tts_type, "opentts") {
        &urls.opentts
    } else if str_eq(tts_type, "fishs2") {
        &urls.fish_s2
    } else {
        return None;
    };
    let t = trimmed(url.as_str());
    if crate::text::chars_of(t.as_str()).len() == 0 {
        None
    } else {
        Some(url.clone())
    }
}

/// What the boot does next.
#[derive(Debug, Clone)]
pub enum BootAction {
    /// Probe the service `attempts` times, two seconds apart.
    Probe { url: String, attempts: u32 },
    /// Run the launcher script.
    Launch { script: String },
    /// Refresh the voice engine, then answer.
    RefreshThenFinish(AutostartBootResult),
    /// Answer.
    Finish(AutostartBootResult),
}

pub const STILL_STARTING: &'static str = "语音服务可能仍在启动，稍后会自动重试";

pub open spec fn is_embedded_spec(tts_type: Seq<char>) -> bool {
    tts_type.len() == 0 || tts_type == "localsbv2api"@
}

pub open spec fn result_is(
    r: AutostartBootResult,
    tts_type: Seq<char>,
    embedded: bool,
    launched: bool,
    ready: bool,
) -> bool {
    &&& r.tts_type@ == tts_type
    &&& r.embedded == embedded
    &&& r.launched == launched
    &&& r.ready == ready
    &&& if launched && !ready {
        r.error matches Some(e) && e@ == STILL_STARTING@
    } else {
        r.error is None
    }
}

fn boot_result(tts_type: &str, embedded: bool, launched: bool, ready: bool) -> (r:
    AutostartBootResult)
    ensures
        result_is(r, tts_type@, embedded, launched, ready),
{
    AutostartBootResult {
        tts_type: owned(tts_type),
        embedded,
        launched,
        ready,
        error: if launched && !ready {
            Some(owned(STILL_STARTING))
        } else {
            None
        },
    }
}

/// The first step: the built-in engine, or no launcher script, needs
/// nothing and is ready; otherwise the service is probed once to see
/// whether it already runs (without an address to probe, it is taken as
/// not running and launched).
pub fn boot_start(tts_type: &str, launcher: &str, probe_url: Option<String>) -> (r: BootAction)
    ensures
        is_embedded_spec(tts_type@) ==> (r matches BootAction::Finish(res) && result_is(
            res,
            tts_type@,
            true,
            false,
            true,
        )),
        !is_embedded_spec(tts_type@) && trim(launcher@).len() == 0 ==> (r matches BootAction::Finish(
            res,
        ) && result_is(res, tts_type@, false, false, true)),
        !is_embedded_spec(tts_type@) && trim(launcher@).len() > 0 ==> match probe_url {
            Some(u) => r matches BootAction::Probe { url, attempts } && url == u && attempts == 1,
            None => r matches BootAction::Launch { script } && script@ == trim(launcher@),
        },
{
    let tv = crate::text::chars_of(tts_type);
    if tv.len() == 0 || str_eq(tts_type, "localsbv2api") {
        return BootAction::Finish(boot_result(tts_type, true, false, true));
    }
    let script = trimmed(launcher);
    if crate::text::chars_of(script.as_str()).len() == 0 {
        return BootAction::Finish(boot_result(tts_type, false, false, true));
    }
    match probe_url {
        Some(url) => BootAction::Probe { url, attempts: 1 },
        None => BootAction::Launch { script },
    }
}

/// After the first probe: a running service is refreshed and used as it
/// is; otherwise the launcher runs.
pub fn boot_after_probe(tts_type: &str, launcher: &str, running: bool) -> (r: BootAction)
    ensures
        running ==> (r matches BootAction::RefreshThenFinish(res) && result_is(
            res,
            tts_type@,
            false,
            false,
            true,
        )),
        !running ==> (r matches BootAction::Launch { script } && script@ == trim(launcher@)),
{
    if running {
        BootAction::RefreshThenFinish(boot_result(tts_type, false, false, true))
    } else {
        BootAction::Launch { script: trimmed(launcher) }
    }
}

/// After the launch: the service is probed up to five times; without an
/// address it cannot be, and the boot ends not ready.
pub fn boot_after_launch(tts_type: &str, probe_url: Option<String>) -> (r: BootAction)
    ensures
        match probe_url {
            Some(u) => r matches BootAction::Probe { url, attempts } && url == u && attempts == 5,
            None => r matches BootAction::Finish(res) && result_is(res, tts_type@, false, true, false),
        },
{
    match probe_url {
        Some(url) => BootAction::Probe { url, attempts: 5 },
        None => BootAction::Finish(boot_result(tts_type, false, true, false)),
    }
}

/// After the service was waited for: ready means refresh and answer;
/// otherwise the answer says it may still be starting.
pub fn boot_after_wait(tts_type: &str, ready: bool) -> (r: BootAction)
    ensures
        ready ==> (r matches BootAction::RefreshThenFinish(res) && result_is(
            res,
            tts_type@,
            false,
            true,
            true,
        )),
        !ready ==> (r matches BootAction::Finish(res) && result_is(res, tts_type@, false, true, false)),
{
    if ready {
        BootAction::RefreshThenFinish(boot_result(tts_type, false, true, true))
    } else {
        BootAction::Finish(boot_result(tts_type, false, true, false))
    }
}


/// The next step once a probe has answered (`answered`) or given up: before
/// the launcher ran, a running service finishes the boot and a silent one
/// gets launched; after it ran, the wait's outcome decides.
pub fn boot_after_answer(tts_type: &str, launcher: &str, launched: bool, answered: bool) -> (r: BootAction)
    ensures
        launched && answered ==> (r matches BootAction::RefreshThenFinish(res) && result_is(
            res,
            tts_type@,
            false,
            true,
            true,
        )),
        launched && !answered ==> (r matches BootAction::Finish(res) && result_is(res, tts_type@, false, true, false)),
        !launched && answered ==> (r matches BootAction::RefreshThenFinish(res) && result_is(
            res,
            tts_type@,
            false,
            false,
            true,
        )),
        !launched && !answered ==> (r matches BootAction::Launch { script } && script@ == trim(launcher@)),
{
    if launched {
        boot_after_wait(tts_type, answered)
    } else {
        boot_after_probe(tts_type, launcher, answered)
    }
}

} // verus!
