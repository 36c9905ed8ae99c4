//! Lighting control: how a request for a preset or explicit parameters is
//! resolved, and the state the panel reads back. The parameters are of the
//! scene store's own type, `P` here.

use vstd::prelude::*;

use crate::text::{chars_of, owned};

verus! {

/// A request from the panel: a preset, explicit parameters, or both.
#[derive(Debug, Clone)]
pub struct ApplyLightingRequest<P> {
    pub preset: Option<String>,
    pub params: Option<P>,
}

/// What the panel reads back.
#[derive(Debug, Clone)]
pub struct LightingState<P> {
    pub override_params: Option<P>,
    pub override_preset: Option<String>,
    pub override_source: String,
    pub active_preset: Option<String>,
    pub active_source: String,
    pub current_scene_id: Option<String>,
}

/// The front end reporting which preset is on screen.
#[derive(Debug, Clone)]
pub struct ReportLightingActiveRequest {
    pub preset: Option<String>,
    pub source: String,
}

/// A runtime override of the scene's lighting.
#[derive(Debug, Clone)]
pub struct LightingOverride<P> {
    pub preset: Option<String>,
    pub params: Option<P>,
}

pub open spec fn unknown_preset_message(preset: Seq<char>) -> Seq<char> {
    "未知光影预设: "@ + preset + "；可用值见 lighting_list_presets 工具返回值"@
}

pub const NOTHING_REQUESTED: &'static str = "lighting_apply 需要 preset 或 params";

/// Resolves an override, given what its parameters resolve to and, for a
/// preset, the canonical spelling of its id (when the id is known). The
/// preset is kept in canonical spelling so that the panel highlights it.
pub fn resolve_request<P>(
    requested: &LightingOverride<P>,
    resolved: Option<P>,
    canonical_preset: Option<String>,
) -> (r: Result<(Option<String>, P), String>)
    ensures
        match resolved {
            None => match requested.preset {
                Some(p) => r matches Err(e) && e@ == unknown_preset_message(p@),
                None => r matches Err(e) && e@ == NOTHING_REQUESTED@,
            },
            Some(params) => r matches Ok((preset, q)) && q == params && match requested.preset {
                None => preset is None,
                Some(raw) => preset matches Some(x) && x@ == match canonical_preset {
                    Some(c) => c@,
                    None => raw@,
                },
            },
        },
{
    let params = match resolved {
        Some(p) => p,
        None => {
            return match &requested.preset {
                Some(preset) => {
                    let mut m = owned("未知光影预设: ");
                    m.append(preset.as_str());
                    m.append("；可用值见 lighting_list_presets 工具返回值");
                    Err(m)
                },
                None => Err(owned(NOTHING_REQUESTED)),
            };
        },
    };
    let preset = match &requested.preset {
        None => None,
        Some(raw) => match canonical_preset {
            Some(c) => Some(c),
            None => Some(raw.clone()),
        },
    };
    Ok((preset, params))
}

/// An empty preset counts as none.
pub open spec fn non_empty(s: Option<String>) -> Option<String> {
    match s {
        Some(x) => if x@.len() > 0 {
            Some(x)
        } else {
            None
        },
        None => None,
    }
}

pub fn drop_empty(s: Option<String>) -> (r: Option<String>)
    ensures
        r == non_empty(s),
{
    match s {
        Some(x) => {
            if chars_of(x.as_str()).len() > 0 {
                Some(x)
            } else {
                None
            }
        },
        None => None,
    }
}

/// The override a panel request asks for: none when it names neither a
/// (non-empty) preset nor parameters.
pub fn requested_override<P>(req: ApplyLightingRequest<P>) -> (r: Option<LightingOverride<P>>)
    ensures
        (non_empty(req.preset) is None && req.params is None) ==> r is None,
        !(non_empty(req.preset) is None && req.params is None) ==> (r matches Some(o) && o.preset
            == non_empty(req.preset) && o.params == req.params),
{
    let preset = drop_empty(req.preset);
    if preset.is_none() && req.params.is_none() {
        None
    } else {
        Some(LightingOverride { preset, params: req.params })
    }
}

/// The preset the front end reports as active (none for an empty one).
pub fn reported_preset(req: ReportLightingActiveRequest) -> (r: Option<String>)
    ensures
        r == non_empty(req.preset),
{
    drop_empty(req.preset)
}

} // verus!
