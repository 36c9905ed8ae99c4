//! Runtime facts the tool settings page shows, and the fly-brain game's
//! food settings.

use vstd::prelude::*;

use crate::live2d_auto::{lemma_name_lt_irreflexive, lemma_name_lt_transitive, name_lt, str_lt};
use crate::scene::string_views;

verus! {

/// What the tool settings page needs to tell a missing permission from a
/// model without native tool calls.
#[derive(Debug, Clone)]
pub struct ToolRuntimeInfo {
    pub platform: &'static str,
    pub model_configured: bool,
    pub native_tool_calls_supported: bool,
    pub command_available: bool,
    pub file_ops_app_sandbox_only: bool,
    pub registered_tool_count: usize,
    pub allowed_tools: Vec<String>,
}

/// How much food the fly-brain game starts with and holds at most.
#[derive(Debug, Clone, Copy)]
pub struct FlyBrainFoodConfigPayload {
    pub init_foods: Option<u32>,
    pub max_foods: Option<u32>,
}

/// The system the application was built for.
#[derive(Debug, Clone, Copy, PartialEq, Eq, Structural)]
pub enum TargetOs {
    Android,
    Ios,
    Windows,
    Macos,
    Linux,
}

/// Whether the system is a phone or tablet one, where commands cannot run
/// and files stay in the application's own folders.
pub open spec fn is_mobile(os: TargetOs) -> bool {
    os == TargetOs::Android || os == TargetOs::Ios
}

pub open spec fn platform_name_spec(os: TargetOs) -> Seq<char> {
    match os {
        TargetOs::Android => "android"@,
        TargetOs::Ios => "ios"@,
        TargetOs::Windows => "windows"@,
        TargetOs::Macos => "macos"@,
        TargetOs::Linux => "desktop"@,
    }
}

/// The platform as the settings page names it.
pub fn platform_name(os: TargetOs) -> (r: &'static str)
    ensures
        r@ == platform_name_spec(os),
{
    match os {
        TargetOs::Android => "android",
        TargetOs::Ios => "ios",
        TargetOs::Windows => "windows",
        TargetOs::Macos => "macos",
        TargetOs::Linux => "desktop",
    }
}

/// No name is listed after one that sorts before it.
pub open spec fn names_ascending(s: Seq<Seq<char>>) -> bool {
    forall|i: int, j: int| 0 <= i < j < s.len() ==> !name_lt(#[trigger] s[j], #[trigger] s[i])
}

/// The names in `String` order, each as often as given.
pub fn sort_names(names: Vec<String>) -> (r: Vec<String>)
    ensures
        names_ascending(string_views(r@)),
        r@.to_multiset() == names@.to_multiset(),
{
    let mut rest = names;
    let ghost all = rest@;
    let n: usize = rest.len();
    let mut r: Vec<String> = Vec::new();
    let mut k: usize = 0;
    assert(all.take(0) =~= r@);
    assert(all.subrange(0, all.len() as int) =~= all);
    while rest.len() > 0
        invariant
            k <= all.len(),
            all.len() == n,
            rest@ == all.subrange(k as int, all.len() as int),
            names_ascending(string_views(r@)),
            r@.to_multiset() == all.take(k as int).to_multiset(),
        decreases rest.len(),
    {
        let x = rest.remove(0);
        assert(x == all[k as int]);
        assert(rest@ =~= all.subrange(k + 1, all.len() as int));
        let ghost before = r@;
        let ghost bv = string_views(before);
        let mut pos: usize = 0;
        while pos < r.len() && !str_lt(x.as_str(), r[pos].as_str())
            invariant
                pos <= r@.len(),
                before == r@,
                bv == string_views(r@),
                forall|i: int| 0 <= i < pos ==> !name_lt(x@, #[trigger] bv[i]),
            decreases r.len() - pos,
        {
            pos += 1;
        }
        r.insert(pos, x);
        proof {
            let nv = string_views(r@);
            assert(r@ == before.insert(pos as int, x));
            assert(nv =~= bv.insert(pos as int, x@));
            assert forall|i: int, j: int| 0 <= i < j < nv.len() implies !name_lt(
                #[trigger] nv[j],
                #[trigger] nv[i],
            ) by {
                if j < pos {
                    assert(nv[i] == bv[i] && nv[j] == bv[j]);
                } else if i > pos {
                    assert(nv[i] == bv[i - 1] && nv[j] == bv[j - 1]);
                } else if j == pos {
                    assert(nv[i] == bv[i] && nv[j] == x@);
                } else if i == pos {
                    assert(nv[i] == x@ && nv[j] == bv[j - 1]);
                    if name_lt(nv[j], x@) {
                        assert(pos < before.len());
                        assert(name_lt(x@, bv[pos as int]));
                        lemma_name_lt_transitive(nv[j], x@, bv[pos as int]);
                        if j - 1 == pos {
                            lemma_name_lt_irreflexive(bv[pos as int]);
                        }
                    }
                } else {
                    assert(nv[i] == bv[i] && nv[j] == bv[j - 1]);
                }
            }
            assert(all.take(k + 1) =~= all.take(k as int).push(all[k as int]));
            vstd::seq_lib::to_multiset_insert(before, pos as int, x);
            vstd::seq_lib::to_multiset_build(all.take(k as int), all[k as int]);
        }
        k += 1;
    }
    assert(all.take(k as int) =~= all);
    r
}

/// The runtime facts: commands run and files range freely only off phones
/// and tablets; the allowed tools are listed in name order.
pub fn runtime_info(
    os: TargetOs,
    model_configured: bool,
    native_tool_calls_supported: bool,
    registered_tool_count: usize,
    allowed_tools: Vec<String>,
) -> (r: ToolRuntimeInfo)
    ensures
        r.platform@ == platform_name_spec(os),
        r.model_configured == model_configured,
        r.native_tool_calls_supported == native_tool_calls_supported,
        r.command_available == !is_mobile(os),
        r.file_ops_app_sandbox_only == is_mobile(os),
        r.registered_tool_count == registered_tool_count,
        names_ascending(string_views(r.allowed_tools@)),
        r.allowed_tools@.to_multiset() == allowed_tools@.to_multiset(),
{
    let mobile = match os {
        TargetOs::Android | TargetOs::Ios => true,
        _ => false,
    };
    ToolRuntimeInfo {
        platform: platform_name(os),
        model_configured,
        native_tool_calls_supported,
        command_available: !mobile,
        file_ops_app_sandbox_only: mobile,
        registered_tool_count,
        allowed_tools: sort_names(allowed_tools),
    }
}

} // verus!
