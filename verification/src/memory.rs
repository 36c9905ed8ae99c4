//! The memory inspector: which roles it offers and what it says of their
//! memory runtime.

use vstd::prelude::*;

use crate::types::LlmMessage;

verus! {

#[derive(Debug, Clone)]
pub struct MemoryDebugRole {
    pub role_id: i32,
    pub display_name: Option<String>,
    pub runtime_present: bool,
    pub runtime_note: Option<&'static str>,
    pub enabled: Option<bool>,
}

#[derive(Debug, Clone)]
pub struct MemoryDebugOverview {
    pub active_save_id: Option<i32>,
    pub active_save_persistent: bool,
    pub current_role_id: Option<i32>,
    pub roles_from_onstage: bool,
    pub roles: Vec<MemoryDebugRole>,
}

/// A role's memory as the inspector shows it; `S` is the runtime's own
/// snapshot type.
#[derive(Debug, Clone)]
pub struct RoleMemorySnapshot<S> {
    pub role_id: i32,
    pub display_name: Option<String>,
    pub runtime: S,
    pub context: Vec<LlmMessage>,
}

/// Why a role has no memory runtime, or has it switched off: none when it
/// runs; the global switch when it is off; no configured model; or not
/// synced yet.
pub open spec fn runtime_note_spec(enabled: Option<bool>, llm_ready: bool) -> Option<Seq<char>> {
    match enabled {
        Some(true) => None,
        Some(false) => Some("global_switch_off"@),
        None => if !llm_ready {
            Some("no_llm_configured"@)
        } else {
            Some("not_synced_yet"@)
        },
    }
}

pub fn runtime_note(enabled: Option<bool>, llm_ready: bool) -> (r: Option<&'static str>)
    ensures
        match runtime_note_spec(enabled, llm_ready) {
            Some(n) => r matches Some(x) && x@ == n,
            None => r is None,
        },
{
    match enabled {
        Some(true) => None,
        Some(false) => Some("global_switch_off"),
        None => if !llm_ready {
            Some("no_llm_configured")
        } else {
            Some("not_synced_yet")
        },
    }
}

pub fn debug_role(role_id: i32, display_name: Option<String>, enabled: Option<bool>, llm_ready: bool) -> (r:
    MemoryDebugRole)
    ensures
        r.role_id == role_id,
        r.display_name == display_name,
        r.runtime_present == enabled is Some,
        r.enabled == enabled,
        match runtime_note_spec(enabled, llm_ready) {
            Some(n) => r.runtime_note matches Some(x) && x@ == n,
            None => r.runtime_note is None,
        },
{
    MemoryDebugRole {
        role_id,
        display_name,
        runtime_present: enabled.is_some(),
        runtime_note: runtime_note(enabled, llm_ready),
        enabled,
    }
}

pub open spec fn ascending(s: Seq<i32>) -> bool {
    forall|i: int, j: int| 0 <= i < j < s.len() ==> s[i] <= s[j]
}

/// The ids in ascending order (the same ids, each as often as given).
pub fn sorted_ids(ids: Vec<i32>) -> (r: Vec<i32>)
    ensures
        ascending(r@),
        r@.to_multiset() == ids@.to_multiset(),
{
    let mut r: Vec<i32> = Vec::new();
    let mut k: usize = 0;
    assert(ids@.take(0) =~= r@);
    while k < ids.len()
        invariant
            k <= ids@.len(),
            ascending(r@),
            r@.to_multiset() == ids@.take(k as int).to_multiset(),
        decreases ids.len() - k,
    {
        let x = ids[k];
        let mut pos: usize = 0;
        while pos < r.len() && r[pos] <= x
            invariant
                pos <= r@.len(),
                forall|i: int| 0 <= i < pos ==> #[trigger] r@[i] <= x,
            decreases r.len() - pos,
        {
            pos += 1;
        }
        let ghost before = r@;
        r.insert(pos, x);
        proof {
            assert(r@ == before.insert(pos as int, x));
            assert forall|i: int, j: int| 0 <= i < j < r@.len() implies #[trigger] r@[i] <= #[trigger] r@[j] by {
                if j < pos {
                    assert(r@[i] == before[i] && r@[j] == before[j]);
                } else if i > pos {
                    assert(r@[i] == before[i - 1] && r@[j] == before[j - 1]);
                } else if j == pos {
                    assert(r@[i] == before[i]);
                } else if i == pos {
                    assert(r@[j] == before[j - 1]);
                    assert(x < before[pos as int]);
                } else {
                    assert(r@[i] == before[i] && r@[j] == before[j - 1]);
                }
            }
            assert(ids@.take(k + 1) =~= ids@.take(k as int).push(ids@[k as int]));
            vstd::seq_lib::to_multiset_insert(before, pos as int, x);
            vstd::seq_lib::to_multiset_build(ids@.take(k as int), ids@[k as int]);
        }
        k += 1;
    }
    assert(ids@.take(ids.len() as int) =~= ids@);
    r
}

/// The roles to inspect: those on stage, in their stage order, when there
/// are any; else those present, in ascending id order. The flag says which.
pub fn inspected_role_ids(onstage: Vec<i32>, present: Vec<i32>) -> (r: (Vec<i32>, bool))
    ensures
        onstage@.len() > 0 ==> r.0@ == onstage@ && r.1,
        onstage@.len() == 0 ==> {
            &&& ascending(r.0@)
            &&& r.0@.to_multiset() == present@.to_multiset()
            &&& !r.1
        },
{
    if onstage.len() > 0 {
        (onstage, true)
    } else {
        (sorted_ids(present), false)
    }
}

pub fn overview(
    active_save_id: Option<i32>,
    current_role_id: Option<i32>,
    roles_from_onstage: bool,
    roles: Vec<MemoryDebugRole>,
) -> (r: MemoryDebugOverview)
    ensures
        r.active_save_id == active_save_id,
        r.active_save_persistent == active_save_id is Some,
        r.current_role_id == current_role_id,
        r.roles_from_onstage == roles_from_onstage,
        r.roles == roles,
{
    MemoryDebugOverview {
        active_save_id,
        active_save_persistent: active_save_id.is_some(),
        current_role_id,
        roles_from_onstage,
        roles,
    }
}

} // verus!
