//! Identities the player can take on.

use vstd::prelude::*;

use crate::text::{chars_of, owned, trim, trimmed};

verus! {

/// An identity with its profile (of the type the role store keeps).
#[derive(Debug, Clone)]
pub struct IdentityInfo<P> {
    pub role_id: i32,
    pub name: String,
    pub profile: P,
}

/// The entity the player currently speaks as.
#[derive(Debug, Clone)]
pub struct PossessedInfo {
    pub role_id: i32,
    pub name: String,
    pub subtitle: String,
}

/// The name an identity is created or renamed with: the one given,
/// trimmed; blank names are refused.
pub fn identity_name(name: &str) -> (r: Result<String, String>)
    ensures
        trim(name@).len() == 0 ==> (r matches Err(e) && e@ == "身份名称不能为空"@),
        trim(name@).len() > 0 ==> (r matches Ok(n) && n@ == trim(name@)),
{
    let t = trimmed(name);
    if chars_of(t.as_str()).len() == 0 {
        return Err(owned("身份名称不能为空"));
    }
    Ok(t)
}

} // verus!
