//! Signing in to Codex: what the settings panel is told of the stored
//! credential and of a pending device login.

use vstd::prelude::*;

use crate::text::owned;

verus! {

/// Whether a credential is stored, and whose it is.
#[derive(Debug, Clone)]
pub struct CodexAuthStatus {
    pub logged_in: bool,
    pub account_id: Option<String>,
    pub expires: Option<i64>,
}

/// Where a device login stands: `pending`, `slow_down` or `complete`.
#[derive(Debug, Clone)]
pub struct CodexPollStatus {
    pub status: String,
    pub account_id: Option<String>,
}

/// The parts of a stored credential the panel shows.
#[derive(Debug, Clone)]
pub struct CodexCredential {
    pub account_id: String,
    pub expires: i64,
}

/// What one poll of a device login returned.
#[derive(Debug, Clone)]
pub enum PollOutcome {
    Pending,
    SlowDown,
    /// Signed in, as this account.
    Complete(String),
}

pub fn auth_status(credential: Option<CodexCredential>) -> (r: CodexAuthStatus)
    ensures
        match credential {
            Some(c) => r.logged_in && r.account_id == Some(c.account_id) && r.expires == Some(
                c.expires,
            ),
            None => !r.logged_in && r.account_id is None && r.expires is None,
        },
{
    match credential {
        Some(c) => CodexAuthStatus {
            logged_in: true,
            account_id: Some(c.account_id),
            expires: Some(c.expires),
        },
        None => CodexAuthStatus { logged_in: false, account_id: None, expires: None },
    }
}

pub fn poll_status(outcome: PollOutcome) -> (r: CodexPollStatus)
    ensures
        match outcome {
            PollOutcome::Pending => r.status@ == "pending"@ && r.account_id is None,
            PollOutcome::SlowDown => r.status@ == "slow_down"@ && r.account_id is None,
            PollOutcome::Complete(a) => r.status@ == "complete"@ && r.account_id == Some(a),
        },
{
    match outcome {
        PollOutcome::Pending => CodexPollStatus { status: owned("pending"), account_id: None },
        PollOutcome::SlowDown => CodexPollStatus { status: owned("slow_down"), account_id: None },
        PollOutcome::Complete(a) => CodexPollStatus {
            status: owned("complete"),
            account_id: Some(a),
        },
    }
}

} // verus!
