//! Decision helpers for the control process: what to do after querying
//! the daemon's authentication state, and how the registration prompt
//! reads a confirmation line.  The socket traffic and the prompting stay
//! in the surrounding binary.

use vstd::prelude::*;
use vstd::string::StringSliceAdditionalSpecFns;
use crate::bytes::bytes_eq_str;

verus! {

/// What the control process should do after reading the daemon's
/// authentication state.
#[derive(Clone, Copy, PartialEq, Eq, Structural, Debug)]
pub enum EnsureAuth {
    /// Both the session flag and the durable bit are set: nothing to do.
    AlreadyAuthenticated,
    /// The durable bit is set but the session is not confirmed: retry the
    /// authentication.
    RetryNeeded,
    /// The durable bit is clear: the caller must authenticate first.
    NotAuthenticated,
}

/// The decision from the two authentication flags.
pub open spec fn spec_ensure_auth(auth: bool, auth_bit: bool) -> EnsureAuth {
    if auth && auth_bit {
        EnsureAuth::AlreadyAuthenticated
    } else if !auth && auth_bit {
        EnsureAuth::RetryNeeded
    } else {
        EnsureAuth::NotAuthenticated
    }
}

pub fn ensure_auth_decision(auth: bool, auth_bit: bool) -> (r: EnsureAuth)
    ensures
        r == spec_ensure_auth(auth, auth_bit),
{
    if auth && auth_bit {
        EnsureAuth::AlreadyAuthenticated
    } else if !auth && auth_bit {
        EnsureAuth::RetryNeeded
    } else {
        EnsureAuth::NotAuthenticated
    }
}

/// What a confirmation line answers: yes, no, or neither.
pub open spec fn spec_confirm_line(s: Seq<u8>) -> Option<bool> {
    if s == "Y\n".spec_bytes() || s == "y\n".spec_bytes() || s == "yes\n".spec_bytes() {
        Some(true)
    } else if s == "N\n".spec_bytes() || s == "n\n".spec_bytes() || s == "no\n".spec_bytes() {
        Some(false)
    } else {
        None
    }
}

/// Read one answer of the registration prompt: an affirmative or negative
/// line, newline included, exactly as the terminal delivers it.
pub fn confirm_line(s: &str) -> (r: Option<bool>)
    ensures
        r == spec_confirm_line(s.spec_bytes()),
{
    let b = s.as_bytes();
    if bytes_eq_str(b, "Y\n") || bytes_eq_str(b, "y\n") || bytes_eq_str(b, "yes\n") {
        Some(true)
    } else if bytes_eq_str(b, "N\n") || bytes_eq_str(b, "n\n") || bytes_eq_str(b, "no\n") {
        Some(false)
    } else {
        None
    }
}

} // verus!
