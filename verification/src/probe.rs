//! Interpretation of the mount-table query's outcome.
//!
//! The query is treated as successful only when the tool exits successfully;
//! a non-success exit is deliberately read as "not mounted", never as an
//! error, so a transient query failure is indistinguishable from an absent
//! mount.

use vstd::prelude::*;
use crate::text::trim;
use crate::text::trimmed;

verus! {

/// The mount target reported by the query: the trimmed captured output when
/// the tool exited successfully and reported a non-empty target, and nothing
/// otherwise.
pub open spec fn spec_probe_target(success: bool, stdout: Seq<char>) -> Option<Seq<char>> {
    if success && trimmed(stdout).len() > 0 {
        Some(trimmed(stdout))
    } else {
        None
    }
}

/// Interprets the exit status and captured output of the mount-table query.
pub fn probe_target(success: bool, stdout: &str) -> (r: Option<String>)
    ensures
        r is Some <==> spec_probe_target(success, stdout@) is Some,
        r matches Some(t) ==> Some(t@) == spec_probe_target(success, stdout@),
{
    if success {
        let t = trim(stdout);
        if t.as_str().is_empty() {
            None
        } else {
            Some(t)
        }
    } else {
        None
    }
}

} // verus!
