//! Verification results returned by policy, quota, invariant and approval checks.

use vstd::prelude::*;
use crate::json::{Json, copy_json};

verus! {

/// The character sequences held by a sequence of strings.
pub open spec fn strs(v: Seq<String>) -> Seq<Seq<char>> {
    v.map_values(|s: String| s@)
}

/// Copies a list of strings.
pub fn copy_strings(v: &[String]) -> (r: Vec<String>)
    ensures
        strs(r@) == strs(v@),
        r@.len() == v@.len(),
{
    let mut out: Vec<String> = Vec::new();
    let mut i: usize = 0;
    while i < v.len()
        invariant
            i <= v@.len(),
            out@.len() == i,
            forall|j: int| 0 <= j < i ==> #[trigger] out@[j]@ == v@[j]@,
        decreases v@.len() - i,
    {
        out.push(v[i].clone());
        i = i + 1;
    }
    assert(strs(out@) =~= strs(v@));
    out
}

/// Outcome of a verifier: whether the checked operation may proceed, the
/// reason codes for a denial, and structured evidence.
#[derive(Debug)]
pub struct VerificationResult {
    pub allowed: bool,
    pub reasons: Vec<String>,
    pub artifacts: Json,
}

impl VerificationResult {
    /// A result that allows the operation, with no reasons and no evidence.
    pub fn allow() -> (r: VerificationResult)
        ensures
            r.allowed,
            r.reasons@.len() == 0,
            r.artifacts is Null,
    {
        VerificationResult { allowed: true, reasons: Vec::new(), artifacts: Json::Null }
    }

    /// A result that denies the operation with one reason code.
    pub fn deny(reason: &str) -> (r: VerificationResult)
        ensures
            !r.allowed,
            strs(r.reasons@) == seq![reason@],
            r.artifacts is Null,
    {
        let mut reasons: Vec<String> = Vec::new();
        reasons.push(String::from_str(reason));
        proof {
            assert(strs(reasons@) =~= seq![reason@]);
        }
        VerificationResult { allowed: false, reasons, artifacts: Json::Null }
    }

    /// Copies this result.
    pub fn duplicate(&self) -> (r: VerificationResult)
        ensures
            r.allowed == self.allowed,
            strs(r.reasons@) == strs(self.reasons@),
            crate::json::json_same(r.artifacts, self.artifacts),
            r.artifacts is Null == self.artifacts is Null,
            r.artifacts is Object == self.artifacts is Object,
    {
        VerificationResult {
            allowed: self.allowed,
            reasons: copy_strings(&self.reasons),
            artifacts: copy_json(&self.artifacts),
        }
    }
}

impl Clone for VerificationResult {
    fn clone(&self) -> (r: Self)
        ensures
            r.allowed == self.allowed,
            strs(r.reasons@) == strs(self.reasons@),
            crate::json::json_same(r.artifacts, self.artifacts),
    {
        self.duplicate()
    }
}

} // verus!
