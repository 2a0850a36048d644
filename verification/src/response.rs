//! The outbound mapping from a verdict to an HTTP status code and body.

use vstd::prelude::*;
use crate::credentials::CredentialSubmission;
use crate::credentials::ReferenceCredential;
use crate::credentials::Verdict;
use crate::credentials::submission_matches;
use crate::credentials::verdict_of;
use crate::credentials::verify;

verus! {

/// The HTTP status that belongs to a verdict.
pub open spec fn status_of(v: Verdict) -> u16 {
    match v {
        Verdict::Authenticated => 200,
        Verdict::Rejected => 401,
    }
}

/// The response body owed to each verdict.
pub open spec fn body_of(v: Verdict) -> Seq<char> {
    match v {
        Verdict::Authenticated => "{\"status\":\"success\"}"@,
        Verdict::Rejected => "{\"status\":\"fail\"}"@,
    }
}

/// Encodes a verdict as its HTTP status code.
pub fn status_code(v: Verdict) -> (c: u16)
    ensures
        c == status_of(v),
{
    match v {
        Verdict::Authenticated => 200,
        Verdict::Rejected => 401,
    }
}

/// Encodes a verdict as its response body.
pub fn response_body(v: Verdict) -> (b: &'static str)
    ensures
        b@ == body_of(v),
{
    match v {
        Verdict::Authenticated => "{\"status\":\"success\"}",
        Verdict::Rejected => "{\"status\":\"fail\"}",
    }
}

/// The whole outcome for one submission: verdict, status code and body,
/// with status 200 exactly on a full credential match.
pub fn handle_login(
    submission: &CredentialSubmission,
    reference: &ReferenceCredential,
) -> (r: (Verdict, u16, &'static str))
    ensures
        r.0 == verdict_of(*submission, *reference),
        r.1 == status_of(r.0),
        r.2@ == body_of(r.0),
        r.1 == 200 <==> submission_matches(*submission, *reference),
{
    let v = verify(submission, reference);
    let c = status_code(v);
    let b = response_body(v);
    (v, c, b)
}

} // verus!
