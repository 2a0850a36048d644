//! The core decision: does a submission match the reference credential?

use vstd::prelude::*;

verus! {

/// The username/password pair received in one verification attempt.
pub struct CredentialSubmission {
    pub username: String,
    pub password: String,
}

/// The single fixed username/password pair the system is configured to
/// accept. Shared read-only across requests; never mutated.
pub struct ReferenceCredential {
    pub username: String,
    pub password: String,
}

/// The binary outcome of a verification attempt. Carries no payload
/// beyond the tag.
#[derive(PartialEq, Eq, Structural, Clone, Copy, Debug)]
pub enum Verdict {
    Authenticated,
    Rejected,
}

/// A submission matches the reference exactly when both fields are equal,
/// character for character: exact and case-sensitive, with no partial credit.
pub open spec fn submission_matches(
    submission: CredentialSubmission,
    reference: ReferenceCredential,
) -> bool {
    &&& submission.username@ == reference.username@
    &&& submission.password@ == reference.password@
}

/// The verdict owed to a submission: `Authenticated` exactly on a full
/// match, `Rejected` otherwise.
pub open spec fn verdict_of(
    submission: CredentialSubmission,
    reference: ReferenceCredential,
) -> Verdict {
    if submission_matches(submission, reference) {
        Verdict::Authenticated
    } else {
        Verdict::Rejected
    }
}

/// Decides whether `submission` matches `reference`. Total over all inputs,
/// free of side effects: the verdict is a function of the two arguments
/// alone.
pub fn verify(
    submission: &CredentialSubmission,
    reference: &ReferenceCredential,
) -> (v: Verdict)
    ensures
        v == verdict_of(*submission, *reference),
        v == Verdict::Authenticated <==> submission_matches(*submission, *reference),
{
    if submission.username == reference.username && submission.password == reference.password {
        Verdict::Authenticated
    } else {
        Verdict::Rejected
    }
}

/// Verification is deterministic: two submissions that hold the same
/// characters draw the same verdict from an unchanged reference, so
/// repeating a call can never change the outcome, and concurrent calls
/// each see the verdict the single-threaded case would give.
pub proof fn lemma_verify_deterministic(
    first: CredentialSubmission,
    second: CredentialSubmission,
    reference: ReferenceCredential,
)
    requires
        first.username@ == second.username@,
        first.password@ == second.password@,
    ensures
        verdict_of(first, reference) == verdict_of(second, reference),
{
}

} // verus!
