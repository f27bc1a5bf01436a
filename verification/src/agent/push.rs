//! Pushing metrics to the server: where they go, how an answer is judged, and
//! when a failed push is tried again.
use vstd::prelude::*;
use crate::text::{concat, contains, contains_seq, owned};

verus! {

/// Attempts made for one push before giving up.
pub const PUSH_ATTEMPTS: u32 = 3;

/// The backoff before the second attempt, in milliseconds; it doubles after
/// each failure.
pub const BASE_BACKOFF_MS: u64 = 200;

/// The endpoint metrics are posted to, under the server's base URL.
pub open spec fn spec_push_url(base: Seq<char>) -> Seq<char> {
    base + "/api/v1/metrics/batch"@
}

/// The URL a batch of metrics is posted to.
pub fn push_url(base: &str) -> (r: String)
    ensures
        r@ == spec_push_url(base@),
{
    concat(base, "/api/v1/metrics/batch")
}

/// How the server answered a push.
#[derive(Debug, Clone, PartialEq, Eq)]
pub enum PushVerdict {
    /// A success status: the batch was taken.
    Accepted,
    /// The server refused the batch itself; trying again will not help.
    Rejected(String),
    /// Any other failure status.
    Failed(String),
}

/// A status the server gives for a batch it will never take: bad request,
/// unauthorized, forbidden, payload too large.
pub open spec fn is_rejection(code: u16) -> bool {
    code == 400 || code == 401 || code == 403 || code == 413
}

/// What a push answered with `code` means. `status` is the status as
/// displayed (code and reason), `body` the response text.
pub open spec fn verdict_matches(v: PushVerdict, code: u16, status: Seq<char>, body: Seq<char>) -> bool {
    if 200 <= code && code <= 299 {
        v == PushVerdict::Accepted
    } else if is_rejection(code) {
        v matches PushVerdict::Rejected(m) && m@ == "metrics push rejected: "@ + status + " "@ + body
    } else {
        v matches PushVerdict::Failed(m) && m@ == "metrics push failed: "@ + status + " "@ + body
    }
}

/// Judges the server's answer to a push.
pub fn push_verdict(code: u16, status: &str, body: &str) -> (v: PushVerdict)
    ensures
        verdict_matches(v, code, status@, body@),
{
    if 200 <= code && code <= 299 {
        return PushVerdict::Accepted;
    }
    let rejected = code == 400 || code == 401 || code == 403 || code == 413;
    let lead = if rejected {
        "metrics push rejected: "
    } else {
        "metrics push failed: "
    };
    let a = concat(lead, status);
    let b = concat(a.as_str(), " ");
    let m = concat(b.as_str(), body);
    if rejected {
        PushVerdict::Rejected(m)
    } else {
        PushVerdict::Failed(m)
    }
}

/// What to do after a failed attempt.
#[derive(Debug, Clone, Copy, PartialEq, Eq)]
pub enum RetryAction {
    /// Give up and report this failure.
    Stop,
    /// Wait this many milliseconds, then try again.
    Backoff(u64),
}

/// `2^n`.
pub open spec fn pow2(n: nat) -> nat
    decreases n,
{
    if n == 0 {
        1
    } else {
        2 * pow2((n - 1) as nat)
    }
}

/// After failed attempt `attempt` (counting from 0) with error text
/// `message`: a rejection, or the last of the three attempts, stops;
/// otherwise the next attempt comes after 200 ms, doubled per failure.
pub open spec fn spec_after_failed_push(attempt: u32, message: Seq<char>) -> RetryAction {
    if contains_seq(message, "push rejected"@) || attempt + 1 >= PUSH_ATTEMPTS {
        RetryAction::Stop
    } else {
        RetryAction::Backoff((BASE_BACKOFF_MS * pow2(attempt as nat)) as u64)
    }
}

/// Decides what follows failed attempt `attempt` whose error reads `message`.
pub fn after_failed_push(attempt: u32, message: &str) -> (r: RetryAction)
    requires
        attempt < PUSH_ATTEMPTS,
    ensures
        r == spec_after_failed_push(attempt, message@),
{
    if contains(message, "push rejected") || attempt + 1 >= PUSH_ATTEMPTS {
        return RetryAction::Stop;
    }
    let mut factor: u64 = 1;
    let mut i: u32 = 0;
    while i < attempt
        invariant
            i <= attempt,
            attempt <= 1,
            factor == pow2(i as nat),
            factor <= 2,
        decreases attempt - i,
    {
        factor = factor * 2;
        i = i + 1;
    }
    RetryAction::Backoff(BASE_BACKOFF_MS * factor)
}

/// A push is attempted at most three times: after the third failure the
/// pusher stops whatever the error, and a rejection stops it at once.
pub proof fn law_push_retries_bounded(attempt: u32, message: Seq<char>)
    ensures
        attempt + 1 >= PUSH_ATTEMPTS ==> spec_after_failed_push(attempt, message) == RetryAction::Stop,
        contains_seq(message, "push rejected"@) ==> spec_after_failed_push(attempt, message)
            == RetryAction::Stop,
{
}

/// The waits between attempts are 200 ms and then 400 ms.
pub proof fn law_push_backoff_doubles(message: Seq<char>)
    requires
        !contains_seq(message, "push rejected"@),
    ensures
        spec_after_failed_push(0, message) == RetryAction::Backoff(200),
        spec_after_failed_push(1, message) == RetryAction::Backoff(400),
        spec_after_failed_push(2, message) == RetryAction::Stop,
{
    assert(pow2(1) == 2) by {
        assert(pow2(0) == 1);
    }
}

/// A rejection's text always reads as a rejection, so it is never retried.
pub proof fn law_rejection_is_final(code: u16, status: Seq<char>, body: Seq<char>, attempt: u32)
    requires
        is_rejection(code),
    ensures
        forall|v: PushVerdict| #[trigger] verdict_matches(v, code, status, body) ==> (v matches PushVerdict::Rejected(m)
            && spec_after_failed_push(attempt, m@) == RetryAction::Stop),
{
    assert forall|v: PushVerdict| #[trigger] verdict_matches(v, code, status, body) implies (v matches PushVerdict::Rejected(m)
        && spec_after_failed_push(attempt, m@) == RetryAction::Stop) by {
        if let PushVerdict::Rejected(m) = v {
            let full = "metrics push rejected: "@ + status + " "@ + body;
            reveal_strlit("metrics push rejected: ");
            reveal_strlit("push rejected");
            assert(full.subrange(8, 21) =~= "push rejected"@);
            assert(crate::text::occurs_at(m@, "push rejected"@, 8));
        }
    }
}

/// The client errors 400, 401, 403 and 413 are rejections: the batch itself
/// is refused, so the verdict reads `metrics push rejected: <status> <body>`
/// and the pusher stops at once. Every other failure status is a plain
/// failure.
pub proof fn law_client_errors_rejected(v: PushVerdict, code: u16, status: Seq<char>, body: Seq<char>, attempt: u32)
    requires
        verdict_matches(v, code, status, body),
        !(200 <= code && code <= 299),
    ensures
        (code == 400 || code == 401 || code == 403 || code == 413) ==> (v matches PushVerdict::Rejected(m)
            && m@ == "metrics push rejected: "@ + status + " "@ + body && spec_after_failed_push(
            attempt,
            m@,
        ) == RetryAction::Stop),
        !(code == 400 || code == 401 || code == 403 || code == 413) ==> (v matches PushVerdict::Failed(m)
            && m@ == "metrics push failed: "@ + status + " "@ + body),
{
    if code == 400 || code == 401 || code == 403 || code == 413 {
        let m = "metrics push rejected: "@ + status + " "@ + body;
        reveal_strlit("metrics push rejected: ");
        reveal_strlit("push rejected");
        assert(m.subrange(8, 21) =~= "push rejected"@);
        assert(crate::text::occurs_at(m, "push rejected"@, 8));
    }
}

} // verus!
