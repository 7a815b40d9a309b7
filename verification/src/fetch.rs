//! Fetching that does not give up.
//!
//! The caller makes the request; what to do with the outcome of an attempt is
//! decided here. A transport failure is answered by waiting and trying again,
//! a body that arrived is decoded at once and is final, whether it decodes or
//! not.

use crate::json::decoded;
use crate::json::DecodeError;
use crate::json::Document;
use crate::json::Json;
use vstd::prelude::*;

verus! {

/// How long to wait between attempts, and how many attempts to make.
#[derive(Clone, Copy, PartialEq, Eq, Structural, Debug)]
pub struct RetryPolicy {
    /// The pause after a failed attempt, in milliseconds.
    pub interval_millis: u64,
    /// The number of attempts after which to give up; `None` for no limit.
    pub max_attempts: Option<u64>,
}

impl RetryPolicy {
    /// The policy of the library: a second and a half between attempts, and
    /// no limit on their number.
    pub open spec fn standard() -> RetryPolicy {
        RetryPolicy { interval_millis: 1500, max_attempts: None }
    }

    /// The policy of the library.
    pub fn new() -> (r: RetryPolicy)
        ensures
            r == RetryPolicy::standard(),
    {
        RetryPolicy { interval_millis: 1500, max_attempts: None }
    }

    /// Whether another attempt is allowed once `failed` attempts have failed.
    pub open spec fn allows_more(self, failed: u64) -> bool {
        match self.max_attempts {
            Some(limit) => failed < limit,
            None => true,
        }
    }
}

/// What follows an attempt.
#[derive(Debug, PartialEq, Eq)]
pub enum FetchStep {
    /// The response has arrived and this is what it decodes to.
    Done(Result<Document, DecodeError>),
    /// The attempt failed: wait this many milliseconds and try again.
    RetryAfter(u64),
    /// The attempt failed and the policy allows no other.
    GiveUp,
}

/// What a [`FetchStep`] holds.
pub enum FetchStepView {
    Done(Result<Json, DecodeError>),
    RetryAfter(u64),
    GiveUp,
}

impl View for FetchStep {
    type V = FetchStepView;

    open spec fn view(&self) -> FetchStepView {
        match self {
            FetchStep::Done(Ok(d)) => FetchStepView::Done(Ok(d@)),
            FetchStep::Done(Err(e)) => FetchStepView::Done(Err(*e)),
            FetchStep::RetryAfter(ms) => FetchStepView::RetryAfter(*ms),
            FetchStep::GiveUp => FetchStepView::GiveUp,
        }
    }
}

/// What follows an attempt under `policy`, where `failed` counts the failed
/// attempts, this one included, and `body` is what the attempt brought in,
/// if anything.
pub open spec fn after_attempt(policy: RetryPolicy, failed: u64, body: Option<Seq<char>>)
    -> FetchStepView {
    match body {
        Some(text) => FetchStepView::Done(
            match decoded(text) {
                Some(doc) => Ok(doc),
                None => Err(DecodeError::Malformed),
            },
        ),
        None => if policy.allows_more(failed) {
            FetchStepView::RetryAfter(policy.interval_millis)
        } else {
            FetchStepView::GiveUp
        },
    }
}

/// Decides what follows an attempt to get a document: `body` is the body of
/// the response, or `None` where the transport failed, and `failed` counts
/// the failed attempts so far, this one included.
pub fn get_with_sleep(policy: &RetryPolicy, failed: u64, body: Option<&str>) -> (r: FetchStep)
    ensures
        r@ == after_attempt(
            *policy,
            failed,
            match body {
                Some(t) => Some(t@),
                None => None,
            },
        ),
{
    match body {
        Some(text) => FetchStep::Done(Document::decode(text)),
        None => {
            let more = match policy.max_attempts {
                Some(limit) => failed < limit,
                None => true,
            };
            if more {
                FetchStep::RetryAfter(policy.interval_millis)
            } else {
                FetchStep::GiveUp
            }
        },
    }
}

/// Under a policy without a limit no failure of the transport ends the
/// fetch: each is answered by the same pause and another attempt.
pub proof fn lemma_unlimited_policy_never_gives_up(policy: RetryPolicy, failed: u64)
    requires
        policy.max_attempts is None,
    ensures
        after_attempt(policy, failed, None) == FetchStepView::RetryAfter(policy.interval_millis),
{
}

/// A body that arrived ends the fetch, whatever the policy and however many
/// attempts failed before.
pub proof fn lemma_arrival_is_final(policy: RetryPolicy, failed: u64, body: Seq<char>)
    ensures
        after_attempt(policy, failed, Some(body)) is Done,
{
}

} // verus!
