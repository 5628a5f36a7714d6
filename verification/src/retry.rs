//! What one attempt came to, and whether the unit is tried again.
//!
//! A unit is one chunk of a download or one part of an upload. Both engines
//! put every failed attempt to the same policy.

use vstd::prelude::*;

verus! {

/// Number of further attempts a unit gets after its first one.
pub const MAX_RETRIES: u32 = 3;

/// Seconds to wait before a further attempt.
pub const RETRY_DELAY_SECS: u64 = 3;

/// HTTP status by which the server says that too many requests run at once.
pub const STATUS_THROTTLED: u16 = 403;

/// What one attempt to transfer a unit came to.
#[derive(Clone, Copy, Debug, PartialEq, Eq, Structural)]
pub enum Outcome {
    /// The server accepted the request and the bytes were handed over.
    Success,
    /// The server refused because too many requests ran at once.
    Throttled,
    /// The server answered with another status that is no success.
    Rejected(u16),
    /// The request did not get through: no connection, or a timeout.
    TransportError,
    /// The attempt broke off on this side after the server had answered:
    /// the body could not be read, or the local file not be read or written.
    Aborted,
}

impl Outcome {
    /// The two conditions under which a unit is tried again.
    pub open spec fn spec_is_transient(self) -> bool {
        self is Throttled || self is TransportError
    }

    /// Whether the attempt failed in a way that another attempt may mend.
    pub fn is_transient(self) -> (b: bool)
        ensures
            b == self.spec_is_transient(),
    {
        match self {
            Outcome::Throttled => true,
            Outcome::TransportError => true,
            _ => false,
        }
    }
}

/// A status in 200..=299.
pub open spec fn spec_is_success_status(status: u16) -> bool {
    200 <= status <= 299
}

/// What a status means for a ranged read: 200 and 206 carry the bytes.
pub open spec fn spec_classify_download_status(status: u16) -> Outcome {
    if status == 200 || status == 206 {
        Outcome::Success
    } else if status == STATUS_THROTTLED {
        Outcome::Throttled
    } else {
        Outcome::Rejected(status)
    }
}

/// What a status means for a part upload or a finalize call: any status in
/// 200..=299 is a success.
pub open spec fn spec_classify_upload_status(status: u16) -> Outcome {
    if spec_is_success_status(status) {
        Outcome::Success
    } else if status == STATUS_THROTTLED {
        Outcome::Throttled
    } else {
        Outcome::Rejected(status)
    }
}

/// Whether `status` lies in 200..=299.
pub fn is_success_status(status: u16) -> (b: bool)
    ensures
        b == spec_is_success_status(status),
{
    200 <= status && status <= 299
}

/// Reads the status of the answer to a ranged read.
pub fn classify_download_status(status: u16) -> (outcome: Outcome)
    ensures
        outcome == spec_classify_download_status(status),
{
    if status == 200 || status == 206 {
        Outcome::Success
    } else if status == STATUS_THROTTLED {
        Outcome::Throttled
    } else {
        Outcome::Rejected(status)
    }
}

/// Reads the status of the answer to a part upload or to the finalize call.
pub fn classify_upload_status(status: u16) -> (outcome: Outcome)
    ensures
        outcome == spec_classify_upload_status(status),
{
    if is_success_status(status) {
        Outcome::Success
    } else if status == STATUS_THROTTLED {
        Outcome::Throttled
    } else {
        Outcome::Rejected(status)
    }
}

/// What follows an attempt.
#[derive(Clone, Copy, Debug, PartialEq, Eq, Structural)]
pub enum Verdict {
    /// The unit is done.
    Accept,
    /// The same unit is attempted again after so many seconds.
    RetryAfter(u64),
    /// The unit has failed for good.
    GiveUp,
}

/// How often and how soon a unit is tried again.
#[derive(Clone, Copy, Debug, PartialEq, Eq, Structural)]
pub struct RetryPolicy {
    /// Number of further attempts after the first.
    pub max_retries: u32,
    /// Seconds between two attempts: always the same, no backoff, no jitter.
    pub delay_secs: u64,
}

impl Default for RetryPolicy {
    /// Three further attempts, three seconds apart.
    fn default() -> (policy: RetryPolicy)
        ensures
            policy.max_retries == MAX_RETRIES,
            policy.delay_secs == RETRY_DELAY_SECS,
    {
        RetryPolicy { max_retries: MAX_RETRIES, delay_secs: RETRY_DELAY_SECS }
    }
}

impl RetryPolicy {
    /// The verdict on an attempt that came to `outcome` after `retries`
    /// further attempts had already been spent on the unit.
    pub open spec fn spec_decide(self, outcome: Outcome, retries: int) -> Verdict {
        if outcome is Success {
            Verdict::Accept
        } else if outcome.spec_is_transient() && retries < self.max_retries {
            Verdict::RetryAfter(self.delay_secs)
        } else {
            Verdict::GiveUp
        }
    }

    /// Decides what follows an attempt.
    pub fn decide(&self, outcome: Outcome, retries: u32) -> (verdict: Verdict)
        ensures
            verdict == self.spec_decide(outcome, retries as int),
    {
        match outcome {
            Outcome::Success => Verdict::Accept,
            _ => {
                if outcome.is_transient() && retries < self.max_retries {
                    Verdict::RetryAfter(self.delay_secs)
                } else {
                    Verdict::GiveUp
                }
            },
        }
    }

    /// Number of attempts that a unit gets at most.
    pub open spec fn spec_max_attempts(self) -> int {
        self.max_retries + 1
    }
}

/// How a unit stands after some attempts.
#[derive(Clone, Copy, Debug, PartialEq, Eq, Structural)]
pub enum UnitEnd {
    /// Another attempt is due.
    Pending,
    /// The unit was transferred.
    Succeeded,
    /// The unit failed for good.
    Failed,
}

/// Follows one unit through its attempts, which come to `outcomes` one after
/// the other, `retries` further attempts having been spent before: the number
/// of attempts made, and how the unit stands after them. Outcomes that follow
/// the end of the unit are not consumed.
pub open spec fn spec_run_unit(policy: RetryPolicy, outcomes: Seq<Outcome>, retries: int) -> (
    int,
    UnitEnd,
)
    decreases outcomes.len(),
{
    if outcomes.len() == 0 {
        (0, UnitEnd::Pending)
    } else {
        match policy.spec_decide(outcomes[0], retries) {
            Verdict::Accept => (1, UnitEnd::Succeeded),
            Verdict::GiveUp => (1, UnitEnd::Failed),
            Verdict::RetryAfter(_) => {
                let rest = spec_run_unit(policy, outcomes.drop_first(), retries + 1);
                (rest.0 + 1, rest.1)
            },
        }
    }
}

/// While every attempt fails in a mendable way and retries remain, the unit
/// stays pending and each outcome has cost one attempt.
pub proof fn lemma_transient_failures_keep_unit_pending(
    policy: RetryPolicy,
    outcomes: Seq<Outcome>,
    retries: int,
)
    requires
        0 <= retries,
        retries + outcomes.len() <= policy.max_retries,
        forall|i: int| 0 <= i < outcomes.len() ==> (#[trigger] outcomes[i]).spec_is_transient(),
    ensures
        spec_run_unit(policy, outcomes, retries) == (outcomes.len() as int, UnitEnd::Pending),
    decreases outcomes.len(),
{
    if outcomes.len() > 0 {
        assert(outcomes[0].spec_is_transient());
        let rest = outcomes.drop_first();
        assert forall|i: int| 0 <= i < rest.len() implies (#[trigger] rest[i]).spec_is_transient() by {
            assert(rest[i] == outcomes[i + 1]);
        }
        lemma_transient_failures_keep_unit_pending(policy, rest, retries + 1);
    }
}

/// A unit whose every attempt fails in a mendable way is attempted once and
/// then `max_retries` times more, and has then failed: with the default
/// policy, four attempts in all.
pub proof fn lemma_retry_bound(policy: RetryPolicy, outcomes: Seq<Outcome>)
    requires
        outcomes.len() > policy.max_retries,
        forall|i: int| 0 <= i < outcomes.len() ==> (#[trigger] outcomes[i]).spec_is_transient(),
    ensures
        spec_run_unit(policy, outcomes, 0) == (policy.spec_max_attempts(), UnitEnd::Failed),
        policy.max_retries == MAX_RETRIES ==> spec_run_unit(policy, outcomes, 0).0 == 4,
{
    lemma_retry_bound_from(policy, outcomes, 0);
}

/// The same, for a unit on which `retries` further attempts were already spent.
pub proof fn lemma_retry_bound_from(policy: RetryPolicy, outcomes: Seq<Outcome>, retries: int)
    requires
        0 <= retries <= policy.max_retries,
        retries + outcomes.len() > policy.max_retries,
        forall|i: int| 0 <= i < outcomes.len() ==> (#[trigger] outcomes[i]).spec_is_transient(),
    ensures
        spec_run_unit(policy, outcomes, retries) == (
            policy.max_retries + 1 - retries,
            UnitEnd::Failed,
        ),
    decreases policy.max_retries - retries,
{
    assert(outcomes[0].spec_is_transient());
    if retries < policy.max_retries {
        let rest = outcomes.drop_first();
        assert forall|i: int| 0 <= i < rest.len() implies (#[trigger] rest[i]).spec_is_transient() by {
            assert(rest[i] == outcomes[i + 1]);
        }
        lemma_retry_bound_from(policy, rest, retries + 1);
    }
}

} // verus!
