//! Retry with exponential backoff: which errors are worth retrying, and the
//! schedule of attempts and waits.
//!
//! The schedule is a state machine: the caller makes an attempt, and on a
//! failure asks [`RetryBackoff::on_failure`] whether to wait and try again or
//! to give up with that error.

use vstd::prelude::*;
use vstd::arithmetic::power2::{pow2, lemma_pow2_unfold};
use crate::text::{contains, has_sub};

verus! {

/// The longest `std::time::Duration`, in nanoseconds.
pub const MAX_DURATION_NANOS: u128 = 18446744073709551615999999999u128;

/// The error message names a status or a failure that a later attempt may not meet.
pub open spec fn retryable_text(msg: Seq<char>) -> bool {
    ||| has_sub(msg, "429"@)
    ||| has_sub(msg, "500"@)
    ||| has_sub(msg, "502"@)
    ||| has_sub(msg, "503"@)
    ||| has_sub(msg, "504"@)
    ||| has_sub(msg, "connection"@)
    ||| has_sub(msg, "timed out"@)
    ||| has_sub(msg, "timeout"@)
}

/// Returns true if the error message suggests a retryable HTTP status
/// (429, 500, 502, 503, 504) or a connection failure.
pub fn is_retryable_error(message: &str) -> (r: bool)
    ensures
        r == retryable_text(message@),
{
    contains(message, "429") || contains(message, "500") || contains(message, "502")
        || contains(message, "503") || contains(message, "504") || contains(message, "connection")
        || contains(message, "timed out") || contains(message, "timeout")
}

/// The texts that mark an error as worth retrying: the statuses 429, 500,
/// 502, 503 and 504, and connection failures and timeouts.
pub open spec fn retry_markers() -> Seq<Seq<char>> {
    seq!["429"@, "500"@, "502"@, "503"@, "504"@, "connection"@, "timed out"@, "timeout"@]
}

/// An error is retried exactly when its message contains one of the
/// markers; a message that holds none of them (a 404, a 401, a parse error)
/// is not retried.
pub proof fn lemma_retryable_only_markers(msg: Seq<char>)
    ensures
        retryable_text(msg) <==> exists|i: int|
            0 <= i < retry_markers().len() && #[trigger] has_sub(msg, retry_markers()[i]),
{
    let m = retry_markers();
    assert(m.len() == 8);
    assert(m[0] == "429"@ && m[1] == "500"@ && m[2] == "502"@ && m[3] == "503"@);
    assert(m[4] == "504"@ && m[5] == "connection"@ && m[6] == "timed out"@ && m[7] == "timeout"@);
    if retryable_text(msg) {
        if has_sub(msg, "429"@) {
            assert(has_sub(msg, m[0]));
        } else if has_sub(msg, "500"@) {
            assert(has_sub(msg, m[1]));
        } else if has_sub(msg, "502"@) {
            assert(has_sub(msg, m[2]));
        } else if has_sub(msg, "503"@) {
            assert(has_sub(msg, m[3]));
        } else if has_sub(msg, "504"@) {
            assert(has_sub(msg, m[4]));
        } else if has_sub(msg, "connection"@) {
            assert(has_sub(msg, m[5]));
        } else if has_sub(msg, "timed out"@) {
            assert(has_sub(msg, m[6]));
        } else {
            assert(has_sub(msg, m[7]));
        }
    }
    if exists|i: int| 0 <= i < m.len() && #[trigger] has_sub(msg, m[i]) {
        let i = choose|i: int| 0 <= i < m.len() && #[trigger] has_sub(msg, m[i]);
        assert(0 <= i < 8);
    }
}

/// What to do after a failed attempt.
#[derive(Debug, Clone, Copy, PartialEq, Eq)]
pub enum RetryDecision {
    /// Wait this many nanoseconds, then make the next attempt.
    Retry { wait_nanos: u128 },
    /// Stop and report the error of the attempt that just failed.
    GiveUp,
}

/// Progress through a retry schedule: `max_retries` retries at most (so
/// `max_retries + 1` attempts), the first after `initial_delay_nanos`, each
/// later wait twice the one before.
#[derive(Debug, Clone, Copy, PartialEq, Eq)]
pub struct RetryBackoff {
    pub max_retries: u32,
    pub initial_delay_nanos: u128,
    /// Index of the attempt being made (0 for the first).
    pub attempt: u32,
    /// Wait before the next retry.
    pub delay_nanos: u128,
}

impl RetryBackoff {
    /// The attempt index never passes the retry limit, and the pending wait is
    /// the initial delay doubled once per retry made.
    pub open spec fn wf(self) -> bool {
        &&& self.attempt <= self.max_retries
        &&& self.delay_nanos == self.initial_delay_nanos * pow2(self.attempt as nat)
    }

    /// A failure with this verdict leads to another attempt.
    pub open spec fn retries_on(self, retryable: bool) -> bool {
        retryable && self.attempt < self.max_retries
    }

    /// The schedule step after a failure.
    pub open spec fn step(self, retryable: bool) -> (RetryDecision, RetryBackoff) {
        if self.retries_on(retryable) {
            (
                RetryDecision::Retry { wait_nanos: self.delay_nanos },
                RetryBackoff {
                    attempt: (self.attempt + 1) as u32,
                    delay_nanos: (2 * self.delay_nanos) as u128,
                    ..self
                },
            )
        } else {
            (RetryDecision::GiveUp, self)
        }
    }

    /// The schedule before the first attempt.
    pub fn new(max_retries: u32, initial_delay_nanos: u128) -> (b: RetryBackoff)
        ensures
            b.wf(),
            b.max_retries == max_retries,
            b.initial_delay_nanos == initial_delay_nanos,
            b.attempt == 0,
            b.delay_nanos == initial_delay_nanos,
    {
        proof {
            assert(pow2(0) == 1) by {
                vstd::arithmetic::power2::lemma2_to64();
            }
        }
        RetryBackoff { max_retries, initial_delay_nanos, attempt: 0, delay_nanos: initial_delay_nanos }
    }

    /// Whether doubling the pending wait stays within `Duration`'s range.
    pub fn next_delay_fits(&self) -> (r: bool)
        ensures
            r == (2 * self.delay_nanos <= MAX_DURATION_NANOS),
    {
        self.delay_nanos <= MAX_DURATION_NANOS / 2
    }

    /// Decides what follows a failed attempt whose error is `retryable` or not.
    /// The last allowed attempt, or an error that is not retryable, ends the
    /// schedule; otherwise the caller waits the pending delay and tries again,
    /// and the delay doubles.
    pub fn on_failure(&mut self, retryable: bool) -> (d: RetryDecision)
        requires
            old(self).wf(),
            old(self).retries_on(retryable) ==> 2 * old(self).delay_nanos <= MAX_DURATION_NANOS,
        ensures
            (d, *final(self)) == old(self).step(retryable),
            final(self).wf(),
            d matches RetryDecision::Retry { wait_nanos } ==> wait_nanos
                == old(self).initial_delay_nanos * pow2(old(self).attempt as nat),
            !retryable ==> d == RetryDecision::GiveUp,
    {
        if retryable && self.attempt < self.max_retries {
            let wait = self.delay_nanos;
            proof {
                let a = self.attempt as nat;
                lemma_pow2_unfold(a + 1);
                assert(self.initial_delay_nanos * pow2(a + 1) == 2 * (self.initial_delay_nanos * pow2(a)))
                    by (nonlinear_arith)
                    requires
                        pow2(a + 1) == 2 * pow2(a),
                ;
            }
            self.attempt = self.attempt + 1;
            self.delay_nanos = 2 * self.delay_nanos;
            RetryDecision::Retry { wait_nanos: wait }
        } else {
            RetryDecision::GiveUp
        }
    }
}

/// Attempts made when the attempts end as `outcomes` says, in order: `None`
/// for a success, `Some(retryable)` for a failure.
pub open spec fn attempts_made(b: RetryBackoff, outcomes: Seq<Option<bool>>) -> nat
    decreases outcomes.len(),
{
    if outcomes.len() == 0 {
        0
    } else {
        match outcomes[0] {
            None => 1,
            Some(retryable) => {
                if b.retries_on(retryable) {
                    1 + attempts_made(b.step(retryable).1, outcomes.drop_first())
                } else {
                    1
                }
            },
        }
    }
}

/// Whatever the attempts return, a schedule makes at most
/// `max_retries + 1` attempts in all.
pub proof fn lemma_attempts_bounded(b: RetryBackoff, outcomes: Seq<Option<bool>>)
    requires
        b.attempt <= b.max_retries,
    ensures
        attempts_made(b, outcomes) <= b.max_retries - b.attempt + 1,
    decreases outcomes.len(),
{
    if outcomes.len() > 0 {
        if let Some(r) = outcomes[0] {
            if b.retries_on(r) {
                lemma_attempts_bounded(b.step(r).1, outcomes.drop_first());
            }
        }
    }
}

/// An error that is not retryable is the last attempt.
pub proof fn lemma_non_retryable_stops(b: RetryBackoff, outcomes: Seq<Option<bool>>)
    requires
        outcomes.len() > 0,
        outcomes[0] == Some(false),
    ensures
        attempts_made(b, outcomes) == 1,
{
}

/// When the first `k` attempts fail with retryable errors, `k` retries are
/// still allowed, and attempt `k` succeeds, exactly `k + 1` attempts are made.
pub proof fn lemma_success_after_retryable_failures(
    b: RetryBackoff,
    outcomes: Seq<Option<bool>>,
    k: nat,
)
    requires
        b.attempt <= b.max_retries,
        k <= b.max_retries - b.attempt,
        k < outcomes.len(),
        forall|i: int| 0 <= i < k ==> outcomes[i] == Some(true),
        outcomes[k as int] == None::<bool>,
    ensures
        attempts_made(b, outcomes) == k + 1,
    decreases k,
{
    if k > 0 {
        let rest = outcomes.drop_first();
        assert forall|i: int| 0 <= i < k - 1 implies rest[i] == Some(true) by {
            assert(rest[i] == outcomes[i + 1]);
        }
        lemma_success_after_retryable_failures(b.step(true).1, rest, (k - 1) as nat);
    }
}

} // verus!
