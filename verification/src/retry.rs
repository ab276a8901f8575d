//! The retry schedule for fetching a chapter's image list: a fixed base delay
//! shortened by random jitter, and a cap on the number of retries. Every
//! error counts as transient.

use vstd::prelude::*;

verus! {

/// Nanoseconds in one second.
pub const NANOS_PER_SEC: u64 = 1_000_000_000;

/// The base delay between two attempts, in seconds.
pub const BASE_DELAY_SECS: u32 = 10;

/// The number of retries where none is configured.
pub const DEFAULT_RETRIES: usize = 5;

/// How a fetch is retried: the base delay in whole seconds and the number of
/// retries that may follow the first attempt.
#[derive(Clone, Copy, Debug)]
pub struct RetryPolicy {
    pub base_delay_secs: u32,
    pub retries: usize,
}

/// The retries that one fetch still has. Each fetch starts with a fresh one.
#[derive(Clone, Copy, Debug)]
pub struct RetrySchedule {
    pub base_delay_secs: u32,
    pub remaining: usize,
}

/// What follows an attempt.
#[derive(Debug)]
pub enum RetryStep<T, E> {
    /// The attempt succeeded: its value goes to the caller unchanged.
    Deliver(T),
    /// The attempt failed and a retry is left: wait, then try again.
    Wait { delay_nanos: u64 },
    /// The attempt failed and no retry is left: its error goes to the caller.
    GiveUp(E),
}

/// What follows an attempt with the given outcome when `remaining` retries are
/// left; `delay_nanos` is the wait before the next attempt, if there is one.
pub open spec fn step_after<T, E>(remaining: nat, outcome: Result<T, E>, delay_nanos: u64)
    -> RetryStep<T, E> {
    match outcome {
        Ok(value) => RetryStep::Deliver(value),
        Err(error) => if remaining == 0 {
            RetryStep::GiveUp(error)
        } else {
            RetryStep::Wait { delay_nanos }
        },
    }
}

/// The retries left after an attempt with the given outcome.
pub open spec fn remaining_after<T, E>(remaining: nat, outcome: Result<T, E>) -> nat {
    if outcome is Err && remaining > 0 {
        (remaining - 1) as nat
    } else {
        remaining
    }
}

/// What a fetch hands to its caller when its attempts end as `attempts` says,
/// in that order, and `retries` retries may follow the first attempt: the
/// first success, or the error of the attempt after which no retry was left.
/// `None` while the fetch is still waiting for an attempt.
pub open spec fn settled<T, E>(retries: nat, attempts: Seq<Result<T, E>>) -> Option<Result<T, E>>
    decreases attempts.len(),
{
    if attempts.len() == 0 {
        None
    } else {
        match step_after(retries, attempts[0], 0) {
            RetryStep::Deliver(value) => Some(Ok(value)),
            RetryStep::GiveUp(error) => Some(Err(error)),
            RetryStep::Wait { .. } => settled(
                remaining_after(retries, attempts[0]),
                attempts.skip(1),
            ),
        }
    }
}

/// `tokio_retry::strategy::jitter` applied to a delay of `base_delay_secs`
/// whole seconds, in nanoseconds. The outside function scales the delay by a
/// random factor of at least zero and below one, so all that is claimed is that
/// the result is no longer than the base delay.
#[verifier::external_body]
fn jittered_delay(base_delay_secs: u32) -> (delay_nanos: u64)
    ensures
        delay_nanos <= base_delay_secs as u64 * NANOS_PER_SEC,
{
    let base = std::time::Duration::from_secs(base_delay_secs as u64);
    tokio_retry::strategy::jitter(base).as_nanos() as u64
}

impl RetryPolicy {
    /// The policy with the usual base delay and the given number of retries.
    pub fn with_retries(retries: usize) -> (policy: Self)
        ensures
            policy.base_delay_secs == BASE_DELAY_SECS,
            policy.retries == retries,
    {
        RetryPolicy { base_delay_secs: BASE_DELAY_SECS, retries }
    }

    /// The schedule for one fetch: all retries are still left.
    pub fn schedule(&self) -> (schedule: RetrySchedule)
        ensures
            schedule.base_delay_secs == self.base_delay_secs,
            schedule.remaining == self.retries,
    {
        RetrySchedule { base_delay_secs: self.base_delay_secs, remaining: self.retries }
    }
}

impl RetrySchedule {
    /// Decides what follows an attempt, given the jittered delay that a retry
    /// would wait: a success is delivered unchanged, a failure uses up one
    /// retry, and a failure with no retry left gives its error up.
    pub fn decide<T, E>(&mut self, outcome: Result<T, E>, delay_nanos: u64) -> (step: RetryStep<
        T,
        E,
    >)
        ensures
            step == step_after(old(self).remaining as nat, outcome, delay_nanos),
            final(self).remaining == remaining_after(old(self).remaining as nat, outcome),
            final(self).base_delay_secs == old(self).base_delay_secs,
    {
        match outcome {
            Ok(value) => RetryStep::Deliver(value),
            Err(error) => {
                if self.remaining == 0 {
                    RetryStep::GiveUp(error)
                } else {
                    self.remaining = self.remaining - 1;
                    RetryStep::Wait { delay_nanos }
                }
            },
        }
    }

    /// Decides what follows an attempt. A jittered delay is drawn only where a
    /// wait follows, and a wait is never longer than the base delay.
    pub fn on_attempt<T, E>(&mut self, outcome: Result<T, E>) -> (step: RetryStep<T, E>)
        ensures
            final(self).remaining == remaining_after(old(self).remaining as nat, outcome),
            final(self).base_delay_secs == old(self).base_delay_secs,
            exists|delay_nanos: u64|
                delay_nanos <= old(self).base_delay_secs as u64 * NANOS_PER_SEC && step
                    == #[trigger] step_after(old(self).remaining as nat, outcome, delay_nanos),
    {
        let delay_nanos = if outcome.is_err() && self.remaining > 0 {
            jittered_delay(self.base_delay_secs)
        } else {
            0
        };
        self.decide(outcome, delay_nanos)
    }
}

/// A fetch whose first `n - 1` attempts fail and whose attempt `n` succeeds,
/// with `n - 1` no more than the retries allowed, hands that success to the
/// caller unchanged.
pub proof fn lemma_first_success_is_delivered<T, E>(
    retries: nat,
    attempts: Seq<Result<T, E>>,
    n: nat,
)
    requires
        1 <= n <= attempts.len(),
        n <= retries + 1,
        forall|i: int| 0 <= i < n - 1 ==> attempts[i] is Err,
        attempts[n - 1] is Ok,
    ensures
        settled(retries, attempts) == Some(attempts[n - 1]),
    decreases n,
{
    if n > 1 {
        assert(attempts[0] is Err);
        let rest = attempts.skip(1);
        assert forall|i: int| 0 <= i < n - 2 implies rest[i] is Err by {
            assert(rest[i] == attempts[i + 1]);
        }
        assert(rest[n - 2] == attempts[n - 1]);
        lemma_first_success_is_delivered((retries - 1) as nat, rest, (n - 1) as nat);
    }
}

/// A fetch whose every allowed attempt fails, the first and each retry, hands
/// the error of the last of them to the caller.
pub proof fn lemma_last_error_is_surfaced<T, E>(retries: nat, attempts: Seq<Result<T, E>>)
    requires
        attempts.len() > retries,
        forall|i: int| 0 <= i <= retries ==> attempts[i] is Err,
    ensures
        settled(retries, attempts) == Some(attempts[retries as int]),
    decreases retries,
{
    assert(attempts[0] is Err);
    if retries > 0 {
        let rest = attempts.skip(1);
        assert forall|i: int| 0 <= i <= retries - 1 implies rest[i] is Err by {
            assert(rest[i] == attempts[i + 1]);
        }
        assert(rest[retries - 1] == attempts[retries as int]);
        lemma_last_error_is_surfaced((retries - 1) as nat, rest);
    }
}

} // verus!
