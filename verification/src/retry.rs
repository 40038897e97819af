//! The retry policy: how often a failed operation is tried again, and how
//! long to wait before each new attempt.

use crate::client::McpError;
use vstd::prelude::*;

verus! {

/// A retry policy. The backoff factor is given in thousandths, so that 1500
/// stands for a factor of one and a half.
#[derive(Clone, Copy, Debug, PartialEq, Eq)]
pub struct RetryConfig {
    pub max_retries: usize,
    pub initial_delay_ms: u64,
    pub backoff_permille: u64,
    pub max_delay_ms: u64,
}

impl Default for RetryConfig {
    fn default() -> (r: RetryConfig)
        ensures
            r == (RetryConfig {
                max_retries: 3,
                initial_delay_ms: 500,
                backoff_permille: 1500,
                max_delay_ms: 5000,
            }),
    {
        RetryConfig {
            max_retries: 3,
            initial_delay_ms: 500,
            backoff_permille: 1500,
            max_delay_ms: 5000,
        }
    }
}

/// The delay that follows `delay_ms`: the delay times the factor, rounded
/// down, and at most the policy's longest delay.
pub open spec fn next_delay(config: RetryConfig, delay_ms: u64) -> u64 {
    let grown = (delay_ms as int * config.backoff_permille as int) / 1000;
    if grown < config.max_delay_ms as int {
        grown as u64
    } else {
        config.max_delay_ms
    }
}

/// The delay before the retry that follows attempt number `attempt`.
pub open spec fn delay_before_retry(config: RetryConfig, attempt: nat) -> u64
    decreases attempt,
{
    if attempt == 0 {
        config.initial_delay_ms
    } else {
        next_delay(config, delay_before_retry(config, (attempt - 1) as nat))
    }
}

/// Whether a failure of attempt number `attempt` ends the operation: it was
/// the last attempt that the policy allows, or the error is not retryable.
pub open spec fn gives_up(config: RetryConfig, attempt: nat, retryable: bool) -> bool {
    attempt >= config.max_retries || !retryable
}

/// Where a retried operation stands: the number of the attempt that is
/// running (from 0) and the delay that a retry after it waits for.
#[derive(Clone, Copy, Debug, PartialEq, Eq)]
pub struct RetryState {
    pub attempt: usize,
    pub delay_ms: u64,
}

/// What to do after a failed attempt.
#[derive(Clone, Copy, Debug, PartialEq, Eq)]
pub enum RetryDecision {
    /// Return the failure to the caller, with no further delay.
    GiveUp,
    /// Wait for so many milliseconds, then try again.
    RetryAfter { delay_ms: u64 },
}

impl RetryState {
    /// The state in which the first attempt runs.
    pub fn start(config: &RetryConfig) -> (r: RetryState)
        ensures
            r == (RetryState { attempt: 0, delay_ms: config.initial_delay_ms }),
    {
        RetryState { attempt: 0, delay_ms: config.initial_delay_ms }
    }

    /// Decides what follows a failed attempt. Where the operation is given
    /// up the state stays as it is; otherwise the caller waits for the
    /// current delay, and the state moves on to the next attempt and the
    /// next delay.
    pub fn on_failure(&mut self, config: &RetryConfig, retryable: bool) -> (r: RetryDecision)
        ensures
            gives_up(*config, old(self).attempt as nat, retryable) ==> r == RetryDecision::GiveUp
                && *final(self) == *old(self),
            !gives_up(*config, old(self).attempt as nat, retryable) ==> r == (
            RetryDecision::RetryAfter { delay_ms: old(self).delay_ms }) && final(self).attempt
                == old(self).attempt + 1 && final(self).delay_ms == next_delay(
                *config,
                old(self).delay_ms,
            ),
    {
        if self.attempt >= config.max_retries || !retryable {
            return RetryDecision::GiveUp;
        }
        let wait: u64 = self.delay_ms;
        self.attempt = self.attempt + 1;
        self.delay_ms = grow_delay(config, wait);
        RetryDecision::RetryAfter { delay_ms: wait }
    }
}

/// Computes the delay that follows `delay_ms`.
pub fn grow_delay(config: &RetryConfig, delay_ms: u64) -> (r: u64)
    ensures
        r == next_delay(*config, delay_ms),
{
    proof {
        assert((delay_ms as int) * (config.backoff_permille as int) <= 0xffff_ffff_ffff_ffff
            * 0xffff_ffff_ffff_ffff) by (nonlinear_arith)
            requires
                0 <= delay_ms as int <= 0xffff_ffff_ffff_ffff,
                0 <= config.backoff_permille as int <= 0xffff_ffff_ffff_ffff,
        ;
    }
    let product: u128 = (delay_ms as u128) * (config.backoff_permille as u128);
    let grown: u128 = product / 1000;
    if grown < config.max_delay_ms as u128 {
        grown as u64
    } else {
        config.max_delay_ms
    }
}

/// Whether an error is worth a retry: a connection failure, a communication
/// failure, a timeout, or a server error whose code begins with `5`.
pub fn is_error_retryable(error: &McpError) -> (r: bool)
    ensures
        r == retryable(*error),
{
    match error {
        McpError::ConnectionError(_) => true,
        McpError::CommunicationError(_) => true,
        McpError::Timeout => true,
        McpError::ServerError { code, .. } => {
            let s = code.as_str();
            !s.is_empty() && s.get_char(0) == '5'
        },
        _ => false,
    }
}

/// The errors after which an operation is tried again.
pub open spec fn retryable(error: McpError) -> bool {
    match error {
        McpError::ConnectionError(_) => true,
        McpError::CommunicationError(_) => true,
        McpError::Timeout => true,
        McpError::ServerError { code, .. } => code@.len() > 0 && code@[0] == '5',
        _ => false,
    }
}

/// How an attempt ends.
pub enum Attempt {
    Success,
    RetryableFailure,
    FatalFailure,
}

/// The number of attempts that are made from attempt number `attempt` on,
/// that one included, when attempt number `k` ends as `outcome(k)`: the
/// executor stops at the first success and at the first failure that gives
/// up.
pub open spec fn attempts_made(
    config: RetryConfig,
    outcome: spec_fn(nat) -> Attempt,
    attempt: nat,
) -> nat
    decreases config.max_retries - attempt,
{
    if outcome(attempt) is Success || gives_up(
        config,
        attempt,
        outcome(attempt) is RetryableFailure,
    ) {
        1
    } else {
        1 + attempts_made(config, outcome, attempt + 1)
    }
}

/// An operation that fails with a retryable error every time is attempted
/// once and then once more for each retry that the policy allows; from
/// attempt number `attempt` on that is `max_retries - attempt + 1` times.
pub proof fn lemma_retries_exhausted(
    config: RetryConfig,
    outcome: spec_fn(nat) -> Attempt,
    attempt: nat,
)
    requires
        forall|k: nat| (#[trigger] outcome(k)) is RetryableFailure,
        attempt <= config.max_retries,
    ensures
        attempts_made(config, outcome, attempt) == config.max_retries - attempt + 1,
    decreases config.max_retries - attempt,
{
    assert(outcome(attempt) is RetryableFailure);
    if attempt < config.max_retries {
        lemma_retries_exhausted(config, outcome, attempt + 1);
    }
}

/// Under the default policy an operation that always fails with a retryable
/// error is attempted exactly four times, after waits of 500, 750 and 1125
/// milliseconds.
pub proof fn lemma_default_schedule(outcome: spec_fn(nat) -> Attempt)
    requires
        forall|k: nat| (#[trigger] outcome(k)) is RetryableFailure,
    ensures
        attempts_made(default_policy(), outcome, 0) == 4,
        delay_before_retry(default_policy(), 0) == 500,
        delay_before_retry(default_policy(), 1) == 750,
        delay_before_retry(default_policy(), 2) == 1125,
{
    lemma_retries_exhausted(default_policy(), outcome, 0);
    reveal_with_fuel(delay_before_retry, 4);
}

/// The default policy.
pub open spec fn default_policy() -> RetryConfig {
    RetryConfig { max_retries: 3, initial_delay_ms: 500, backoff_permille: 1500, max_delay_ms: 5000 }
}

/// An operation whose first attempt fails with an error that is not
/// retryable is attempted once, whatever the policy.
pub proof fn lemma_fatal_stops(config: RetryConfig, outcome: spec_fn(nat) -> Attempt)
    requires
        outcome(0) is FatalFailure,
    ensures
        attempts_made(config, outcome, 0) == 1,
{
}

/// An operation whose first attempt succeeds is attempted once.
pub proof fn lemma_success_stops(config: RetryConfig, outcome: spec_fn(nat) -> Attempt)
    requires
        outcome(0) is Success,
    ensures
        attempts_made(config, outcome, 0) == 1,
{
}

/// No delay is longer than the policy's longest delay, the first excepted.
pub proof fn lemma_delay_capped(config: RetryConfig, attempt: nat)
    requires
        attempt > 0,
    ensures
        delay_before_retry(config, attempt) <= config.max_delay_ms,
{
}

} // verus!
