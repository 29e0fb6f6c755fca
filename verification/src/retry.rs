//! Retry policy: which outcomes are retried, after what delay, and how a run
//! of attempts ends.
//!
//! Attempts are counted from 1. With `retry` retries configured, at most
//! `retry + 1` attempts are made.

use vstd::prelude::*;
use vstd::arithmetic::power2::{lemma2_to64, lemma_pow2_strictly_increases, lemma_pow2_unfold, pow2};
use vstd::string::StringExecFns;
use crate::config::Config;
use crate::text::{decimal_string, decimal_text, text_view};

verus! {

/// First status code of the server-error range.
pub const SERVER_ERROR_START: u16 = 500;

/// Last status code of the server-error range.
pub const SERVER_ERROR_END: u16 = 599;

/// "Too Many Requests".
pub const TOO_MANY_REQUESTS: u16 = 429;

/// "Request Timeout".
pub const REQUEST_TIMEOUT: u16 = 408;

/// A status code is retryable when it is a server error (500 to 599),
/// 429 or 408.
pub open spec fn is_retryable_status(status_code: u16) -> bool {
    ||| SERVER_ERROR_START <= status_code <= SERVER_ERROR_END
    ||| status_code == TOO_MANY_REQUESTS
    ||| status_code == REQUEST_TIMEOUT
}

/// Whether a response with this status code is retried while attempts remain.
pub fn should_retry_for_status(status_code: u16) -> (retry: bool)
    ensures
        retry == is_retryable_status(status_code),
{
    (SERVER_ERROR_START <= status_code && status_code <= SERVER_ERROR_END) || status_code
        == TOO_MANY_REQUESTS || status_code == REQUEST_TIMEOUT
}

/// How often the base delay has doubled when attempt `attempt` has failed.
pub open spec fn doublings(attempt: nat) -> nat {
    if attempt >= 1 {
        (attempt - 1) as nat
    } else {
        0
    }
}

/// The delay in nanoseconds after attempt `attempt` has failed: the base
/// delay times two to the power of `attempt - 1`.
pub open spec fn backoff_nanos(retry_delay_nanos: u64, attempt: nat) -> nat {
    retry_delay_nanos as nat * pow2(doublings(attempt))
}

/// A delay as far as a `u64` of nanoseconds holds it; a longer one is cut
/// down to `u64::MAX`.
pub open spec fn capped(nanos: nat) -> u64 {
    if nanos <= u64::MAX {
        nanos as u64
    } else {
        u64::MAX
    }
}

/// Whether another attempt may follow attempt `attempt`.
pub open spec fn attempts_remain(retry: u32, attempt: nat) -> bool {
    attempt < retry + 1
}

proof fn lemma_pow2_increases(low: nat, high: nat)
    requires
        low <= high,
    ensures
        pow2(low) <= pow2(high),
{
    if low < high {
        lemma_pow2_strictly_increases(low, high);
    }
}

/// The delay to wait after attempt `current_attempt` has failed, in
/// nanoseconds: `retry_delay_nanos * 2^(current_attempt - 1)`, cut down to
/// `u64::MAX` where it is longer.
pub fn backoff_delay(retry_delay_nanos: u64, current_attempt: u64) -> (delay: u64)
    ensures
        delay == capped(backoff_nanos(retry_delay_nanos, current_attempt as nat)),
{
    let wanted: u64 = if current_attempt > 0 {
        current_attempt - 1
    } else {
        0
    };
    if retry_delay_nanos == 0 {
        assert(backoff_nanos(retry_delay_nanos, current_attempt as nat) == 0) by (nonlinear_arith)
            requires
                retry_delay_nanos == 0,
                backoff_nanos(retry_delay_nanos, current_attempt as nat) == retry_delay_nanos as nat * pow2(
                    doublings(current_attempt as nat),
                ),
        ;
        return 0;
    }
    let mut delay: u64 = retry_delay_nanos;
    let mut done: u64 = 0;
    proof {
        assert(pow2(0) == 1) by {
            lemma2_to64();
        }
        assert(retry_delay_nanos as nat * pow2(0) == retry_delay_nanos) by (nonlinear_arith)
            requires
                pow2(0) == 1,
        ;
    }
    while done < wanted
        invariant
            done <= wanted,
            wanted == doublings(current_attempt as nat),
            retry_delay_nanos > 0,
            delay == retry_delay_nanos as nat * pow2(done as nat),
        decreases wanted - done,
    {
        proof {
            lemma_pow2_unfold((done + 1) as nat);
            assert(retry_delay_nanos as nat * pow2((done + 1) as nat) == 2 * (retry_delay_nanos as nat * pow2(
                done as nat,
            ))) by (nonlinear_arith)
                requires
                    pow2((done + 1) as nat) == 2 * pow2(done as nat),
            ;
        }
        if delay > u64::MAX / 2 {
            proof {
                lemma_pow2_increases((done + 1) as nat, wanted as nat);
                assert(retry_delay_nanos as nat * pow2((done + 1) as nat) <= retry_delay_nanos as nat * pow2(
                    wanted as nat,
                )) by (nonlinear_arith)
                    requires
                        pow2((done + 1) as nat) <= pow2(wanted as nat),
                ;
            }
            return u64::MAX;
        }
        delay = delay * 2;
        done += 1;
    }
    delay
}

/// How one attempt ended.
#[derive(Debug, Clone, Copy, PartialEq, Eq, Structural)]
pub enum AttemptOutcome {
    /// A response came, with this status code.
    Response { status: u16 },
    /// The request could not be sent, or no response came.
    TransportError,
    /// No copy of the request could be made for this attempt.
    CloneFailed,
}

/// Why a run of attempts ended without a response.
#[derive(Debug, Clone, Copy, PartialEq, Eq, Structural)]
pub enum ExecutionError {
    /// The last attempt failed in transport, and none is left.
    Transport,
    /// No copy of the request could be made.
    RequestClone,
}

impl ExecutionError {
    /// The error in words.
    pub open spec fn message_text(self) -> Seq<char> {
        match self {
            ExecutionError::Transport => "Request failed in transport"@,
            ExecutionError::RequestClone => "Failed to clone request for retry"@,
        }
    }

    /// The error in words.
    pub fn message(&self) -> (text: String)
        ensures
            text@ == self.message_text(),
    {
        match self {
            ExecutionError::Transport => String::from_str("Request failed in transport"),
            ExecutionError::RequestClone => String::from_str("Failed to clone request for retry"),
        }
    }
}

/// What to do after an attempt.
#[derive(Debug, Clone, Copy, PartialEq, Eq, Structural)]
pub enum RetryStep {
    /// Wait for `delay_nanos` nanoseconds, then make the next attempt. A
    /// response that came with this attempt is dropped unread.
    Retry { delay_nanos: u64 },
    /// The response of this attempt is the result: read its body.
    Deliver,
    /// Give up with this error.
    Fail { error: ExecutionError },
}

/// What follows attempt `attempt`, by its outcome.
///
/// A transport error is retried while attempts remain. A response is retried
/// while attempts remain and its status is retryable; any other response is
/// delivered, whatever its status. A request that cannot be copied ends the
/// run at once.
pub open spec fn step_spec(retry: u32, retry_delay_nanos: u64, attempt: nat, outcome: AttemptOutcome) -> RetryStep {
    let again = RetryStep::Retry { delay_nanos: capped(backoff_nanos(retry_delay_nanos, attempt)) };
    match outcome {
        AttemptOutcome::CloneFailed => RetryStep::Fail { error: ExecutionError::RequestClone },
        AttemptOutcome::TransportError => if attempts_remain(retry, attempt) {
            again
        } else {
            RetryStep::Fail { error: ExecutionError::Transport }
        },
        AttemptOutcome::Response { status } => if is_retryable_status(status) && attempts_remain(retry, attempt) {
            again
        } else {
            RetryStep::Deliver
        },
    }
}

/// Decides what follows attempt `current_attempt`, which ended in `outcome`.
pub fn next_step(config: &Config, current_attempt: u64, outcome: &AttemptOutcome) -> (step: RetryStep)
    ensures
        step == step_spec(config.retry, config.retry_delay_nanos, current_attempt as nat, *outcome),
{
    let remain = current_attempt <= config.retry as u64;
    match outcome {
        AttemptOutcome::CloneFailed => RetryStep::Fail { error: ExecutionError::RequestClone },
        AttemptOutcome::TransportError => {
            if remain {
                RetryStep::Retry { delay_nanos: backoff_delay(config.retry_delay_nanos, current_attempt) }
            } else {
                RetryStep::Fail { error: ExecutionError::Transport }
            }
        },
        AttemptOutcome::Response { status } => {
            if should_retry_for_status(*status) && remain {
                RetryStep::Retry { delay_nanos: backoff_delay(config.retry_delay_nanos, current_attempt) }
            } else {
                RetryStep::Deliver
            }
        },
    }
}

/// How a run of attempts ended.
#[derive(Debug, Clone, Copy, PartialEq, Eq, Structural)]
pub enum RunEnd {
    /// The response of the last attempt made is the result.
    Delivered { status: u16 },
    /// The run gave up with this error.
    Failed { error: ExecutionError },
    /// Every outcome at hand was retried: the run is still under way.
    Pending,
}

/// A run of attempts against outcomes that are known beforehand.
#[derive(Debug, Clone, PartialEq, Eq)]
pub struct RetryRun {
    /// The number of attempts made.
    pub attempts: usize,
    /// The delays waited, in nanoseconds, in order.
    pub delays: Vec<u64>,
    /// How the run ended.
    pub end: RunEnd,
}

/// A run with its delays as a sequence.
pub struct RetryRunView {
    pub attempts: nat,
    pub delays: Seq<u64>,
    pub end: RunEnd,
}

impl View for RetryRun {
    type V = RetryRunView;

    open spec fn view(&self) -> RetryRunView {
        RetryRunView { attempts: self.attempts as nat, delays: self.delays@, end: self.end }
    }
}

/// How a run ends of which an attempt has just ended without a retry.
pub open spec fn end_of(step: RetryStep, outcome: AttemptOutcome) -> RunEnd {
    match step {
        RetryStep::Fail { error } => RunEnd::Failed { error },
        _ => match outcome {
            AttemptOutcome::Response { status } => RunEnd::Delivered { status },
            AttemptOutcome::TransportError => RunEnd::Failed { error: ExecutionError::Transport },
            AttemptOutcome::CloneFailed => RunEnd::Failed { error: ExecutionError::RequestClone },
        },
    }
}

/// The rest of a run of which `made` attempts were made and retried:
/// attempt `made + 1` ends as `outcomes[made]` says.
pub open spec fn run_from(retry: u32, retry_delay_nanos: u64, outcomes: Seq<AttemptOutcome>, made: nat) -> RetryRunView
    decreases outcomes.len() - made,
{
    if made >= outcomes.len() {
        RetryRunView { attempts: made, delays: Seq::empty(), end: RunEnd::Pending }
    } else {
        let step = step_spec(retry, retry_delay_nanos, made + 1, outcomes[made as int]);
        match step {
            RetryStep::Retry { delay_nanos } => {
                let rest = run_from(retry, retry_delay_nanos, outcomes, made + 1);
                RetryRunView { attempts: rest.attempts, delays: seq![delay_nanos] + rest.delays, end: rest.end }
            },
            _ => RetryRunView {
                attempts: made + 1,
                delays: Seq::empty(),
                end: end_of(step, outcomes[made as int]),
            },
        }
    }
}

/// The run that a configuration makes against `outcomes`: attempt 1 ends as
/// `outcomes[0]` says, attempt 2 as `outcomes[1]`, and so on, until an
/// attempt is not retried.
pub open spec fn run_spec(retry: u32, retry_delay_nanos: u64, outcomes: Seq<AttemptOutcome>) -> RetryRunView {
    run_from(retry, retry_delay_nanos, outcomes, 0)
}

/// Makes the run of attempts that `config` asks for against outcomes that
/// are known beforehand, without sending or waiting.
pub fn run_attempts(config: &Config, outcomes: &Vec<AttemptOutcome>) -> (run: RetryRun)
    ensures
        run@ == run_spec(config.retry, config.retry_delay_nanos, outcomes@),
{
    let mut delays: Vec<u64> = Vec::new();
    let mut made: usize = 0;
    while made < outcomes.len()
        invariant
            made <= outcomes.len(),
            run_spec(config.retry, config.retry_delay_nanos, outcomes@) == (RetryRunView {
                delays: delays@ + run_from(config.retry, config.retry_delay_nanos, outcomes@, made as nat).delays,
                ..run_from(config.retry, config.retry_delay_nanos, outcomes@, made as nat)
            }),
        decreases outcomes.len() - made,
    {
        let outcome = outcomes[made];
        let step = next_step(config, made as u64 + 1, &outcome);
        let ghost rest = run_from(config.retry, config.retry_delay_nanos, outcomes@, made as nat);
        match step {
            RetryStep::Retry { delay_nanos } => {
                proof {
                    let after = run_from(config.retry, config.retry_delay_nanos, outcomes@, (made + 1) as nat);
                    assert(delays@.push(delay_nanos) + after.delays =~= delays@ + rest.delays);
                }
                delays.push(delay_nanos);
                made += 1;
            },
            RetryStep::Deliver => {
                let end = match outcome {
                    AttemptOutcome::Response { status } => RunEnd::Delivered { status },
                    AttemptOutcome::TransportError => RunEnd::Failed { error: ExecutionError::Transport },
                    AttemptOutcome::CloneFailed => RunEnd::Failed { error: ExecutionError::RequestClone },
                };
                return RetryRun { attempts: made + 1, delays, end };
            },
            RetryStep::Fail { error } => {
                return RetryRun { attempts: made + 1, delays, end: RunEnd::Failed { error } };
            },
        }
    }
    RetryRun { attempts: made, delays, end: RunEnd::Pending }
}

/// Whether an attempt got a response with a retryable status.
pub open spec fn is_retryable_response(outcome: AttemptOutcome) -> bool {
    match outcome {
        AttemptOutcome::Response { status } => is_retryable_status(status),
        _ => false,
    }
}

proof fn lemma_retried_then_delivered(
    retry: u32,
    retry_delay_nanos: u64,
    outcomes: Seq<AttemptOutcome>,
    k: nat,
    status: u16,
    made: nat,
)
    requires
        made <= k,
        k <= retry,
        k < outcomes.len(),
        forall|i: int| 0 <= i < k ==> is_retryable_response(#[trigger] outcomes[i]),
        outcomes[k as int] == (AttemptOutcome::Response { status }),
        !is_retryable_status(status) || k == retry,
    ensures
        run_from(retry, retry_delay_nanos, outcomes, made).attempts == k + 1,
        run_from(retry, retry_delay_nanos, outcomes, made).end == (RunEnd::Delivered { status }),
        run_from(retry, retry_delay_nanos, outcomes, made).delays.len() == k - made,
    decreases k - made,
{
    if made < k {
        lemma_retried_then_delivered(retry, retry_delay_nanos, outcomes, k, status, made + 1);
    }
}

/// Where the first `k` attempts, `k` no more than the retries configured,
/// each get a response with a retryable status, and attempt `k + 1` gets a
/// response that ends the run (its status is not retryable, or no attempt is
/// left), exactly `k + 1` attempts are made, `k` delays are waited, and the
/// response delivered is that of attempt `k + 1`.
pub proof fn law_retried_then_delivered(
    retry: u32,
    retry_delay_nanos: u64,
    outcomes: Seq<AttemptOutcome>,
    k: nat,
    status: u16,
)
    requires
        k <= retry,
        k < outcomes.len(),
        forall|i: int| 0 <= i < k ==> is_retryable_response(#[trigger] outcomes[i]),
        outcomes[k as int] == (AttemptOutcome::Response { status }),
        !is_retryable_status(status) || k == retry,
    ensures
        run_spec(retry, retry_delay_nanos, outcomes).attempts == k + 1,
        run_spec(retry, retry_delay_nanos, outcomes).end == (RunEnd::Delivered { status }),
        run_spec(retry, retry_delay_nanos, outcomes).delays.len() == k,
{
    lemma_retried_then_delivered(retry, retry_delay_nanos, outcomes, k, status, 0);
}

/// While attempts remain, a transport error is retried after the same
/// delay as a response with a retryable status.
pub proof fn law_one_schedule(retry: u32, retry_delay_nanos: u64, attempt: nat, status: u16)
    requires
        attempts_remain(retry, attempt),
        is_retryable_status(status),
    ensures
        step_spec(retry, retry_delay_nanos, attempt, AttemptOutcome::TransportError) == step_spec(
            retry,
            retry_delay_nanos,
            attempt,
            AttemptOutcome::Response { status },
        ),
        step_spec(retry, retry_delay_nanos, attempt, AttemptOutcome::TransportError) is Retry,
{
}

/// With no retry configured exactly one attempt is made, whatever its
/// outcome, and nothing is waited for: a response is delivered with the
/// status it has, retryable or not.
pub proof fn law_no_retry_one_attempt(retry_delay_nanos: u64, outcomes: Seq<AttemptOutcome>)
    requires
        outcomes.len() > 0,
    ensures
        run_spec(0, retry_delay_nanos, outcomes).attempts == 1,
        run_spec(0, retry_delay_nanos, outcomes).delays.len() == 0,
        run_spec(0, retry_delay_nanos, outcomes).end == match outcomes[0] {
            AttemptOutcome::Response { status } => RunEnd::Delivered { status },
            AttemptOutcome::TransportError => RunEnd::Failed { error: ExecutionError::Transport },
            AttemptOutcome::CloneFailed => RunEnd::Failed { error: ExecutionError::RequestClone },
        },
{
}

proof fn lemma_delays_from(retry: u32, retry_delay_nanos: u64, outcomes: Seq<AttemptOutcome>, made: nat)
    ensures
        forall|j: int|
            0 <= j < run_from(retry, retry_delay_nanos, outcomes, made).delays.len() ==> (#[trigger] run_from(
                retry,
                retry_delay_nanos,
                outcomes,
                made,
            ).delays[j]) == capped(backoff_nanos(retry_delay_nanos, (made + j + 1) as nat)),
    decreases outcomes.len() - made,
{
    if made < outcomes.len() {
        let step = step_spec(retry, retry_delay_nanos, made + 1, outcomes[made as int]);
        if step is Retry {
            lemma_delays_from(retry, retry_delay_nanos, outcomes, made + 1);
            let rest = run_from(retry, retry_delay_nanos, outcomes, made + 1);
            let run = run_from(retry, retry_delay_nanos, outcomes, made);
            assert forall|j: int| 0 <= j < run.delays.len() implies (#[trigger] run.delays[j]) == capped(
                backoff_nanos(retry_delay_nanos, (made + j + 1) as nat),
            ) by {
                if j > 0 {
                }
            }
        }
    }
}

/// The delay waited before attempt `i + 1` is the base delay times two to
/// the power of `i - 1`, cut down to `u64::MAX` nanoseconds where it is
/// longer than that.
pub proof fn law_backoff_schedule(retry: u32, retry_delay_nanos: u64, outcomes: Seq<AttemptOutcome>, i: nat)
    requires
        1 <= i <= run_spec(retry, retry_delay_nanos, outcomes).delays.len(),
    ensures
        run_spec(retry, retry_delay_nanos, outcomes).delays[i - 1] == capped(
            retry_delay_nanos as nat * pow2((i - 1) as nat),
        ),
        retry_delay_nanos * pow2((i - 1) as nat) <= u64::MAX ==> run_spec(
            retry,
            retry_delay_nanos,
            outcomes,
        ).delays[i - 1] == retry_delay_nanos * pow2((i - 1) as nat),
{
    lemma_delays_from(retry, retry_delay_nanos, outcomes, 0);
}

proof fn lemma_attempts_from(retry: u32, retry_delay_nanos: u64, outcomes: Seq<AttemptOutcome>, made: nat)
    requires
        made <= retry,
        made <= outcomes.len(),
    ensures
        made <= run_from(retry, retry_delay_nanos, outcomes, made).attempts <= retry + 1,
        run_from(retry, retry_delay_nanos, outcomes, made).attempts <= outcomes.len(),
        run_from(retry, retry_delay_nanos, outcomes, made).end is Pending ==> run_from(
            retry,
            retry_delay_nanos,
            outcomes,
            made,
        ).attempts == made + run_from(retry, retry_delay_nanos, outcomes, made).delays.len(),
        run_from(retry, retry_delay_nanos, outcomes, made).end !is Pending ==> run_from(
            retry,
            retry_delay_nanos,
            outcomes,
            made,
        ).attempts == made + run_from(retry, retry_delay_nanos, outcomes, made).delays.len() + 1,
    decreases outcomes.len() - made,
{
    if made < outcomes.len() {
        let step = step_spec(retry, retry_delay_nanos, made + 1, outcomes[made as int]);
        if step is Retry {
            lemma_attempts_from(retry, retry_delay_nanos, outcomes, made + 1);
        }
    }
}

/// A run makes at most `retry + 1` attempts, and waits once between two
/// attempts: a run that has ended waited one time less than it made
/// attempts.
pub proof fn law_attempts_bounded(retry: u32, retry_delay_nanos: u64, outcomes: Seq<AttemptOutcome>)
    ensures
        run_spec(retry, retry_delay_nanos, outcomes).attempts <= retry + 1,
        run_spec(retry, retry_delay_nanos, outcomes).attempts <= outcomes.len(),
        run_spec(retry, retry_delay_nanos, outcomes).end !is Pending ==> run_spec(
            retry,
            retry_delay_nanos,
            outcomes,
        ).attempts == run_spec(retry, retry_delay_nanos, outcomes).delays.len() + 1,
        run_spec(retry, retry_delay_nanos, outcomes).end is Pending ==> run_spec(
            retry,
            retry_delay_nanos,
            outcomes,
        ).attempts == outcomes.len(),
{
    lemma_attempts_from(retry, retry_delay_nanos, outcomes, 0);
    lemma_pending_from(retry, retry_delay_nanos, outcomes, 0);
}

proof fn lemma_pending_from(retry: u32, retry_delay_nanos: u64, outcomes: Seq<AttemptOutcome>, made: nat)
    requires
        made <= outcomes.len(),
    ensures
        run_from(retry, retry_delay_nanos, outcomes, made).end is Pending ==> run_from(
            retry,
            retry_delay_nanos,
            outcomes,
            made,
        ).attempts == outcomes.len(),
    decreases outcomes.len() - made,
{
    if made < outcomes.len() {
        let step = step_spec(retry, retry_delay_nanos, made + 1, outcomes[made as int]);
        if step is Retry {
            lemma_pending_from(retry, retry_delay_nanos, outcomes, made + 1);
        }
    }
}

/// What to do before the next attempt: a line to show, where the run is
/// verbose, and the time to wait.
#[derive(Debug, Clone, PartialEq, Eq)]
pub struct RetryPause {
    pub message: Option<String>,
    pub delay_nanos: u64,
}

/// The line that announces a retry after a response.
pub open spec fn http_retry_message(status_code: u16) -> Seq<char> {
    "HTTP "@ + decimal_text(status_code as nat) + " - retrying after delay..."@
}

/// The line that announces a retry after a transport error.
pub open spec fn error_retry_message(error: Seq<char>) -> Seq<char> {
    "Request error: "@ + error + " - retrying after delay..."@
}

/// The line that opens attempt `current_attempt`, which is the retry
/// numbered one less.
pub open spec fn retry_banner(current_attempt: u64) -> Seq<char> {
    "--- Retry Attempt "@ + decimal_text((current_attempt - 1) as nat) + " ---"@
}

/// Prepares the retry after attempt `current_attempt` got a response with a
/// retryable status: the line to show, where the run is verbose, and the
/// delay to wait.
pub fn handle_retry_delay(config: &Config, current_attempt: u64, status_code: u16) -> (pause: RetryPause)
    ensures
        pause.delay_nanos == capped(backoff_nanos(config.retry_delay_nanos, current_attempt as nat)),
        text_view(pause.message) == if config.verbose {
            Some(http_retry_message(status_code))
        } else {
            None
        },
{
    let message = if config.verbose {
        let mut line = String::from_str("HTTP ");
        line.append(decimal_string(status_code as u64).as_str());
        line.append(" - retrying after delay...");
        Some(line)
    } else {
        None
    };
    RetryPause { message, delay_nanos: backoff_delay(config.retry_delay_nanos, current_attempt) }
}

/// Prepares the retry after attempt `current_attempt` failed in transport
/// with the error text `error`: the line to show, where the run is verbose,
/// and the delay to wait.
pub fn handle_request_error_retry(config: &Config, current_attempt: u64, error: &str) -> (pause: RetryPause)
    ensures
        pause.delay_nanos == capped(backoff_nanos(config.retry_delay_nanos, current_attempt as nat)),
        text_view(pause.message) == if config.verbose {
            Some(error_retry_message(error@))
        } else {
            None
        },
{
    let message = if config.verbose {
        let mut line = String::from_str("Request error: ");
        line.append(error);
        line.append(" - retrying after delay...");
        Some(line)
    } else {
        None
    };
    RetryPause { message, delay_nanos: backoff_delay(config.retry_delay_nanos, current_attempt) }
}

/// The line that opens attempt `current_attempt` of a verbose run: none
/// before the first attempt, the number of the retry before each later one.
pub fn retry_attempt_banner(config: &Config, current_attempt: u64) -> (banner: Option<String>)
    ensures
        text_view(banner) == if config.verbose && current_attempt > 1 {
            Some(retry_banner(current_attempt))
        } else {
            None
        },
{
    if config.verbose && current_attempt > 1 {
        let mut line = String::from_str("--- Retry Attempt ");
        line.append(decimal_string(current_attempt - 1).as_str());
        line.append(" ---");
        Some(line)
    } else {
        None
    }
}

} // verus!
