//! The retry policy for calls to the model gateway. Each response is
//! classified as done, fatal or worth retrying; retries back off
//! exponentially from two seconds and stop after ten.

use vstd::prelude::*;
use vstd::string::*;

use crate::text::{decimal, decimal_string};

verus! {

broadcast use vstd::string::group_string_axioms;

/// How many times a request is repeated after its first attempt.
pub const MAX_RETRIES: u32 = 10;

/// The pause before the first retry, in milliseconds.
pub const BASE_BACKOFF_MS: u64 = 2000;

/// What one response means for the call that is being retried.
pub enum Outcome<T> {
    /// The call produced its value.
    Done(T),
    /// The call failed for good, with this message.
    Fatal(String),
    /// The call should be made again.
    Retry,
}

/// What to do after an attempt.
pub enum RetryStep<T> {
    /// Stop, with this result.
    Finish(Result<T, String>),
    /// Wait this many milliseconds, then make attempt number `next_attempt`.
    Wait { backoff_ms: u64, next_attempt: u32 },
}

/// Two to the power `n`.
pub open spec fn two_to(n: nat) -> nat
    decreases n,
{
    if n == 0 {
        1
    } else {
        2 * two_to((n - 1) as nat)
    }
}

/// The pause after failed attempt number `attempt` (counting from one).
pub open spec fn backoff_after(attempt: nat) -> nat {
    (BASE_BACKOFF_MS as nat) * two_to((attempt - 1) as nat)
}

/// The message when the last allowed attempt still asked for a retry.
pub open spec fn exhausted_message(status: nat, body: Seq<char>) -> Seq<char> {
    "Gemini still failing after "@ + decimal(MAX_RETRIES as nat) + " retries (last status "@
        + decimal(status) + "): "@ + body
}

/// The step that follows attempt number `attempt` whose response, with
/// `status` and `body`, was classified as `outcome`.
pub open spec fn is_retry_step<T>(
    attempt: nat,
    outcome: Outcome<T>,
    status: nat,
    body: Seq<char>,
    step: RetryStep<T>,
) -> bool {
    match outcome {
        Outcome::Done(v) => step == RetryStep::<T>::Finish(Ok(v)),
        Outcome::Fatal(m) => step == RetryStep::<T>::Finish(Err(m)),
        Outcome::Retry => if attempt > MAX_RETRIES {
            step matches RetryStep::Finish(Err(m)) && m@ == exhausted_message(status, body)
        } else {
            step matches RetryStep::Wait { backoff_ms, next_attempt } && backoff_ms
                == backoff_after(attempt) && next_attempt == attempt + 1
        },
    }
}

proof fn lemma_two_to_monotonic(m: nat, n: nat)
    requires
        m <= n,
    ensures
        1 <= two_to(m) <= two_to(n),
    decreases n,
{
    if n > m {
        lemma_two_to_monotonic(m, (n - 1) as nat);
    } else if n > 0 {
        lemma_two_to_monotonic(0, (n - 1) as nat);
    }
}

proof fn lemma_two_to_bound(n: nat)
    requires
        n <= 9,
    ensures
        1 <= two_to(n) <= 512,
{
    assert(two_to(9) == 512) by {
        reveal_with_fuel(two_to, 10);
    }
    lemma_two_to_monotonic(n, 9);
}

/// `BASE_BACKOFF_MS * 2^(attempt - 1)` for an attempt that may be retried.
pub fn backoff_ms(attempt: u32) -> (res: u64)
    requires
        1 <= attempt <= MAX_RETRIES,
    ensures
        res == backoff_after(attempt as nat),
{
    let mut k: u32 = 0;
    let mut factor: u64 = 1;
    while k < attempt - 1
        invariant
            1 <= attempt <= MAX_RETRIES,
            k <= attempt - 1,
            factor == two_to(k as nat),
        decreases attempt - 1 - k,
    {
        proof {
            lemma_two_to_bound(k as nat);
        }
        factor = factor * 2;
        k = k + 1;
    }
    proof {
        lemma_two_to_bound(k as nat);
    }
    BASE_BACKOFF_MS * factor
}

/// Decides what follows attempt number `attempt` (counting from one) of a
/// request whose response had `status` and `body` and was classified as
/// `outcome`: a value or a fatal error ends the call; a retry waits and
/// tries again, until the attempt after the last retry.
pub fn retry_step<T>(attempt: u32, outcome: Outcome<T>, status: u16, body: &str) -> (res:
    RetryStep<T>)
    requires
        1 <= attempt,
    ensures
        is_retry_step(attempt as nat, outcome, status as nat, body@, res),
{
    match outcome {
        Outcome::Done(v) => RetryStep::Finish(Ok(v)),
        Outcome::Fatal(m) => RetryStep::Finish(Err(m)),
        Outcome::Retry => {
            if attempt > MAX_RETRIES {
                let mut m = String::from_str("Gemini still failing after ");
                m.append(decimal_string(MAX_RETRIES as u64).as_str());
                m.append(" retries (last status ");
                m.append(decimal_string(status as u64).as_str());
                m.append("): ");
                m.append(body);
                RetryStep::Finish(Err(m))
            } else {
                RetryStep::Wait { backoff_ms: backoff_ms(attempt), next_attempt: attempt + 1 }
            }
        },
    }
}

// ---------------------------------------------------------------------------
// Laws
// ---------------------------------------------------------------------------

/// Each retry waits twice as long as the one before it.
pub proof fn backoff_doubles(attempt: nat)
    requires
        1 <= attempt,
    ensures
        backoff_after(attempt + 1) == 2 * backoff_after(attempt),
{
    assert(two_to(attempt) == 2 * two_to((attempt - 1) as nat));
}

/// A request that is answered with "retry" every time is made at most
/// `MAX_RETRIES + 1` times: attempts one to `MAX_RETRIES` wait and move to
/// the next attempt, and the attempt after them ends the call with an error.
pub proof fn retries_are_bounded<T>(attempt: nat, status: nat, body: Seq<char>, step: RetryStep<T>)
    requires
        1 <= attempt,
        is_retry_step(attempt, Outcome::<T>::Retry, status, body, step),
    ensures
        attempt <= MAX_RETRIES ==> (step matches RetryStep::Wait { next_attempt, .. }
            && next_attempt == attempt + 1),
        attempt == MAX_RETRIES + 1 ==> step is Finish,
        step is Finish ==> attempt > MAX_RETRIES,
{
}

/// The pauses before `n` retries add up to `BASE_BACKOFF_MS * (2^n - 1)`.
pub proof fn total_backoff(n: nat)
    ensures
        total_backoff_of(n) == (BASE_BACKOFF_MS as nat) * (two_to(n) - 1),
    decreases n,
{
    if n > 0 {
        total_backoff((n - 1) as nat);
        lemma_two_to_monotonic(0, (n - 1) as nat);
    }
}

/// A request that is retried until it gives up waits 2046 seconds in all.
pub proof fn total_backoff_of_all_retries()
    ensures
        total_backoff_of(MAX_RETRIES as nat) == 2_046_000,
{
    total_backoff(MAX_RETRIES as nat);
    assert(two_to(10) == 1024) by {
        reveal_with_fuel(two_to, 11);
    }
}

/// The sum of the pauses after attempts one to `n`.
pub open spec fn total_backoff_of(n: nat) -> nat
    decreases n,
{
    if n == 0 {
        0
    } else {
        total_backoff_of((n - 1) as nat) + backoff_after(n)
    }
}

} // verus!
