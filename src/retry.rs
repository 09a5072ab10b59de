//! Re-running a fallible operation: the decision taken after each attempt,
//! the back-off between attempts, and the classification of relay errors
//! into retryable and fatal ones.
use crate::nonce::NonceError;
use crate::pipeline::MismatchIbcEventsCountError;
use vstd::prelude::*;

verus! {

/// The result of one attempt of an operation.
#[derive(Clone, Copy, Debug, PartialEq, Eq)]
pub enum RetryOutcome<T, E> {
    Success(T),
    RetryableFailure(E),
    FatalFailure(E),
}

/// Why a retried operation gave up.
#[derive(Clone, Copy, Debug, PartialEq, Eq)]
pub enum RetryError<E> {
    /// An attempt failed in a way that retrying cannot mend.
    Fatal(E),
    /// Every allowed attempt failed; `last` is the last failure.
    MaxRetryExceeded { attempts: u64, last: E },
}

/// What follows an attempt.
#[derive(Debug, PartialEq, Eq)]
pub enum RetryStep<T, E> {
    Done(Result<T, RetryError<E>>),
    /// Attempt again after this many milliseconds.
    Retry(u64),
}

/// At most `max_attempts` attempts, the n-th retry waiting
/// `min(n * base_delay_ms, max_delay_ms)` milliseconds.
#[derive(Clone, Copy, Debug, PartialEq, Eq, Structural)]
pub struct RetryPolicy {
    pub max_attempts: u64,
    pub base_delay_ms: u64,
    pub max_delay_ms: u64,
}

impl RetryPolicy {
    pub open spec fn delay(self, attempt: u64) -> int {
        let d = self.base_delay_ms * attempt;
        if d < self.max_delay_ms {
            d
        } else {
            self.max_delay_ms as int
        }
    }

    /// The step that follows attempt number `attempt` (counting from one)
    /// when it had `outcome`.
    pub open spec fn decision<T, E>(self, attempt: u64, outcome: RetryOutcome<T, E>) -> RetryStep<
        T,
        E,
    > {
        match outcome {
            RetryOutcome::Success(v) => RetryStep::Done(Ok(v)),
            RetryOutcome::FatalFailure(e) => RetryStep::Done(Err(RetryError::Fatal(e))),
            RetryOutcome::RetryableFailure(e) => if attempt >= self.max_attempts {
                RetryStep::Done(Err(RetryError::MaxRetryExceeded { attempts: attempt, last: e }))
            } else {
                RetryStep::Retry(self.delay(attempt) as u64)
            },
        }
    }

    /// The wait before the retry that follows attempt number `attempt`.
    pub fn backoff_delay(&self, attempt: u64) -> (r: u64)
        ensures
            r == self.delay(attempt),
    {
        if attempt == 0 {
            return if 0 < self.max_delay_ms {
                0
            } else {
                self.max_delay_ms
            };
        }
        if self.base_delay_ms > self.max_delay_ms / attempt {
            proof {
                assert(self.base_delay_ms * attempt >= self.max_delay_ms) by (nonlinear_arith)
                    requires
                        self.base_delay_ms > self.max_delay_ms / attempt,
                        attempt > 0,
                ;
            }
            self.max_delay_ms
        } else {
            proof {
                assert(self.base_delay_ms * attempt <= self.max_delay_ms) by (nonlinear_arith)
                    requires
                        self.base_delay_ms <= self.max_delay_ms / attempt,
                        attempt > 0,
                ;
            }
            let d = self.base_delay_ms * attempt;
            if d < self.max_delay_ms {
                d
            } else {
                self.max_delay_ms
            }
        }
    }

    /// Decides what follows attempt number `attempt` given its outcome: a
    /// success or a fatal failure ends at once; a retryable failure is
    /// retried after the back-off until `max_attempts` attempts were made.
    pub fn decide<T, E>(&self, attempt: u64, outcome: RetryOutcome<T, E>) -> (r: RetryStep<T, E>)
        ensures
            r == self.decision(attempt, outcome),
    {
        match outcome {
            RetryOutcome::Success(v) => RetryStep::Done(Ok(v)),
            RetryOutcome::FatalFailure(e) => RetryStep::Done(Err(RetryError::Fatal(e))),
            RetryOutcome::RetryableFailure(e) => {
                if attempt >= self.max_attempts {
                    RetryStep::Done(Err(RetryError::MaxRetryExceeded { attempts: attempt, last: e }))
                } else {
                    RetryStep::Retry(self.backoff_delay(attempt))
                }
            },
        }
    }
}

/// Back-off never shrinks from one retry to the next.
pub proof fn lemma_delay_monotone(p: RetryPolicy, a: u64, b: u64)
    requires
        a <= b,
    ensures
        p.delay(a) <= p.delay(b),
{
    assert(p.base_delay_ms * a <= p.base_delay_ms * b) by (nonlinear_arith)
        requires
            a <= b,
    ;
}

/// The number of attempts made, counting from attempt `i + 1`, when the
/// attempts have the outcomes `outs` in turn.
pub open spec fn attempts_from<T, E>(p: RetryPolicy, outs: Seq<RetryOutcome<T, E>>, i: nat) -> nat
    decreases outs.len() - i,
{
    if i >= outs.len() {
        i
    } else if p.decision((i + 1) as u64, outs[i as int]) is Done {
        i + 1
    } else {
        attempts_from(p, outs, i + 1)
    }
}

/// Against an operation that only ever fails in a retryable way, a policy
/// of `K` attempts makes exactly `K` attempts, and the last one ends in
/// `MaxRetryExceeded` carrying the last failure.
pub proof fn lemma_retry_bound<T, E>(p: RetryPolicy, outs: Seq<RetryOutcome<T, E>>)
    requires
        p.max_attempts >= 1,
        outs.len() >= p.max_attempts,
        forall|i: int| 0 <= i < outs.len() ==> (#[trigger] outs[i]) is RetryableFailure,
    ensures
        attempts_from(p, outs, 0) == p.max_attempts,
        p.decision(p.max_attempts, outs[p.max_attempts - 1]) == RetryStep::<T, E>::Done(
            Err(
                RetryError::MaxRetryExceeded {
                    attempts: p.max_attempts,
                    last: outs[p.max_attempts - 1]->RetryableFailure_0,
                },
            ),
        ),
{
    lemma_retry_bound_from(p, outs, 0);
}

proof fn lemma_retry_bound_from<T, E>(p: RetryPolicy, outs: Seq<RetryOutcome<T, E>>, i: nat)
    requires
        p.max_attempts >= 1,
        outs.len() >= p.max_attempts,
        i < p.max_attempts,
        forall|j: int| 0 <= j < outs.len() ==> (#[trigger] outs[j]) is RetryableFailure,
    ensures
        attempts_from(p, outs, i) == p.max_attempts,
    decreases p.max_attempts - i,
{
    assert(outs[i as int] is RetryableFailure);
    if i + 1 < p.max_attempts {
        lemma_retry_bound_from(p, outs, i + 1);
    }
}

/// An operation whose first attempt fails fatally is attempted once.
pub proof fn lemma_fatal_stops_at_once<T, E>(p: RetryPolicy, outs: Seq<RetryOutcome<T, E>>)
    requires
        outs.len() >= 1,
        outs[0] is FatalFailure,
    ensures
        attempts_from(p, outs, 0) == 1,
        p.decision(1, outs[0]) == RetryStep::<T, E>::Done(
            Err(RetryError::Fatal(outs[0]->FatalFailure_0)),
        ),
{
}

/// The attempts of one retried operation so far.
pub struct Retrier {
    pub policy: RetryPolicy,
    pub attempts: u64,
    pub finished: bool,
}

impl Retrier {
    pub fn new(policy: RetryPolicy) -> (r: Retrier)
        ensures
            r.policy == policy,
            r.attempts == 0,
            !r.finished,
    {
        Retrier { policy, attempts: 0, finished: false }
    }

    /// Records the outcome of the next attempt and says what follows it.
    pub fn record<T, E>(&mut self, outcome: RetryOutcome<T, E>) -> (r: RetryStep<T, E>)
        requires
            !old(self).finished,
            old(self).attempts < old(self).policy.max_attempts,
        ensures
            final(self).policy == old(self).policy,
            final(self).attempts == old(self).attempts + 1,
            r == old(self).policy.decision(final(self).attempts, outcome),
            final(self).finished == r is Done,
            !final(self).finished ==> final(self).attempts < final(self).policy.max_attempts,
    {
        self.attempts = self.attempts + 1;
        let step = self.policy.decide(self.attempts, outcome);
        self.finished = match &step {
            RetryStep::Done(_) => true,
            RetryStep::Retry(_) => false,
        };
        step
    }
}

/// The errors of the relay engine.
#[derive(Clone, Copy, Debug, PartialEq, Eq)]
pub enum RelayError {
    /// The chain backend failed; it says whether the failure is transient.
    Chain { retryable: bool },
    /// Encoding, estimating or submitting a transaction failed.
    Submission { retryable: bool },
    /// No response came for a submitted transaction before the deadline.
    Timeout,
    Nonce(NonceError),
    /// A transaction's events did not match its messages one for one.
    MismatchIbcEventsCount(MismatchIbcEventsCountError),
    /// An operation was retried `attempts` times without success.
    MaxRetryExceeded { attempts: u64 },
    /// No acknowledgement is available to prove against.
    MissingAcknowledgement,
}

impl RelayError {
    /// Transient failures are worth another attempt: time-outs, a busy or
    /// unknown nonce, and the failures the backend marks as transient.
    /// Broken invariants and exhausted budgets are not.
    pub open spec fn retryable(self) -> bool {
        match self {
            RelayError::Chain { retryable } => retryable,
            RelayError::Submission { retryable } => retryable,
            RelayError::Timeout => true,
            RelayError::Nonce(n) => n == NonceError::Busy || n == NonceError::NeedsChainNonce,
            _ => false,
        }
    }

    pub fn is_retryable(&self) -> (r: bool)
        ensures
            r == self.retryable(),
    {
        match self {
            RelayError::Chain { retryable } => *retryable,
            RelayError::Submission { retryable } => *retryable,
            RelayError::Timeout => true,
            RelayError::Nonce(n) => *n == NonceError::Busy || *n == NonceError::NeedsChainNonce,
            _ => false,
        }
    }
}

/// The outcome of an attempt whose result is `result`.
pub fn classify<T>(result: Result<T, RelayError>) -> (r: RetryOutcome<T, RelayError>)
    ensures
        r == match result {
            Ok(v) => RetryOutcome::Success(v),
            Err(e) => if e.retryable() {
                RetryOutcome::RetryableFailure(e)
            } else {
                RetryOutcome::FatalFailure(e)
            },
        },
{
    match result {
        Ok(v) => RetryOutcome::Success(v),
        Err(e) => if e.is_retryable() {
            RetryOutcome::RetryableFailure(e)
        } else {
            RetryOutcome::FatalFailure(e)
        },
    }
}

} // verus!
