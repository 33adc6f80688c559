use vstd::prelude::*;
use crate::text::{decimal, push_decimal};

verus! {

/// `anyhow::Error`, carried through unchanged as the cause of a fatal failure.
#[verifier::external_type_specification]
#[verifier::external_body]
pub struct ExAnyhowError(anyhow::Error);

/// Outcome of one attempt to open or initialise a device.
pub enum RetryDecision<T> {
    /// Successful attempt: the loop ends with this value.
    Success(T),
    /// Transient failure (the device is busy): sleep through the next
    /// backoff slot, then retry.
    BackoffRetry,
    /// Recoverable failure that needs no sleep: retry at once with
    /// refreshed parameters.
    ImmediateRetry,
    /// Permanent failure: stop with this error.
    Fatal(anyhow::Error),
}

/// How a failed attempt is retried.
#[derive(Clone, Copy, Debug, PartialEq, Eq, Structural)]
pub enum RetryKind {
    /// At once (`RetryDecision::ImmediateRetry`).
    Immediate,
    /// After the next backoff slot (`RetryDecision::BackoffRetry`).
    Backoff,
    /// Not at all (`RetryDecision::Fatal`).
    Fatal,
}

/// The most immediate retries a retry loop makes before it gives up.
pub const MAX_IMMEDIATE: usize = 4;

/// Default backoff schedule of the device initialisation paths, in
/// milliseconds (1.55 s in all).
pub const DEFAULT_INIT_BACKOFFS_MS: [u64; 5] = [50, 100, 200, 400, 800];

/// The counters of a running retry loop.
pub struct RetryState {
    pub backoff_used: usize,
    pub immediate_used: usize,
}

/// What the loop does after an attempt.
pub enum RetryStep<T> {
    /// Return this value.
    Finish(T),
    /// Sleep this many milliseconds, then make another attempt.
    Sleep(u64),
    /// Make another attempt at once.
    Retry,
    /// Give up with this message (the retries are exhausted).
    Exhausted(String),
    /// Give up with the attempt's own error.
    Fatal(anyhow::Error),
}

/// `"{label}: too many immediate retries (4)"`.
pub open spec fn too_many_immediate_message(label: Seq<char>) -> Seq<char> {
    label + ": too many immediate retries ("@ + decimal(MAX_IMMEDIATE as nat) + ")"@
}

/// `"{label}: still busy after {n} backoff retries"`.
pub open spec fn still_busy_message(label: Seq<char>, n: nat) -> Seq<char> {
    label + ": still busy after "@ + decimal(n) + " backoff retries"@
}

impl RetryState {
    pub open spec fn wf(&self, n_backoffs: nat) -> bool {
        self.backoff_used <= n_backoffs && self.immediate_used <= MAX_IMMEDIATE
    }

    /// How many more attempts may still be retried: the unused backoff
    /// slots and the unused immediate retries.
    pub open spec fn budget(&self, n_backoffs: nat) -> nat {
        ((n_backoffs - self.backoff_used) + (MAX_IMMEDIATE - self.immediate_used)) as nat
    }

    /// The state before the first attempt.
    pub fn new() -> (s: Self)
        ensures
            s.backoff_used == 0,
            s.immediate_used == 0,
    {
        RetryState { backoff_used: 0, immediate_used: 0 }
    }

    /// Decides what follows an attempt that ended with `decision`:
    /// success returns the value; an immediate retry is allowed four times
    /// and then fails; a backoff retry sleeps through the next slot of
    /// `backoffs_ms` and fails once they are all used; a fatal error is
    /// handed on as it is. `label` names the caller in the messages.
    pub fn step<T>(&mut self, decision: RetryDecision<T>, label: &str, backoffs_ms: &[u64]) -> (r: RetryStep<T>)
        requires
            old(self).wf(backoffs_ms@.len()),
        ensures
            match decision {
                RetryDecision::Success(v) => r == RetryStep::Finish(v) && *final(self) == *old(self),
                RetryDecision::Fatal(e) => r == RetryStep::<T>::Fatal(e) && *final(self) == *old(self),
                RetryDecision::ImmediateRetry => if old(self).immediate_used < MAX_IMMEDIATE {
                    r == RetryStep::<T>::Retry
                        && final(self).immediate_used == old(self).immediate_used + 1
                        && final(self).backoff_used == old(self).backoff_used
                } else {
                    (r matches RetryStep::<T>::Exhausted(m) && m@ == too_many_immediate_message(label@))
                        && *final(self) == *old(self)
                },
                RetryDecision::BackoffRetry => if old(self).backoff_used < backoffs_ms@.len() {
                    r == RetryStep::<T>::Sleep(backoffs_ms@[old(self).backoff_used as int])
                        && final(self).backoff_used == old(self).backoff_used + 1
                        && final(self).immediate_used == old(self).immediate_used
                } else {
                    (r matches RetryStep::<T>::Exhausted(m) && m@ == still_busy_message(label@, backoffs_ms@.len()))
                        && *final(self) == *old(self)
                },
            },
            // Every step that goes on keeps the counters in range and uses up
            // one unit of the budget, so a loop stops after at most
            // `backoffs_ms.len() + MAX_IMMEDIATE + 1` attempts.
            (r is Sleep || r is Retry) ==> final(self).wf(backoffs_ms@.len())
                && final(self).budget(backoffs_ms@.len()) + 1 == old(self).budget(backoffs_ms@.len()),
    {
        match decision {
            RetryDecision::Success(v) => RetryStep::Finish(v),
            RetryDecision::Fatal(e) => RetryStep::Fatal(e),
            RetryDecision::ImmediateRetry => {
                if self.immediate_used < MAX_IMMEDIATE {
                    self.immediate_used = self.immediate_used + 1;
                    RetryStep::Retry
                } else {
                    let mut m = String::from_str(label);
                    m.append(": too many immediate retries (");
                    push_decimal(&mut m, MAX_IMMEDIATE as u64);
                    m.append(")");
                    proof {
                        reveal_strlit(": too many immediate retries (");
                        reveal_strlit(")");
                    }
                    RetryStep::Exhausted(m)
                }
            },
            RetryDecision::BackoffRetry => {
                if self.backoff_used < backoffs_ms.len() {
                    let ms = backoffs_ms[self.backoff_used];
                    self.backoff_used = self.backoff_used + 1;
                    RetryStep::Sleep(ms)
                } else {
                    let mut m = String::from_str(label);
                    m.append(": still busy after ");
                    push_decimal(&mut m, backoffs_ms.len() as u64);
                    m.append(" backoff retries");
                    proof {
                        reveal_strlit(": still busy after ");
                        reveal_strlit(" backoff retries");
                    }
                    RetryStep::Exhausted(m)
                }
            },
        }
    }
}

/// A retry loop starts with a budget of one retry per backoff slot plus the
/// immediate retries; since every retry uses one unit, it makes at most
/// `n_backoffs + MAX_IMMEDIATE + 1` attempts.
pub proof fn lemma_initial_budget(n_backoffs: nat)
    ensures
        (RetryState { backoff_used: 0, immediate_used: 0 }).wf(n_backoffs),
        (RetryState { backoff_used: 0, immediate_used: 0 }).budget(n_backoffs) == n_backoffs + MAX_IMMEDIATE,
{
}

} // verus!
