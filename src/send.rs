use vstd::prelude::*;
use crate::error::{HidError, EIO};

verus! {

/// What the sender asks of its caller next.
#[derive(Clone, Copy, Debug)]
pub enum SendAction {
    /// Hand the report to the host's output call once more and record the outcome.
    Attempt,
    /// Delivery is over, with this result.
    Done(Result<(), HidError>),
}

/// Delivery of one outbound report with a bounded number of attempts. The
/// caller performs each attempt and records its outcome; the sender decides
/// whether to try again. Each attempt is bounded by `timeout_ms` on the host
/// side; no waiting happens here.
#[derive(Clone, Copy, Debug)]
pub struct SendSync {
    max_tries: u32,
    timeout_ms: u32,
    attempts: u32,
    last: Option<HidError>,
    succeeded: bool,
}

/// The error reported when no attempt was made at all.
pub open spec fn no_attempt_error() -> HidError {
    HidError::Transport((-EIO) as i32)
}

impl SendSync {
    pub closed spec fn wf(self) -> bool {
        &&& self.attempts <= self.max_tries
        &&& self.succeeded ==> self.attempts > 0
    }

    pub closed spec fn attempts_spec(self) -> u32 {
        self.attempts
    }

    pub closed spec fn max_tries_spec(self) -> u32 {
        self.max_tries
    }

    pub closed spec fn timeout_spec(self) -> u32 {
        self.timeout_ms
    }

    pub closed spec fn new_spec(max_tries: u32, timeout_ms: u32) -> SendSync {
        SendSync { max_tries, timeout_ms, attempts: 0, last: None, succeeded: false }
    }

    /// The next step: done on the first success; another attempt while
    /// attempts remain; else done with the last failure seen.
    pub closed spec fn action_spec(self) -> SendAction {
        if self.succeeded {
            SendAction::Done(Ok(()))
        } else if self.attempts < self.max_tries {
            SendAction::Attempt
        } else {
            SendAction::Done(
                Err(
                    match self.last {
                        Some(e) => e,
                        None => no_attempt_error(),
                    },
                ),
            )
        }
    }

    /// The sender after one more attempt with `outcome`.
    pub closed spec fn record_spec(self, outcome: Result<(), HidError>) -> SendSync {
        match outcome {
            Ok(()) => SendSync { attempts: (self.attempts + 1) as u32, succeeded: true, ..self },
            Err(e) => SendSync { attempts: (self.attempts + 1) as u32, last: Some(e), ..self },
        }
    }

    /// A sender that will make at most `max_tries` attempts.
    pub fn new(max_tries: u32, timeout_ms: u32) -> (r: SendSync)
        ensures
            r.wf(),
            r == SendSync::new_spec(max_tries, timeout_ms),
            r.attempts_spec() == 0,
            r.max_tries_spec() == max_tries,
            r.timeout_spec() == timeout_ms,
            max_tries > 0 ==> r.action_spec() == SendAction::Attempt,
            max_tries == 0 ==> r.action_spec() == SendAction::Done(Err(no_attempt_error())),
    {
        SendSync { max_tries, timeout_ms, attempts: 0, last: None, succeeded: false }
    }

    /// Attempts made so far.
    pub fn attempts(&self) -> (r: u32)
        ensures
            r == self.attempts_spec(),
    {
        self.attempts
    }

    /// The per-attempt bound the host transport should honour.
    pub fn timeout_ms(&self) -> (r: u32)
        ensures
            r == self.timeout_spec(),
    {
        self.timeout_ms
    }

    /// What to do next.
    pub fn action(&self) -> (r: SendAction)
        ensures
            r == self.action_spec(),
    {
        if self.succeeded {
            SendAction::Done(Ok(()))
        } else if self.attempts < self.max_tries {
            SendAction::Attempt
        } else {
            SendAction::Done(
                Err(
                    match self.last {
                        Some(e) => e,
                        None => HidError::Transport(-EIO),
                    },
                ),
            )
        }
    }

    /// Records the outcome of the attempt that `action` asked for.
    pub fn record(&mut self, outcome: Result<(), HidError>)
        requires
            old(self).wf(),
            old(self).action_spec() == SendAction::Attempt,
        ensures
            final(self).wf(),
            *final(self) == old(self).record_spec(outcome),
            final(self).attempts_spec() == old(self).attempts_spec() + 1,
            final(self).max_tries_spec() == old(self).max_tries_spec(),
            outcome.is_ok() ==> final(self).action_spec() == SendAction::Done(Ok(())),
            outcome.is_err() && final(self).attempts_spec() < final(self).max_tries_spec()
                ==> final(self).action_spec() == SendAction::Attempt,
            outcome.is_err() && final(self).attempts_spec() == final(self).max_tries_spec()
                ==> final(self).action_spec() == SendAction::Done(outcome),
    {
        self.attempts = self.attempts + 1;
        match outcome {
            Ok(()) => {
                self.succeeded = true;
            },
            Err(e) => {
                self.last = Some(e);
            },
        }
    }
}

/// The sender after its caller has fed it `outcomes` in order, one per
/// requested attempt, stopping once it is done or the outcomes run out.
pub open spec fn run(s: SendSync, outcomes: Seq<Result<(), HidError>>) -> SendSync
    decreases outcomes.len(),
{
    if outcomes.len() == 0 || s.action_spec() != SendAction::Attempt {
        s
    } else {
        run(s.record_spec(outcomes[0]), outcomes.drop_first())
    }
}

proof fn lemma_run_all_fail(s: SendSync, outcomes: Seq<Result<(), HidError>>)
    requires
        s.wf(),
        !s.succeeded,
        s.attempts < s.max_tries,
        outcomes.len() >= s.max_tries - s.attempts,
        forall|i: int| 0 <= i < s.max_tries - s.attempts ==> (#[trigger] outcomes[i]).is_err(),
    ensures
        run(s, outcomes).attempts_spec() == s.max_tries,
        run(s, outcomes).action_spec() == SendAction::Done(
            outcomes[s.max_tries - s.attempts - 1],
        ),
    decreases outcomes.len(),
{
    let n = s.max_tries - s.attempts;
    let t = s.record_spec(outcomes[0]);
    let rest = outcomes.drop_first();
    assert(outcomes[0].is_err());
    if n == 1 {
        assert(run(t, rest) == t);
    } else {
        assert forall|i: int| 0 <= i < t.max_tries - t.attempts implies (#[trigger] rest[i]).is_err() by {
            assert(rest[i] == outcomes[i + 1]);
        }
        lemma_run_all_fail(t, rest);
        assert(rest[t.max_tries - t.attempts - 1] == outcomes[n - 1]);
    }
}

proof fn lemma_run_first_success(s: SendSync, outcomes: Seq<Result<(), HidError>>, n: int)
    requires
        s.wf(),
        !s.succeeded,
        0 <= n,
        s.attempts + n < s.max_tries,
        outcomes.len() > n,
        forall|j: int| 0 <= j < n ==> (#[trigger] outcomes[j]).is_err(),
        outcomes[n].is_ok(),
    ensures
        run(s, outcomes).attempts_spec() == s.attempts + n + 1,
        run(s, outcomes).action_spec() == SendAction::Done(Ok(())),
    decreases n,
{
    let t = s.record_spec(outcomes[0]);
    let rest = outcomes.drop_first();
    if n == 0 {
        assert(run(t, rest) == t);
    } else {
        assert(outcomes[0].is_err());
        assert forall|j: int| 0 <= j < n - 1 implies (#[trigger] rest[j]).is_err() by {
            assert(rest[j] == outcomes[j + 1]);
        }
        assert(rest[n - 1] == outcomes[n]);
        lemma_run_first_success(t, rest, n - 1);
    }
}

/// A sender allowed `k` attempts whose every attempt fails makes exactly `k`
/// attempts and ends with the last failure.
pub proof fn lemma_send_sync_persistent_failure(
    k: u32,
    timeout_ms: u32,
    outcomes: Seq<Result<(), HidError>>,
)
    requires
        k >= 1,
        outcomes.len() >= k,
        forall|i: int| 0 <= i < k ==> (#[trigger] outcomes[i]).is_err(),
    ensures
        run(SendSync::new_spec(k, timeout_ms), outcomes).attempts_spec() == k,
        run(SendSync::new_spec(k, timeout_ms), outcomes).action_spec() == SendAction::Done(
            outcomes[k - 1],
        ),
{
    lemma_run_all_fail(SendSync::new_spec(k, timeout_ms), outcomes);
}

/// A sender allowed `k` attempts whose attempt `i` (counting from one) is the
/// first to succeed makes exactly `i` attempts and ends in success.
pub proof fn lemma_send_sync_first_success(
    k: u32,
    timeout_ms: u32,
    outcomes: Seq<Result<(), HidError>>,
    i: int,
)
    requires
        1 <= i <= k,
        outcomes.len() >= i,
        forall|j: int| 0 <= j < i - 1 ==> (#[trigger] outcomes[j]).is_err(),
        outcomes[i - 1].is_ok(),
    ensures
        run(SendSync::new_spec(k, timeout_ms), outcomes).attempts_spec() == i,
        run(SendSync::new_spec(k, timeout_ms), outcomes).action_spec() == SendAction::Done(Ok(())),
{
    lemma_run_first_success(SendSync::new_spec(k, timeout_ms), outcomes, i - 1);
}

} // verus!
