use vstd::prelude::*;
use crate::decimal::{parse_u64, u64_of_text};
use crate::error::{DispatchError, ErrorView};

verus! {

/// Delay before the first retry, in milliseconds.
pub const BACKOFF_BASE_MS: u64 = 200;

/// Longest delay between two attempts, in milliseconds.
pub const BACKOFF_CAP_MS: u64 = 30000;

/// Delay after failed attempt number `attempt` (counted from 1): doubling
/// from the base, never above the cap.
pub open spec fn backoff_ms(attempt: nat) -> nat
    decreases attempt,
{
    if attempt <= 1 {
        BACKOFF_BASE_MS as nat
    } else {
        let d = 2 * backoff_ms((attempt - 1) as nat);
        if d > BACKOFF_CAP_MS {
            BACKOFF_CAP_MS as nat
        } else {
            d
        }
    }
}

proof fn lemma_backoff_bounded(attempt: nat)
    ensures
        BACKOFF_BASE_MS <= backoff_ms(attempt) <= BACKOFF_CAP_MS,
    decreases attempt,
{
    if attempt > 1 {
        lemma_backoff_bounded((attempt - 1) as nat);
    }
}

proof fn lemma_backoff_stays_capped(from: nat, to: nat)
    requires
        from <= to,
        backoff_ms(from) == BACKOFF_CAP_MS,
    ensures
        backoff_ms(to) == BACKOFF_CAP_MS,
    decreases to - from,
{
    if from < to {
        lemma_backoff_stays_capped(from, (to - 1) as nat);
    }
}

/// The backoff never shrinks from one attempt to a later one.
pub proof fn lemma_backoff_monotonic(a: nat, b: nat)
    requires
        a <= b,
    ensures
        backoff_ms(a) <= backoff_ms(b),
    decreases b - a,
{
    if a < b {
        lemma_backoff_monotonic(a, (b - 1) as nat);
        lemma_backoff_bounded((b - 1) as nat);
        if b > 1 {
            lemma_backoff_bounded(b);
        }
    }
}

/// Delay in milliseconds after failed attempt number `attempt`.
pub fn backoff(attempt: u64) -> (r: u64)
    ensures
        r == backoff_ms(attempt as nat),
{
    let mut d: u64 = BACKOFF_BASE_MS;
    let mut i: u64 = 1;
    while i < attempt && d < BACKOFF_CAP_MS
        invariant
            1 <= i,
            i <= attempt || i == 1,
            d == backoff_ms(i as nat),
            d <= BACKOFF_CAP_MS,
        decreases attempt - i,
    {
        d = if d > BACKOFF_CAP_MS / 2 {
            BACKOFF_CAP_MS
        } else {
            2 * d
        };
        i = i + 1;
    }
    proof {
        if i < attempt {
            lemma_backoff_stays_capped(i as nat, attempt as nat);
        }
    }
    d
}

/// What one attempt to send the request came back with.
#[derive(Debug)]
pub enum SendOutcome {
    /// A response arrived with this status and, if the server sent one and
    /// it is text, the value of its `Retry-After` header.
    Response { status: u16, retry_after: Option<String> },
    /// No response was received; the text describes the failure.
    Transport(String),
}

/// What the dispatcher does next.
#[derive(Debug)]
pub enum RetryStep {
    /// Success: start decoding the body and hand the event queue out.
    Stream,
    /// Non-retryable status: drain the body and return
    /// `DispatchError::UnexpectedStatus` with it.
    Reject { status: u16 },
    /// Give up with this error.
    Fail(DispatchError),
    /// Sleep this many milliseconds, then send again.
    Wait { delay_ms: u64 },
}

/// Model of a `RetryStep`.
pub enum RetryStepView {
    Stream,
    Reject(u16),
    Fail(ErrorView),
    Wait(u64),
}

impl View for RetryStep {
    type V = RetryStepView;

    open spec fn view(&self) -> RetryStepView {
        match self {
            RetryStep::Stream => RetryStepView::Stream,
            RetryStep::Reject { status } => RetryStepView::Reject(*status),
            RetryStep::Fail(e) => RetryStepView::Fail(e@),
            RetryStep::Wait { delay_ms } => RetryStepView::Wait(*delay_ms),
        }
    }
}

/// The retry loop of one call: how many sends were followed by a retry,
/// and the ceiling on retries.
#[derive(Debug)]
pub struct RetryLoop {
    retries: u64,
    max_retries: u64,
}

/// Model of a `RetryLoop`.
pub struct RetryView {
    pub retries: u64,
    pub max_retries: u64,
}

impl View for RetryLoop {
    type V = RetryView;

    closed spec fn view(&self) -> RetryView {
        RetryView { retries: self.retries, max_retries: self.max_retries }
    }
}

/// A 2xx status.
pub open spec fn is_success(status: u16) -> bool {
    200 <= status <= 299
}

/// A status worth retrying: 429 or any 5xx.
pub open spec fn is_retryable(status: u16) -> bool {
    status == 429 || (500 <= status <= 599)
}

/// Milliseconds in `secs` seconds, saturating at the largest `u64`.
pub open spec fn secs_to_ms(secs: u64) -> u64 {
    if secs > u64::MAX / 1000 {
        u64::MAX
    } else {
        (secs * 1000) as u64
    }
}

/// Delay before the retry that follows a retryable status: the server's
/// `Retry-After` seconds when present and readable, else the backoff.
pub open spec fn retry_delay(attempt: nat, retry_after: Option<String>) -> u64 {
    match retry_after {
        Some(t) => match u64_of_text(t@) {
            Some(secs) => secs_to_ms(secs),
            None => backoff_ms(attempt) as u64,
        },
        None => backoff_ms(attempt) as u64,
    }
}

/// The dispatcher's rule for one outcome.
pub open spec fn next_step(s: RetryView, o: SendOutcome) -> (RetryView, RetryStepView) {
    let attempt = (s.retries + 1) as nat;
    let again = RetryView { retries: (s.retries + 1) as u64, ..s };
    match o {
        SendOutcome::Response { status, retry_after } => if is_success(status) {
            (s, RetryStepView::Stream)
        } else if !is_retryable(status) {
            (s, RetryStepView::Reject(status))
        } else if s.retries >= s.max_retries {
            (s, RetryStepView::Fail(ErrorView::RetryLimit(status)))
        } else {
            (again, RetryStepView::Wait(retry_delay(attempt, retry_after)))
        },
        SendOutcome::Transport(e) => if s.retries >= s.max_retries {
            (s, RetryStepView::Fail(ErrorView::Transport(e@)))
        } else {
            (again, RetryStepView::Wait(backoff_ms(attempt) as u64))
        },
    }
}

/// Sends made, and the final step, when each send comes back with the
/// next of `outcomes` (`None`: the outcomes ran out first).
pub open spec fn run(s: RetryView, outcomes: Seq<SendOutcome>) -> (nat, Option<RetryStepView>)
    decreases outcomes.len(),
{
    if outcomes.len() == 0 {
        (0, None)
    } else {
        let (next, step) = next_step(s, outcomes[0]);
        match step {
            RetryStepView::Wait(_) => {
                let (n, last) = run(next, outcomes.drop_first());
                (n + 1, last)
            },
            _ => (1, Some(step)),
        }
    }
}

impl RetryLoop {
    /// A retry loop that has sent nothing yet.
    pub fn new(max_retries: u64) -> (r: Self)
        ensures
            r@ == (RetryView { retries: 0, max_retries }),
    {
        RetryLoop { retries: 0, max_retries }
    }

    /// Decides what follows one send.
    pub fn on_outcome(&mut self, outcome: SendOutcome) -> (r: RetryStep)
        ensures
            (final(self)@, r@) == next_step(old(self)@, outcome),
    {
        match outcome {
            SendOutcome::Response { status, retry_after } => {
                if 200 <= status && status <= 299 {
                    RetryStep::Stream
                } else if !(status == 429 || (500 <= status && status <= 599)) {
                    RetryStep::Reject { status }
                } else if self.retries >= self.max_retries {
                    RetryStep::Fail(DispatchError::RetryLimit(status))
                } else {
                    let attempt = self.retries + 1;
                    let parsed = match &retry_after {
                        Some(t) => parse_u64(t.as_str()),
                        None => None,
                    };
                    let delay_ms = match parsed {
                        Some(secs) => if secs > u64::MAX / 1000 {
                            u64::MAX
                        } else {
                            secs * 1000
                        },
                        None => backoff(attempt),
                    };
                    self.retries = attempt;
                    RetryStep::Wait { delay_ms }
                }
            },
            SendOutcome::Transport(e) => {
                if self.retries >= self.max_retries {
                    RetryStep::Fail(DispatchError::Transport(e))
                } else {
                    let attempt = self.retries + 1;
                    self.retries = attempt;
                    RetryStep::Wait { delay_ms: backoff(attempt) }
                }
            },
        }
    }
}

/// A loop that has sent nothing yet.
pub open spec fn fresh(max_retries: u64) -> RetryView {
    RetryView { retries: 0, max_retries }
}

/// Every outcome is a response with this status.
pub open spec fn all_status(outcomes: Seq<SendOutcome>, status: u16) -> bool {
    forall|i: int|
        0 <= i < outcomes.len() ==> (#[trigger] outcomes[i] matches SendOutcome::Response {
            status: st,
            ..
        } && st == status)
}

proof fn lemma_retryable_from(s: RetryView, outcomes: Seq<SendOutcome>, status: u16)
    requires
        is_retryable(status),
        all_status(outcomes, status),
        s.retries <= s.max_retries,
        outcomes.len() > s.max_retries - s.retries,
    ensures
        run(s, outcomes) == ((s.max_retries - s.retries + 1) as nat, Some(
            RetryStepView::Fail(ErrorView::RetryLimit(status)),
        )),
    decreases s.max_retries - s.retries,
{
    assert(outcomes[0] matches SendOutcome::Response { status: st, .. } && st == status);
    if s.retries < s.max_retries {
        let next = RetryView { retries: (s.retries + 1) as u64, ..s };
        let rest = outcomes.drop_first();
        assert forall|i: int| 0 <= i < rest.len() implies (#[trigger] rest[i] matches SendOutcome::Response {
            status: st,
            ..
        } && st == status) by {
            assert(rest[i] == outcomes[i + 1]);
        }
        lemma_retryable_from(next, rest, status);
    }
}

/// A status that stays retryable exhausts the retries: with a ceiling of
/// `max_retries`, the dispatcher sends exactly `max_retries + 1` times and
/// then fails with `RetryLimit` of that status.
pub proof fn lemma_retry_limit(max_retries: u64, outcomes: Seq<SendOutcome>, status: u16)
    requires
        is_retryable(status),
        all_status(outcomes, status),
        outcomes.len() > max_retries,
    ensures
        run(fresh(max_retries), outcomes) == ((max_retries + 1) as nat, Some(
            RetryStepView::Fail(ErrorView::RetryLimit(status)),
        )),
{
    lemma_retryable_from(fresh(max_retries), outcomes, status);
}

/// A status that is neither a success nor retryable ends the call on the
/// first send, whatever the ceiling: the body is drained and returned
/// with the status.
pub proof fn lemma_rejected_once(max_retries: u64, outcomes: Seq<SendOutcome>, status: u16)
    requires
        outcomes.len() > 0,
        outcomes[0] matches SendOutcome::Response { status: st, .. } && st == status,
        !is_success(status),
        !is_retryable(status),
    ensures
        run(fresh(max_retries), outcomes) == (1nat, Some(RetryStepView::Reject(status))),
{
}

} // verus!
