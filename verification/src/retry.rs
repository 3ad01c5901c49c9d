//! The retry classifier: after a failed attempt it decides, from the
//! request method, the failure and the attempt counts, whether the
//! failure is surfaced as final or the request is retried after a
//! linear backoff delay.

use vstd::prelude::*;

use crate::method::HttpMethod;

verus! {

/// Base backoff delay in milliseconds; the delay after the n-th attempt
/// fails is this value multiplied by n.
pub const RETRY_BASE_DELAY_MS: u64 = 200;

/// How a failed attempt presented itself.
#[derive(Clone, Copy, Debug, PartialEq, Eq, Structural)]
pub enum FailureKind {
    /// The connection could not be established.
    Connect,
    /// The attempt exceeded the configured timeout.
    Timeout,
    /// The server answered with an error status code.
    Status(u16),
    /// Any other failure.
    Other,
}

/// A classified request failure: its kind, and whether a broken-pipe
/// condition was found anywhere in its cause chain (the peer closed the
/// connection before the request was fully sent, so the request is
/// provably pre-transmission and safe to retry).
#[derive(Clone, Copy, Debug, PartialEq, Eq, Structural)]
pub struct RequestFailure {
    pub kind: FailureKind,
    pub broken_pipe: bool,
}

/// What the classifier decides on one failure.
#[derive(Clone, Copy, Debug, PartialEq, Eq, Structural)]
pub enum RetryDecision {
    /// Stop: surface the failure as the request's final error.
    Forward,
    /// Wait for the given delay and make another attempt.
    WaitRetry { delay_ms: u64 },
}

/// Status codes treated as transient, so worth retrying.
pub open spec fn spec_is_transient_status(code: u16) -> bool {
    ||| code == 408
    ||| code == 413
    ||| code == 429
    ||| code == 500
    ||| code == 502
    ||| code == 503
    ||| code == 504
    ||| code == 521
    ||| code == 522
    ||| code == 524
}

pub fn is_transient_status(code: u16) -> (r: bool)
    ensures
        r == spec_is_transient_status(code),
{
    match code {
        408 | 413 | 429 | 500 | 502 | 503 | 504 | 521 | 522 | 524 => true,
        _ => false,
    }
}

/// Whether a failure is eligible for a retry at all: connection
/// failures, timeouts and transient status codes are, as is anything
/// unrecognised (a permissive default); a status code outside the
/// transient set is final.
pub open spec fn spec_is_transient(f: RequestFailure) -> bool {
    match f.kind {
        FailureKind::Connect => true,
        FailureKind::Timeout => true,
        FailureKind::Status(code) => spec_is_transient_status(code),
        FailureKind::Other => true,
    }
}

/// Whether a failure may be retried even for a non-idempotent method:
/// only when it is provably pre-transmission, that is a connection
/// failure or a broken-pipe condition.
pub open spec fn spec_safe_for_non_idempotent(f: RequestFailure) -> bool {
    f.kind == FailureKind::Connect || f.broken_pipe
}

/// The backoff delay prescribed when a retry is decided after the n-th
/// attempt: the base delay multiplied by n (linear growth).
pub open spec fn spec_retry_delay_ms(n: u32) -> u64 {
    (RETRY_BASE_DELAY_MS * n) as u64
}

/// Per-request retry state: the method, fixed for the request's
/// lifetime; the number of attempts made so far; and the
/// caller-supplied ceiling on attempts.
pub struct Attempter {
    pub method: HttpMethod,
    pub attempts: u32,
    pub max_attempts: u32,
}

impl Attempter {
    /// What the classifier decides on one failure, given the current state:
    /// 1. at or past the attempt ceiling, the failure is final;
    /// 2. for a non-idempotent method, a failure that is not provably
    ///    pre-transmission is final, whatever the ceiling;
    /// 3. otherwise a transient failure is retried after a delay of the
    ///    base delay multiplied by the number of attempts made, and a
    ///    non-transient one is final.
    pub open spec fn spec_decision(self, f: RequestFailure) -> RetryDecision {
        if self.attempts >= self.max_attempts {
            RetryDecision::Forward
        } else if !self.method.spec_is_idempotent() && !spec_safe_for_non_idempotent(f) {
            RetryDecision::Forward
        } else if spec_is_transient(f) {
            RetryDecision::WaitRetry { delay_ms: spec_retry_delay_ms(self.attempts) }
        } else {
            RetryDecision::Forward
        }
    }

    /// The state after one decision: the attempt counter advances
    /// exactly when a retry was decided.
    pub open spec fn spec_next(self, f: RequestFailure) -> Attempter {
        if self.spec_decision(f) is WaitRetry {
            Attempter { attempts: (self.attempts + 1) as u32, ..self }
        } else {
            self
        }
    }

    /// Fresh retry state for a request about to make its first attempt;
    /// `attempts` counts that first attempt as made, since the
    /// classifier is only ever consulted once an attempt has failed.
    pub fn new(method: HttpMethod, attempts: u32) -> (r: Attempter)
        ensures
            r.method == method,
            r.attempts == 1,
            r.max_attempts == attempts,
    {
        Attempter { method, attempts: 1, max_attempts: attempts }
    }

    /// Classify one failure: the decision is `spec_decision`, and the
    /// counter advances per `spec_next`.
    pub fn handle(&mut self, f: &RequestFailure) -> (r: RetryDecision)
        ensures
            r == old(self).spec_decision(*f),
            *final(self) == old(self).spec_next(*f),
    {
        if self.attempts >= self.max_attempts {
            return RetryDecision::Forward;
        }

        let safe = matches!(f.kind, FailureKind::Connect) || f.broken_pipe;
        if !self.method.is_idempotent() && !safe {
            return RetryDecision::Forward;
        }

        let transient = match f.kind {
            FailureKind::Connect => true,
            FailureKind::Timeout => true,
            FailureKind::Status(code) => is_transient_status(code),
            FailureKind::Other => true,
        };

        if transient {
            let delay_ms: u64 = RETRY_BASE_DELAY_MS * self.attempts as u64;
            self.attempts = self.attempts + 1;
            RetryDecision::WaitRetry { delay_ms }
        } else {
            RetryDecision::Forward
        }
    }
}

/// What one whole retry loop does, as a pure function of the outcome
/// each attempt would meet: `rest[i]` is the outcome of the next
/// attempt but i (`None` for success, `Some` for a failure). The result
/// is the number of attempts made, the backoff delays slept between
/// them, and the final outcome: `None` when an attempt succeeded,
/// `Some` when a failure was surfaced as final.
pub open spec fn spec_run(st: Attempter, rest: Seq<Option<RequestFailure>>) -> (nat, Seq<
    u64,
>, Option<RequestFailure>)
    decreases rest.len(),
{
    if rest.len() == 0 {
        (0, Seq::empty(), None)
    } else {
        match rest[0] {
            None => (1nat, Seq::empty(), None::<RequestFailure>),
            Some(f) => match st.spec_decision(f) {
                RetryDecision::Forward => (1nat, Seq::empty(), Some(f)),
                RetryDecision::WaitRetry { delay_ms } => {
                    let (n, ds, o) = spec_run(st.spec_next(f), rest.drop_first());
                    ((n + 1) as nat, seq![delay_ms] + ds, o)
                },
            },
        }
    }
}

/// The trace of one request's attempt loop: how many attempts were
/// made, the delays slept between them, and the final outcome (`None`
/// when an attempt succeeded, `Some` for the failure surfaced as
/// final).
#[derive(Debug, PartialEq, Eq)]
pub struct RetryTrace {
    pub attempts_made: u32,
    pub delays_ms: Vec<u64>,
    pub outcome: Option<RequestFailure>,
}

/// The orchestrator's retry loop, replayed over a prerecorded sequence
/// of attempt outcomes: attempts are made one after the other, the
/// classifier is consulted after each failure, and the loop stops on
/// the first success or on the first failure the classifier surfaces
/// as final.
pub fn run_attempts(method: HttpMethod, max_attempts: u32, outcomes: &Vec<
    Option<RequestFailure>,
>) -> (t: RetryTrace)
    requires
        outcomes@.len() >= 1,
        outcomes@.len() >= max_attempts,
    ensures
        t.attempts_made == spec_run(
            Attempter { method, attempts: 1, max_attempts },
            outcomes@,
        ).0,
        t.delays_ms@ == spec_run(Attempter { method, attempts: 1, max_attempts }, outcomes@).1,
        t.outcome == spec_run(Attempter { method, attempts: 1, max_attempts }, outcomes@).2,
{
    let ghost st0 = Attempter { method, attempts: 1, max_attempts };
    let mut att = Attempter::new(method, max_attempts);
    let mut delays: Vec<u64> = Vec::new();
    let mut i: usize = 0;

    proof {
        assert(outcomes@.skip(0) =~= outcomes@);
    }

    loop
        invariant
            st0 == (Attempter { method, attempts: 1u32, max_attempts }),
            att.method == method,
            att.max_attempts == max_attempts,
            att.attempts as int == i + 1,
            i < outcomes@.len(),
            outcomes@.len() >= max_attempts,
            delays@.len() == i,
            spec_run(st0, outcomes@).0 == i + spec_run(att, outcomes@.skip(i as int)).0,
            spec_run(st0, outcomes@).1 == delays@ + spec_run(att, outcomes@.skip(i as int)).1,
            spec_run(st0, outcomes@).2 == spec_run(att, outcomes@.skip(i as int)).2,
        decreases outcomes@.len() - i,
    {
        let ghost rest = outcomes@.skip(i as int);
        proof {
            assert(rest[0] == outcomes@[i as int]);
            assert(rest.drop_first() =~= outcomes@.skip(i as int + 1));
        }
        let cur = outcomes[i];
        match cur {
            None => {
                let result = RetryTrace {
                    attempts_made: att.attempts,
                    delays_ms: delays,
                    outcome: None,
                };
                proof {
                    assert(result.delays_ms@ =~= spec_run(st0, outcomes@).1);
                }
                return result;
            },
            Some(f) => {
                match att.handle(&f) {
                    RetryDecision::Forward => {
                        let result = RetryTrace {
                            attempts_made: att.attempts,
                            delays_ms: delays,
                            outcome: Some(f),
                        };
                        proof {
                            assert(result.delays_ms@ =~= spec_run(st0, outcomes@).1);
                        }
                        return result;
                    },
                    RetryDecision::WaitRetry { delay_ms } => {
                        proof {
                            let (n, ds, o) = spec_run(att, outcomes@.skip(i as int + 1));
                            assert(delays@ + (seq![delay_ms] + ds) =~= delays@.push(delay_ms)
                                + ds);
                        }
                        delays.push(delay_ms);
                        i = i + 1;
                    },
                }
            },
        }
    }
}

/// In any attempt loop, the delays slept grow linearly: the j-th
/// backoff of a loop entered after n attempts is the base delay
/// multiplied by n + j.
pub proof fn lemma_run_delays_linear(st: Attempter, outcomes: Seq<Option<RequestFailure>>)
    ensures
        forall|j: int|
            0 <= j < spec_run(st, outcomes).1.len() ==> #[trigger] spec_run(st, outcomes).1[j]
                == spec_retry_delay_ms((st.attempts + j) as u32),
    decreases outcomes.len(),
{
    if outcomes.len() != 0 {
        match outcomes[0] {
            None => {},
            Some(f) => match st.spec_decision(f) {
                RetryDecision::Forward => {},
                RetryDecision::WaitRetry { delay_ms } => {
                    let st1 = st.spec_next(f);
                    lemma_run_delays_linear(st1, outcomes.drop_first());
                    let ds = spec_run(st, outcomes).1;
                    let ds1 = spec_run(st1, outcomes.drop_first()).1;
                    assert(delay_ms == spec_retry_delay_ms(st.attempts));
                    assert forall|j: int| 0 <= j < ds.len() implies #[trigger] ds[j]
                        == spec_retry_delay_ms((st.attempts + j) as u32) by {
                        if j > 0 {
                            assert(ds[j] == ds1[j - 1]);
                            assert(ds1[j - 1] == spec_retry_delay_ms(
                                (st1.attempts + (j - 1)) as u32,
                            ));
                        }
                    }
                },
            },
        }
    }
}

/// For an idempotent method, a connection failure is retried after
/// every attempt until the ceiling is reached, each retry with the
/// linear backoff delay, and the failure met at the ceiling is
/// surfaced as final.
pub proof fn lemma_idempotent_connect_retried_to_ceiling(
    st: Attempter,
    outcomes: Seq<Option<RequestFailure>>,
)
    requires
        st.method.spec_is_idempotent(),
        1 <= st.attempts <= st.max_attempts,
        outcomes.len() >= st.max_attempts - st.attempts + 1,
        forall|i: int|
            0 <= i < outcomes.len() ==> ((#[trigger] outcomes[i]) matches Some(f) && f.kind
                == FailureKind::Connect),
    ensures
        ({
            let (n, ds, o) = spec_run(st, outcomes);
            &&& n == st.max_attempts - st.attempts + 1
            &&& o == outcomes[st.max_attempts - st.attempts]
            &&& ds.len() == st.max_attempts - st.attempts
            &&& forall|j: int|
                0 <= j < ds.len() ==> #[trigger] ds[j] == spec_retry_delay_ms(
                    (st.attempts + j) as u32,
                )
        }),
    decreases st.max_attempts - st.attempts,
{
    let f = outcomes[0]->Some_0;
    if st.attempts == st.max_attempts {
        assert(st.spec_decision(f) == RetryDecision::Forward);
    } else {
        let st1 = st.spec_next(f);
        lemma_idempotent_connect_retried_to_ceiling(st1, outcomes.drop_first());
        let (n1, ds1, o1) = spec_run(st1, outcomes.drop_first());
        let (n, ds, o) = spec_run(st, outcomes);
        assert(ds =~= seq![spec_retry_delay_ms(st.attempts)] + ds1);
        assert(o1 == outcomes.drop_first()[st.max_attempts - st.attempts - 1]);
        assert(o == outcomes[st.max_attempts - st.attempts]);
        assert forall|j: int| 0 <= j < ds.len() implies #[trigger] ds[j] == spec_retry_delay_ms(
            (st.attempts + j) as u32,
        ) by {
            if j > 0 {
                assert(ds[j] == ds1[j - 1]);
            }
        }
    }
}

/// A failure of a non-idempotent method that is neither a connection
/// failure nor attributable to a broken pipe is never retried, whatever
/// the attempt counts.
pub proof fn lemma_non_idempotent_never_retried(st: Attempter, f: RequestFailure)
    requires
        !st.method.spec_is_idempotent(),
        f.kind != FailureKind::Connect,
        !f.broken_pipe,
    ensures
        st.spec_decision(f) == RetryDecision::Forward,
        st.spec_next(f) == st,
{
}

/// When a retry is decided after the n-th attempt, the prescribed delay
/// is exactly the base delay multiplied by n; in particular the delay
/// after the first attempt is exactly the base delay.
pub proof fn lemma_delay_linear(st: Attempter, f: RequestFailure)
    requires
        st.spec_decision(f) is WaitRetry,
    ensures
        st.spec_decision(f) == (RetryDecision::WaitRetry {
            delay_ms: spec_retry_delay_ms(st.attempts),
        }),
        spec_retry_delay_ms(st.attempts) == RETRY_BASE_DELAY_MS * st.attempts as u64,
        st.attempts == 1 ==> st.spec_decision(f) == (RetryDecision::WaitRetry {
            delay_ms: RETRY_BASE_DELAY_MS,
        }),
{
}

/// A status-coded failure with code 429 is retried whenever the ceiling
/// allows it and the method permits a retry of the failure.
pub proof fn lemma_status_429_retried(st: Attempter, f: RequestFailure)
    requires
        st.attempts < st.max_attempts,
        st.method.spec_is_idempotent() || spec_safe_for_non_idempotent(f),
        f.kind == FailureKind::Status(429u16),
    ensures
        st.spec_decision(f) is WaitRetry,
{
}

/// A status-coded failure with code 404 is never retried, whatever the
/// method, the cause chain or the attempt counts.
pub proof fn lemma_status_404_final(st: Attempter, f: RequestFailure)
    requires
        f.kind == FailureKind::Status(404u16),
    ensures
        st.spec_decision(f) == RetryDecision::Forward,
{
}

} // verus!
