//! The condition poller: a retry loop that evaluates a readiness predicate
//! until it succeeds, fails fatally, or a timeout elapses.
//!
//! The asynchronous driver (predicate evaluation and sleeping) lives outside
//! the library; the decision taken after each evaluation, and the behaviour
//! of the whole loop over any sequence of evaluations, are verified here.

use vstd::prelude::*;

verus! {

/// One evaluation of a readiness predicate: success, a transient failure
/// (keep retrying), or a fatal failure (stop at once).
pub enum PollOutcome<T> {
    Ready(T),
    Retry(Vec<u8>),
    Fatal(Vec<u8>),
}

/// Why a poll ended without a value.
pub enum PollError {
    /// The predicate reported a failure that can never heal.
    Fatal(Vec<u8>),
    /// Only transient failures were seen until the deadline passed.
    Timeout { description: Vec<u8>, last_reason: Vec<u8> },
}

/// What the poller does after one predicate evaluation.
pub enum PollStep<T> {
    Done(Result<T, PollError>),
    SleepThenRetry,
}

/// The deadline has passed: a transient failure must now become a timeout.
pub open spec fn timeout_reached(elapsed_ms: u64, timeout_ms: Option<u64>) -> bool {
    match timeout_ms {
        Some(t) => elapsed_ms >= t,
        None => false,
    }
}

pub open spec fn is_success_step<T>(step: PollStep<T>, v: T) -> bool {
    step matches PollStep::Done(res) && res matches Ok(w) && w == v
}

pub open spec fn is_fatal_step<T>(step: PollStep<T>, err: Seq<u8>) -> bool {
    step matches PollStep::Done(res) && res matches Err(e)
        && e matches PollError::Fatal(m) && m@ == err
}

pub open spec fn is_timeout_step<T>(step: PollStep<T>, description: Seq<u8>, last_reason: Seq<u8>) -> bool {
    step matches PollStep::Done(res) && res matches Err(e)
        && e matches PollError::Timeout { description: d, last_reason: r }
        && d@ == description && r@ == last_reason
}

pub open spec fn is_sleep_step<T>(step: PollStep<T>) -> bool {
    step matches PollStep::SleepThenRetry
}

/// Decides what the poller does after one predicate evaluation: a success or
/// a fatal failure ends the poll at once; a transient failure ends it with a
/// timeout error once the deadline has passed, and otherwise asks for a sleep
/// and another evaluation.
pub fn poll_step<T>(
    description: &Vec<u8>,
    outcome: PollOutcome<T>,
    elapsed_ms: u64,
    timeout_ms: Option<u64>,
) -> (step: PollStep<T>)
    ensures
        (match outcome {
            PollOutcome::Ready(v) => is_success_step(step, v),
            PollOutcome::Fatal(e) => is_fatal_step(step, e@),
            PollOutcome::Retry(r) => if timeout_reached(elapsed_ms, timeout_ms) {
                is_timeout_step(step, description@, r@)
            } else {
                is_sleep_step(step)
            },
        }),
{
    match outcome {
        PollOutcome::Ready(v) => PollStep::Done(Ok(v)),
        PollOutcome::Fatal(e) => PollStep::Done(Err(PollError::Fatal(e))),
        PollOutcome::Retry(r) => {
            let over = match timeout_ms {
                Some(t) => elapsed_ms >= t,
                None => false,
            };
            if over {
                PollStep::Done(Err(PollError::Timeout {
                    description: clone_bytes(description),
                    last_reason: r,
                }))
            } else {
                PollStep::SleepThenRetry
            }
        }
    }
}

/// Copies a byte vector.
pub fn clone_bytes(b: &Vec<u8>) -> (r: Vec<u8>)
    ensures
        r@ == b@,
{
    let mut out: Vec<u8> = Vec::new();
    let mut i: usize = 0;
    while i < b.len()
        invariant
            i <= b.len(),
            out@ == b@.take(i as int),
        decreases b.len() - i,
    {
        out.push(b[i]);
        assert(out@ =~= b@.take(i + 1 as int));
        i += 1;
    }
    assert(out@ =~= b@);
    out
}

/// Law: under a timeout the poller cannot sleep forever. Evaluation `n`
/// happens at elapsed time `n * interval_ms`, so with any positive interval,
/// by the `t`-th evaluation at the latest a deadline of `t` milliseconds has
/// been reached and a still-transient failure becomes a timeout error.
pub proof fn lemma_poll_cannot_sleep_forever(t: u64, interval_ms: u64, n: nat)
    requires
        interval_ms >= 1,
        n >= t,
    ensures
        timeout_reached_at(n, interval_ms, t),
{
    assert(n * interval_ms >= n * 1 && n * 1 == n) by (nonlinear_arith)
        requires
            interval_ms >= 1,
            n >= 0,
    ;
}

/// Evaluation `n` of a poll with the given interval sees a deadline of `t`
/// milliseconds as passed.
pub open spec fn timeout_reached_at(n: nat, interval_ms: u64, t: u64) -> bool {
    n * interval_ms >= t
}

/// How a whole poll ended when driven over a finite script of predicate
/// evaluations.
pub enum RunEnd<T> {
    Finished(Result<T, PollError>),
    /// The script ended before the poll did: the poller would still be
    /// sleeping and retrying.
    ScriptExhausted,
}

/// Runs the whole poll loop over a recorded script of predicate outcomes,
/// sleeping a fixed interval between evaluations; evaluation `i` happens at
/// elapsed time `i * interval_ms`. Returns how the poll ended and how many
/// sleeps it took.
///
/// Its contract carries the two laws of the poller:
/// - a script whose first outcome is ready yields that success with no sleep;
/// - under a timeout `t`, a script of nothing but transient failures yields a
///   timeout error, never before `t` has elapsed, and as soon as it has.
pub fn run_poll<T>(
    description: &Vec<u8>,
    outcomes: &mut Vec<PollOutcome<T>>,
    interval_ms: u64,
    timeout_ms: Option<u64>,
) -> (run: (RunEnd<T>, usize))
    requires
        interval_ms >= 1,
        old(outcomes)@.len() * interval_ms <= u64::MAX,
    ensures
        old(outcomes)@.len() > 0 ==> (old(outcomes)@[0] matches PollOutcome::Ready(v) ==> (
            run.0 matches RunEnd::Finished(res) && res matches Ok(w) && w == v
            && run.1 == 0
        )),
        old(outcomes)@.len() > 0 ==> (old(outcomes)@[0] matches PollOutcome::Fatal(e) ==> (
            run.0 matches RunEnd::Finished(res) && res matches Err(pe)
            && pe matches PollError::Fatal(m) && m@ == e@
            && run.1 == 0
        )),
        run.0 is ScriptExhausted ==> (forall|j: int|
            0 <= j < old(outcomes)@.len() ==> old(outcomes)@[j] is Retry),
        (run.0 matches RunEnd::Finished(res) && res matches Err(e)
            && e matches PollError::Timeout { .. }) ==> (
            timeout_ms matches Some(t)
            && run.1 * interval_ms >= t
            && (run.1 > 0 ==> (run.1 - 1) * interval_ms < t)
        ),
        (timeout_ms matches Some(t)
            && (forall|j: int| 0 <= j < old(outcomes)@.len() ==> old(outcomes)@[j] is Retry)
            && old(outcomes)@.len() > 0
            && (old(outcomes)@.len() - 1) * interval_ms >= t) ==> (
            run.0 matches RunEnd::Finished(res) && res matches Err(e)
            && e matches PollError::Timeout { .. }
        ),
{
    let n_script: usize = outcomes.len();
    let ghost script = outcomes@;
    assert(script.len() == n_script);
    let mut i: usize = 0;
    let mut elapsed_ms: u64 = 0;
    let mut sleeps: usize = 0;
    while outcomes.len() > 0
        invariant
            interval_ms >= 1,
            script == old(outcomes)@,
            script.len() <= usize::MAX,
            script.len() * interval_ms <= u64::MAX,
            i + outcomes@.len() == script.len(),
            outcomes@ == script.skip(i as int),
            sleeps == i,
            elapsed_ms == i * interval_ms,
            forall|j: int| 0 <= j < i ==> script[j] is Retry,
            (timeout_ms matches Some(t) ==> (i > 0 ==> (i - 1) * (interval_ms as int) < t)),
        decreases outcomes.len(),
    {
        let outcome = outcomes.remove(0);
        assert(outcome == script[i as int]);
        let ghost was_timeout = timeout_reached(elapsed_ms, timeout_ms);
        let step = poll_step(description, outcome, elapsed_ms, timeout_ms);
        match step {
            PollStep::Done(res) => {
                proof {
                    let ghost gres = res;
                    assert(i > 0 ==> script[0] is Retry);
                    if script[0] is Ready {
                        assert(i == 0 && sleeps == 0);
                        assert(gres matches Ok(w) && script[0] matches PollOutcome::Ready(v) && w == v);
                    }
                    if script[0] is Fatal {
                        assert(i == 0 && sleeps == 0);
                        assert(gres matches Err(pe) && pe matches PollError::Fatal(m)
                            && script[0] matches PollOutcome::Fatal(e) && m@ == e@);
                    }
                    if gres matches Err(e) && e matches PollError::Timeout { .. } {
                        assert(script[i as int] is Retry && was_timeout);
                        assert(timeout_ms matches Some(t) ==> sleeps * interval_ms >= t);
                    }
                    if script[i as int] is Retry && was_timeout {
                        assert(gres matches Err(e) && e matches PollError::Timeout { .. });
                    }
                    if script[i as int] is Retry && !was_timeout {
                        assert(false);
                    }
                }
                return (RunEnd::Finished(res), sleeps);
            }
            PollStep::SleepThenRetry => {
                proof {
                    assert(script[i as int] is Retry && !was_timeout);
                    let ghost n = script.len() as int;
                    let ghost iv = interval_ms as int;
                    let ghost ii = i as int;
                    assert(ii * iv + iv == (ii + 1) * iv && (ii + 1) * iv <= n * iv)
                        by (nonlinear_arith)
                        requires
                            ii + 1 <= n,
                            iv >= 0,
                    ;
                }
                elapsed_ms = elapsed_ms + interval_ms;
                sleeps = sleeps + 1;
                i = i + 1;
                assert(outcomes@ =~= script.skip(i as int));
            }
        }
    }
    (RunEnd::ScriptExhausted, sleeps)
}

} // verus!
