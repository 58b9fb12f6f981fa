//! Connection establishment with bounded retry.
//!
//! A direct database connection is attempted in a loop.  Each failed attempt
//! is classified: an authentication failure is fatal and stops the loop at
//! once; any other failure is retryable.  Retries happen only when the caller
//! supplied an overall deadline — without one, a single attempt is made and
//! its failure surfaces immediately.  With a deadline, the loop sleeps a
//! fixed backoff between attempts and fails with a distinct timeout error
//! once the deadline has elapsed.
//!
//! The decision logic is an explicit state machine over virtual time in
//! milliseconds, driven from outside: the caller performs one connection
//! attempt, hands the outcome in, and either sleeps until `resume_at` or
//! stops with the final result.

use vstd::prelude::*;

verus! {

/// Fixed pause between connection attempts, in milliseconds.
pub const BACKOFF_MS: u64 = 500;

/// The byte sequence whose presence in an error text marks a credential
/// problem: the ASCII codes of the word that connection errors carry when
/// the server rejects the supplied credentials.
pub open spec fn auth_marker() -> Seq<u8> {
    seq![97u8, 117u8, 116u8, 104u8, 101u8, 110u8, 116u8, 105u8, 99u8, 97u8, 116u8, 105u8, 111u8,
        110u8]
}

/// `needle` occurs in `hay` starting at position `i`.
pub open spec fn matches_at(hay: Seq<u8>, needle: Seq<u8>, i: int) -> bool {
    &&& 0 <= i
    &&& i + needle.len() <= hay.len()
    &&& forall|j: int| 0 <= j < needle.len() ==> hay[i + j] == needle[j]
}

/// An error text indicates an authentication failure: it contains the
/// marker as a contiguous subsequence.
pub open spec fn is_auth_text(hay: Seq<u8>) -> bool {
    exists|i: int| matches_at(hay, auth_marker(), i)
}

/// The marker word as a byte vector.
fn auth_marker_bytes() -> (v: Vec<u8>)
    ensures
        v@ == auth_marker(),
{
    let mut v: Vec<u8> = Vec::new();
    v.push(97u8);
    v.push(117u8);
    v.push(116u8);
    v.push(104u8);
    v.push(101u8);
    v.push(110u8);
    v.push(116u8);
    v.push(105u8);
    v.push(99u8);
    v.push(97u8);
    v.push(116u8);
    v.push(105u8);
    v.push(111u8);
    v.push(110u8);
    proof {
        assert(v@ =~= auth_marker());
    }
    v
}

/// Whether `needle` occurs in `text` starting at index `i`.
fn matches_here(text: &Vec<u8>, needle: &Vec<u8>, i: usize) -> (r: bool)
    requires
        i + needle.len() <= text.len(),
    ensures
        r == matches_at(text@, needle@, i as int),
{
    let mut j: usize = 0;
    while j < needle.len()
        invariant
            0 <= j <= needle.len(),
            i + needle.len() <= text.len(),
            forall|l: int| 0 <= l < j ==> text@[i + l] == needle@[l],
        decreases needle.len() - j,
    {
        if text[i + j] != needle[j] {
            return false;
        }
        j += 1;
    }
    true
}

/// Whether an error text indicates an authentication failure.
pub fn is_auth_error(text: &Vec<u8>) -> (r: bool)
    ensures
        r == is_auth_text(text@),
{
    let needle = auth_marker_bytes();
    if text.len() < needle.len() {
        proof {
            assert(forall|i: int| !matches_at(text@, auth_marker(), i));
        }
        return false;
    }
    let mut i: usize = 0;
    let last: usize = text.len() - needle.len();
    while i <= last
        invariant
            needle@ == auth_marker(),
            last == text.len() - needle.len(),
            needle.len() <= text.len(),
            0 <= i <= last + 1,
            forall|k: int| 0 <= k < i ==> !matches_at(text@, auth_marker(), k),
        decreases last + 1 - i,
    {
        if matches_here(text, &needle, i) {
            return true;
        }
        i += 1;
    }
    proof {
        assert(forall|k: int| k > last ==> !matches_at(text@, auth_marker(), k));
    }
    false
}

/// The classification of one connection attempt: connected, or failed with
/// the failure's error text, split into the credential failures (never
/// retried) and everything else (retryable).
pub enum ConnectOutcome {
    Connected,
    RetryableFailure(Vec<u8>),
    FatalFailure(Vec<u8>),
}

/// Classifies one attempt's result.  A failure is fatal exactly when its
/// error text indicates an authentication problem.
pub fn classify_attempt(attempt: Result<(), Vec<u8>>) -> (o: ConnectOutcome)
    ensures
        attempt is Ok ==> o == ConnectOutcome::Connected,
        attempt is Err && is_auth_text(attempt->Err_0@) ==> o == ConnectOutcome::FatalFailure(
            attempt->Err_0,
        ),
        attempt is Err && !is_auth_text(attempt->Err_0@) ==> o
            == ConnectOutcome::RetryableFailure(attempt->Err_0),
{
    match attempt {
        Ok(()) => ConnectOutcome::Connected,
        Err(text) => {
            if is_auth_error(&text) {
                ConnectOutcome::FatalFailure(text)
            } else {
                ConnectOutcome::RetryableFailure(text)
            }
        },
    }
}

/// The final result of the connection loop.
pub enum ConnectResult {
    /// A connection was established.
    Connected,
    /// The credentials were rejected; carries the error text.
    AuthFailed(Vec<u8>),
    /// A transient failure surfaced with retries disabled; carries the
    /// error text.
    ConnectFailed(Vec<u8>),
    /// The overall deadline elapsed while retrying.
    TimedOut,
}

/// What the loop does after one classified attempt: sleep and retry, or
/// stop with a final result.
pub enum RetryStep {
    RetryAfterBackoff { resume_at: u64 },
    Finished(ConnectResult),
}

/// One transition of the retry state machine.  `deadline` is the absolute
/// time (milliseconds) after which retrying stops; `None` disables retries
/// altogether.  `now` is the time at which the attempt failed or succeeded.
pub fn retry_decision(deadline: Option<u64>, now: u64, outcome: ConnectOutcome) -> (step:
    RetryStep)
    requires
        now + BACKOFF_MS <= u64::MAX,
    ensures
        outcome is Connected ==> step == RetryStep::Finished(ConnectResult::Connected),
        outcome is FatalFailure ==> step == RetryStep::Finished(
            ConnectResult::AuthFailed(outcome->FatalFailure_0),
        ),
        outcome is RetryableFailure ==> (match deadline {
            None => step == RetryStep::Finished(
                ConnectResult::ConnectFailed(outcome->RetryableFailure_0),
            ),
            Some(d) => if now >= d {
                step == RetryStep::Finished(ConnectResult::TimedOut)
            } else {
                step == (RetryStep::RetryAfterBackoff { resume_at: (now + BACKOFF_MS) as u64 })
            },
        }),
{
    match outcome {
        ConnectOutcome::Connected => RetryStep::Finished(ConnectResult::Connected),
        ConnectOutcome::FatalFailure(text) => RetryStep::Finished(ConnectResult::AuthFailed(text)),
        ConnectOutcome::RetryableFailure(text) => {
            match deadline {
                None => RetryStep::Finished(ConnectResult::ConnectFailed(text)),
                Some(d) => {
                    if now >= d {
                        RetryStep::Finished(ConnectResult::TimedOut)
                    } else {
                        RetryStep::RetryAfterBackoff { resume_at: now + BACKOFF_MS }
                    }
                },
            }
        },
    }
}

/// Attempt `i` (counted from zero, made at time `BACKOFF_MS * i`) ends the
/// loop: it succeeded, was a credential failure, retries are disabled, or
/// the deadline had elapsed.
pub open spec fn attempt_concludes(deadline: Option<u64>, i: int, a: Result<(), Vec<u8>>) -> bool {
    match a {
        Ok(u) => true,
        Err(t) => is_auth_text(t@) || match deadline {
            None => true,
            Some(d) => BACKOFF_MS * i >= d,
        },
    }
}

/// The final result produced when attempt `i` ends the loop.
pub open spec fn attempt_verdict(deadline: Option<u64>, i: int, a: Result<(), Vec<u8>>)
    -> ConnectResult {
    match a {
        Ok(u) => ConnectResult::Connected,
        Err(t) => if is_auth_text(t@) {
            ConnectResult::AuthFailed(t)
        } else if deadline is None {
            ConnectResult::ConnectFailed(t)
        } else {
            ConnectResult::TimedOut
        },
    }
}

/// Every attempt in the sequence failed with a transient (non-credential)
/// error.
pub open spec fn all_transient(s: Seq<Result<(), Vec<u8>>>) -> bool {
    forall|i: int|
        0 <= i < s.len() ==> (#[trigger] s[i]) is Err && !is_auth_text(s[i]->Err_0@)
}

/// Runs the retry state machine over a sequence of attempt results, with
/// attempt `i` made at virtual time `BACKOFF_MS * i`.  Returns the final
/// result together with the virtual time at which the loop stopped and the
/// number of attempts made, or `None` when every supplied attempt led to a
/// further retry.
///
/// An authentication failure stops the loop after that one attempt no
/// matter the deadline; with a deadline `d` and only transient failures the
/// loop times out at the first attempt made at or past `d`, which lies
/// within one backoff interval of `d`.
pub fn connect_with_retry(deadline: Option<u64>, attempts: Vec<Result<(), Vec<u8>>>) -> (r: Option<
    (ConnectResult, u64, usize),
>)
    requires
        BACKOFF_MS * attempts@.len() <= u64::MAX,
    ensures
        r is None <==> forall|i: int|
            0 <= i < attempts@.len() ==> !attempt_concludes(deadline, i, #[trigger] attempts@[i]),
        r is Some ==> ({
            let (res, stopped_at, n) = r->Some_0;
            &&& 1 <= n <= attempts@.len()
            &&& attempt_concludes(deadline, n - 1, attempts@[n - 1])
            &&& forall|j: int|
                0 <= j < n - 1 ==> !attempt_concludes(deadline, j, #[trigger] attempts@[j])
            &&& stopped_at == BACKOFF_MS * (n - 1)
            &&& res == attempt_verdict(deadline, n - 1, attempts@[n - 1])
        }),
        // An authentication failure is final after exactly one attempt,
        // whatever the deadline.
        (attempts@.len() > 0 && attempts@[0] is Err && is_auth_text(attempts@[0]->Err_0@)) ==> r
            == Some((ConnectResult::AuthFailed(attempts@[0]->Err_0), 0u64, 1usize)),
        // With only transient failures and an attempt at or past the
        // deadline, the loop times out no earlier than the deadline and
        // within one backoff interval of it.
        (deadline is Some && attempts@.len() > 0 && BACKOFF_MS * (attempts@.len() - 1)
            >= deadline->Some_0 && all_transient(attempts@)) ==> ({
            let d = deadline->Some_0;
            &&& r is Some
            &&& r->Some_0.0 is TimedOut
            &&& d <= r->Some_0.1 < d + BACKOFF_MS
        }),
{
    let ghost all = attempts@;
    let mut rest = attempts;
    let total: usize = rest.len();
    proof {
        assert(all.len() == total);
    }
    let mut now: u64 = 0;
    let mut i: usize = 0;
    let mut result: Option<(ConnectResult, u64, usize)> = None;
    loop
        invariant_except_break
            result is None,
            all.len() == rest.len() + i,
            rest@ == all.subrange(i as int, all.len() as int),
        invariant
            all.len() <= usize::MAX,
            i <= all.len(),
            now == BACKOFF_MS * i,
            BACKOFF_MS * all.len() <= u64::MAX,
            forall|j: int| 0 <= j < i ==> !attempt_concludes(deadline, j, #[trigger] all[j]),
        ensures
            result is Some ==> ({
                let (res, stopped_at, n) = result->Some_0;
                &&& 1 <= n <= all.len()
                &&& attempt_concludes(deadline, n - 1, all[n - 1])
                &&& forall|j: int|
                    0 <= j < n - 1 ==> !attempt_concludes(deadline, j, #[trigger] all[j])
                &&& stopped_at == BACKOFF_MS * (n - 1)
                &&& res == attempt_verdict(deadline, n - 1, all[n - 1])
            }),
            result is None ==> forall|j: int|
                0 <= j < all.len() ==> !attempt_concludes(deadline, j, #[trigger] all[j]),
        decreases rest.len(),
    {
        if rest.len() == 0 {
            break ;
        }
        let attempt = rest.remove(0);
        proof {
            assert(attempt == all[i as int]);
            assert(rest@ =~= all.subrange(i + 1, all.len() as int));
            assert(BACKOFF_MS * (i + 1) <= BACKOFF_MS * all.len()) by (nonlinear_arith)
                requires
                    i + 1 <= all.len(),
            ;
        }
        let outcome = classify_attempt(attempt);
        match retry_decision(deadline, now, outcome) {
            RetryStep::Finished(res) => {
                proof {
                    assert(attempt_concludes(deadline, i as int, all[i as int]));
                    assert(res == attempt_verdict(deadline, i as int, all[i as int]));
                }
                result = Some((res, now, i + 1));
                break ;
            },
            RetryStep::RetryAfterBackoff { resume_at } => {
                proof {
                    assert(!attempt_concludes(deadline, i as int, all[i as int]));
                }
                now = resume_at;
                i += 1;
            },
        }
    }
    proof {
        if result is Some {
            let (res, stopped_at, n) = result->Some_0;
            let first = n - 1;
            if all.len() > 0 && all[0] is Err && is_auth_text(all[0]->Err_0@) {
                assert(attempt_concludes(deadline, 0, all[0]));
                assert(first == 0);
                assert(res == ConnectResult::AuthFailed(all[0]->Err_0));
            }
            if deadline is Some && all.len() > 0 && BACKOFF_MS * (all.len() - 1)
                >= deadline->Some_0 && all_transient(all) {
                let d = deadline->Some_0;
                assert(attempt_concludes(deadline, first, all[first]));
                assert(BACKOFF_MS * first >= d);
                assert(res is TimedOut);
                if first > 0 {
                    assert(!attempt_concludes(deadline, first - 1, all[first - 1]));
                    assert(BACKOFF_MS * (first - 1) < d);
                    assert(stopped_at == BACKOFF_MS * (first - 1) + BACKOFF_MS);
                }
            }
        } else {
            if deadline is Some && all.len() > 0 && BACKOFF_MS * (all.len() - 1)
                >= deadline->Some_0 && all_transient(all) {
                assert(attempt_concludes(deadline, all.len() - 1, all[all.len() - 1]));
            }
        }
    }
    result
}

} // verus!
