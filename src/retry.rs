use vstd::arithmetic::power2::*;
use vstd::prelude::*;

verus! {

/// Number of attempts after which a failing action is given up.
pub const MAX_ATTEMPTS: usize = 5;

/// When and how often a failing action is tried again.
///
/// `should_retry` is the predicate that decides whether an error is worth
/// another attempt; `None` retries every error.
pub struct Retry<F> {
    attempts: usize,
    should_retry: Option<F>,
}

/// What to do after an attempt failed.
#[derive(Debug, PartialEq, Eq)]
pub enum RetryDecision<E> {
    /// Wait this many seconds, then try again.
    WaitRetry(u64),
    /// Give up and hand the error on.
    ForwardError(E),
}

/// The back-off before the next attempt: doubles with every attempt.
pub open spec fn backoff_secs(attempt: nat) -> nat {
    pow2(attempt)
}

/// The decision after failed attempt number `attempt`, out of `attempts`,
/// given whether the error is one that is worth retrying.
pub open spec fn decision_spec<E>(attempts: nat, attempt: nat, retryable: bool, err: E) -> RetryDecision<E> {
    if attempt > attempts || !retryable {
        RetryDecision::ForwardError(err)
    } else {
        RetryDecision::WaitRetry(backoff_secs(attempt) as u64)
    }
}

impl<F> Retry<F> {
    #[verifier::type_invariant]
    spec fn inv(&self) -> bool {
        self.attempts <= MAX_ATTEMPTS
    }

    /// How many attempts are made before the error is handed on.
    pub closed spec fn max_attempts(&self) -> nat {
        self.attempts as nat
    }

    /// The predicate that selects the errors worth retrying, if any.
    pub closed spec fn predicate(&self) -> Option<F> {
        self.should_retry
    }

    /// Retry the errors for which `should_retry` holds.
    pub fn when(should_retry: F) -> (r: Self)
        ensures
            r.max_attempts() == MAX_ATTEMPTS,
            r.predicate() == Some(should_retry),
    {
        Retry { attempts: MAX_ATTEMPTS, should_retry: Some(should_retry) }
    }

    /// Retry every error.
    pub fn any() -> (r: Self)
        ensures
            r.max_attempts() == MAX_ATTEMPTS,
            r.predicate() == None::<F>,
    {
        Retry { attempts: MAX_ATTEMPTS, should_retry: None }
    }

    /// Decide, after failed attempt number `attempt` (counted from one), whether
    /// to wait and try again or to hand `err` on. The predicate is consulted
    /// only while attempts are left.
    pub fn handle<E>(&self, attempt: usize, err: E) -> (r: RetryDecision<E>)
        where
            F: Fn(&E) -> bool,
        requires
            self.predicate() matches Some(f) ==> f.requires((&err,)),
        ensures
            attempt > self.max_attempts() ==> r == RetryDecision::ForwardError(err),
            attempt <= self.max_attempts() && self.predicate() is None ==> r == decision_spec(
                self.max_attempts(),
                attempt as nat,
                true,
                err,
            ),
            attempt <= self.max_attempts() && self.predicate() is Some ==> exists|retryable: bool|
                #[trigger] self.predicate().unwrap().ensures((&err,), retryable) && r
                    == decision_spec(self.max_attempts(), attempt as nat, retryable, err),
    {
        proof {
            use_type_invariant(self);
        }
        if attempt > self.attempts {
            return RetryDecision::ForwardError(err);
        }
        let retryable = match &self.should_retry {
            Some(f) => f(&err),
            None => true,
        };
        if retryable {
            RetryDecision::WaitRetry(pow2_u64(attempt))
        } else {
            RetryDecision::ForwardError(err)
        }
    }
}

/// An action that failed for good, with the error of its last attempt.
#[derive(Debug)]
pub struct RetryFailure<E> {
    pub error: E,
    /// How many retries were made before giving up.
    pub retries: usize,
}

/// The character of a decimal digit.
pub open spec fn digit_char(d: nat) -> char {
    (d + 48) as char
}

/// The decimal notation of `n`, without leading zeros.
pub open spec fn decimal_spec(n: nat) -> Seq<char>
    decreases n,
{
    if n < 10 {
        seq![digit_char(n)]
    } else {
        decimal_spec(n / 10).push(digit_char(n % 10))
    }
}

/// The noun that goes with a number of retries.
pub open spec fn retries_word(n: nat) -> Seq<char> {
    if n == 1 {
        "retry"@
    } else {
        "retries"@
    }
}

/// The context attached to an action that failed after `n` retries.
pub open spec fn failure_message(n: nat) -> Seq<char> {
    "Failed to upload image after "@ + decimal_spec(n) + " "@ + retries_word(n)
}

impl<E> RetryFailure<E> {
    /// The context that explains the failure.
    pub fn message(&self) -> (r: String)
        ensures
            r@ == failure_message(self.retries as nat),
    {
        let mut r = String::from_str("Failed to upload image after ");
        let n = decimal(self.retries);
        r.append(n.as_str());
        r.append(" ");
        r.append(retries_str(self.retries));
        r
    }
}

/// The noun for `n` retries.
pub fn retries_str(n: usize) -> (r: &'static str)
    ensures
        r@ == retries_word(n as nat),
{
    if n == 1 {
        "retry"
    } else {
        "retries"
    }
}

/// Drops the retry count of a success, and keeps it with the error of a failure.
pub fn annotate_retries<T, E>(res: Result<(T, usize), (E, usize)>) -> (r: Result<T, RetryFailure<E>>)
    ensures
        res matches Ok((v, _)) ==> r == Ok::<T, RetryFailure<E>>(v),
        res matches Err((e, n)) ==> r == Err::<T, RetryFailure<E>>(RetryFailure { error: e, retries: n }),
{
    match res {
        Ok((v, _)) => Ok(v),
        Err((error, retries)) => Err(RetryFailure { error, retries }),
    }
}

/// The text of a single decimal digit.
fn digit_str(d: usize) -> (r: &'static str)
    requires
        d < 10,
    ensures
        r@ == seq![digit_char(d as nat)],
{
    proof {
        reveal_strlit("0");
        reveal_strlit("1");
        reveal_strlit("2");
        reveal_strlit("3");
        reveal_strlit("4");
        reveal_strlit("5");
        reveal_strlit("6");
        reveal_strlit("7");
        reveal_strlit("8");
        reveal_strlit("9");
    }
    let r = match d {
        0 => "0",
        1 => "1",
        2 => "2",
        3 => "3",
        4 => "4",
        5 => "5",
        6 => "6",
        7 => "7",
        8 => "8",
        _ => "9",
    };
    assert(r@ =~= seq![digit_char(d as nat)]);
    r
}

/// The decimal notation of `n`.
pub fn decimal(n: usize) -> (r: String)
    ensures
        r@ == decimal_spec(n as nat),
    decreases n,
{
    if n < 10 {
        String::from_str(digit_str(n))
    } else {
        let mut r = decimal(n / 10);
        r.append(digit_str(n % 10));
        r
    }
}

/// Two to the power of `e`, for the exponents that a back-off can reach.
fn pow2_u64(e: usize) -> (r: u64)
    requires
        e <= MAX_ATTEMPTS,
    ensures
        r == pow2(e as nat),
{
    let mut r: u64 = 1;
    let mut i: usize = 0;
    proof {
        lemma2_to64();
    }
    while i < e
        invariant
            i <= e <= MAX_ATTEMPTS,
            r == pow2(i as nat),
            r <= 32,
        decreases e - i,
    {
        proof {
            lemma_pow2_unfold((i + 1) as nat);
            lemma2_to64();
        }
        r = r * 2;
        i = i + 1;
    }
    r
}

} // verus!
