//! Backoff for requests to a hub that cannot be reached for a while.
//!
//! The first attempt is made at once. After a failure that may pass, the
//! next attempt waits: for the shortest delay times a power of the base,
//! never longer than the longest delay, and only while the budget lasts.

use vstd::prelude::*;
use vstd::arithmetic::power::{pow, lemma_pow0, lemma_pow_increases, lemma_pow_positive};

verus! {

/// Why a request to the hub failed.
#[derive(Clone, Copy, Debug, PartialEq, Eq, Structural)]
pub enum Failure {
    /// The hub refused the connection.
    ConnectionRefused,
    /// The hub did not answer in time.
    Timeout,
    /// The hub answered with this status, which is no success.
    Status(u16),
    /// The answer did not have the expected shape.
    Malformed,
    /// The picture in the answer could not be decoded.
    Undecodable,
}

/// Whether a status that is no success may pass: the hub does not know the
/// entity or camera yet (404), it waited too long for the request (408), it
/// was asked too often (429), or the fault is its own (500 to 599). Every
/// other status, a refused token among them, stays as it is.
pub open spec fn passing_status(code: u16) -> bool {
    code == 404 || code == 408 || code == 429 || 500 <= code <= 599
}

impl Failure {
    /// Whether the failure may pass: the hub cannot be reached, or it
    /// answers with a status that may pass.
    pub open spec fn spec_is_transient(&self) -> bool {
        match self {
            Failure::ConnectionRefused => true,
            Failure::Timeout => true,
            Failure::Status(code) => passing_status(*code),
            Failure::Malformed => false,
            Failure::Undecodable => false,
        }
    }

    /// Whether the failure may pass, so that the request is worth making
    /// again.
    #[verifier::when_used_as_spec(spec_is_transient)]
    pub fn is_transient(&self) -> (transient: bool)
        ensures
            transient == self.spec_is_transient(),
    {
        match self {
            Failure::ConnectionRefused => true,
            Failure::Timeout => true,
            Failure::Status(code) => {
                let code: u16 = *code;
                code == 404 || code == 408 || code == 429 || (500 <= code && code <= 599)
            },
            Failure::Malformed => false,
            Failure::Undecodable => false,
        }
    }
}

/// A backoff policy, in seconds.
pub struct BackoffView {
    pub base: nat,
    pub min_secs: nat,
    pub max_secs: nat,
    pub budget_secs: nat,
    /// How many retries the budget pays for.
    pub max_retries: nat,
}

/// `base` to the power `exponent`, or the largest `u32` where the power is
/// larger than that.
pub open spec fn capped_power(base: nat, exponent: nat) -> nat {
    let power = pow(base as int, exponent);
    if power > u32::MAX {
        u32::MAX as nat
    } else {
        power as nat
    }
}

/// The wait before retry number `retry` (the first is number 0): the
/// shortest delay times the capped power of the base, but no more than the
/// longest delay.
pub open spec fn delay_secs(base: nat, min_secs: nat, max_secs: nat, retry: nat) -> nat {
    let grown = min_secs * capped_power(base, retry);
    if grown < max_secs {
        grown
    } else {
        max_secs
    }
}

/// The waits before the retries 0 to `retry`, added up.
pub open spec fn waited_secs(base: nat, min_secs: nat, max_secs: nat, retry: nat) -> nat
    decreases retry,
{
    if retry == 0 {
        delay_secs(base, min_secs, max_secs, 0)
    } else {
        waited_secs(base, min_secs, max_secs, (retry - 1) as nat) + delay_secs(
            base,
            min_secs,
            max_secs,
            retry,
        )
    }
}

/// Whether `limit` is the first retry with which the added waits reach the
/// budget.
pub open spec fn is_retry_limit(
    base: nat,
    min_secs: nat,
    max_secs: nat,
    budget_secs: nat,
    limit: nat,
) -> bool {
    &&& waited_secs(base, min_secs, max_secs, limit) >= budget_secs
    &&& limit > 0 ==> waited_secs(base, min_secs, max_secs, (limit - 1) as nat) < budget_secs
}

/// Whether a policy can be built from these values: a base of at least one
/// and a shortest delay of at least a second, which is not above the longest.
pub open spec fn valid_bounds(base: nat, min_secs: nat, max_secs: nat) -> bool {
    base >= 1 && 1 <= min_secs <= max_secs
}

impl BackoffView {
    pub open spec fn wf(&self) -> bool {
        &&& valid_bounds(self.base, self.min_secs, self.max_secs)
        &&& self.max_secs <= u32::MAX
        &&& is_retry_limit(
            self.base,
            self.min_secs,
            self.max_secs,
            self.budget_secs,
            self.max_retries,
        )
    }

    /// The wait before retry number `retry`.
    pub open spec fn delay(&self, retry: nat) -> nat {
        delay_secs(self.base, self.min_secs, self.max_secs, retry)
    }
}

/// Calls, in `retry_policies`, `ExponentialBackoff::builder`, the builder's
/// `base`, `jitter` (with `Jitter::None`), `retry_bounds` and
/// `build_with_total_retry_duration_and_max_retries`, and then `max_retries`
/// on the policy. Trusted: the policy's limit is set, and it is the first
/// retry with which the added waits reach the total duration. The bounds
/// asked for keep `retry_bounds` from panicking and the search for the limit
/// from running on for ever.
#[verifier::external_body]
fn retry_limit(base: u32, min_secs: u32, max_secs: u32, budget_secs: u32) -> (limit: Option<u32>)
    requires
        valid_bounds(base as nat, min_secs as nat, max_secs as nat),
    ensures
        limit is Some,
        is_retry_limit(
            base as nat,
            min_secs as nat,
            max_secs as nat,
            budget_secs as nat,
            limit.unwrap() as nat,
        ),
{
    retry_policies::policies::ExponentialBackoff::builder()
        .base(base)
        .jitter(retry_policies::Jitter::None)
        .retry_bounds(
            std::time::Duration::from_secs(min_secs as u64),
            std::time::Duration::from_secs(max_secs as u64),
        )
        .build_with_total_retry_duration_and_max_retries(
            std::time::Duration::from_secs(budget_secs as u64),
        )
        .max_retries()
}

/// What is to be done about a request that has just been tried.
#[derive(Clone, Copy, Debug, PartialEq, Eq, Structural)]
pub enum Verdict {
    /// The request succeeded.
    Done,
    /// Try again after this many seconds.
    RetryAfter(u32),
    /// Give up with this failure.
    GiveUp(Failure),
}

/// How an attempt ended.
#[derive(Clone, Copy, Debug, PartialEq, Eq, Structural)]
pub enum Outcome {
    Success,
    Failed(Failure),
}

/// The verdict on an attempt that follows `past_retries` retries and ends
/// `elapsed_secs` after the first attempt began.
///
/// A failure is retried if it may pass, the budget is not used up and the
/// limit of retries is not reached.
pub open spec fn verdict(
    policy: BackoffView,
    past_retries: nat,
    outcome: Outcome,
    elapsed_secs: u64,
) -> Verdict {
    match outcome {
        Outcome::Success => Verdict::Done,
        Outcome::Failed(failure) => if failure.spec_is_transient() && elapsed_secs
            < policy.budget_secs && past_retries < policy.max_retries {
            Verdict::RetryAfter(policy.delay(past_retries) as u32)
        } else {
            Verdict::GiveUp(failure)
        },
    }
}

/// A backoff policy.
#[derive(Clone, Copy, Debug)]
pub struct Backoff {
    base: u32,
    min_secs: u32,
    max_secs: u32,
    budget_secs: u32,
    max_retries: u32,
}

impl View for Backoff {
    type V = BackoffView;

    closed spec fn view(&self) -> BackoffView {
        BackoffView {
            base: self.base as nat,
            min_secs: self.min_secs as nat,
            max_secs: self.max_secs as nat,
            budget_secs: self.budget_secs as nat,
            max_retries: self.max_retries as nat,
        }
    }
}

impl Backoff {
    #[verifier::type_invariant]
    closed spec fn sound(&self) -> bool {
        self@.wf()
    }

    /// The policy with these values, where they are valid; the limit of
    /// retries is the one that the budget pays for. Finding the limit takes
    /// a step for each retry up to it: for a budget of many hours and waits
    /// of a second, that is slow.
    pub fn new(base: u32, min_secs: u32, max_secs: u32, budget_secs: u32) -> (policy: Option<
        Backoff,
    >)
        ensures
            policy is Some <==> valid_bounds(base as nat, min_secs as nat, max_secs as nat),
            policy matches Some(p) ==> p@.wf() && p@.base == base && p@.min_secs == min_secs
                && p@.max_secs == max_secs && p@.budget_secs == budget_secs,
    {
        if base < 1 || min_secs < 1 || min_secs > max_secs {
            return None;
        }
        match retry_limit(base, min_secs, max_secs, budget_secs) {
            Some(max_retries) => Some(
                Backoff { base, min_secs, max_secs, budget_secs, max_retries },
            ),
            None => None,
        }
    }

    /// Base 2, waits from one to ten seconds, a budget of two minutes.
    pub fn standard() -> (policy: Backoff)
        ensures
            policy@.wf(),
            policy@.base == 2,
            policy@.min_secs == 1,
            policy@.max_secs == 10,
            policy@.budget_secs == 120,
    {
        Backoff::new(2, 1, 10, 120).unwrap()
    }

    pub fn base(&self) -> (base: u32)
        ensures
            base == self@.base,
    {
        self.base
    }

    pub fn min_secs(&self) -> (secs: u32)
        ensures
            secs == self@.min_secs,
    {
        self.min_secs
    }

    pub fn max_secs(&self) -> (secs: u32)
        ensures
            secs == self@.max_secs,
    {
        self.max_secs
    }

    pub fn budget_secs(&self) -> (secs: u32)
        ensures
            secs == self@.budget_secs,
    {
        self.budget_secs
    }

    /// How many retries the budget pays for: the first with which the added
    /// waits reach the budget.
    pub fn max_retries(&self) -> (retries: u32)
        ensures
            retries == self@.max_retries,
            self@.wf(),
    {
        proof {
            use_type_invariant(self);
        }
        self.max_retries
    }

    /// The wait, in seconds, before retry number `retry` (the first is
    /// number 0).
    pub fn delay(&self, retry: u32) -> (secs: u32)
        ensures
            secs == self@.delay(retry as nat),
            self@.min_secs <= secs <= self@.max_secs,
    {
        proof {
            use_type_invariant(self);
            lemma_delay_bounded(self@, retry as nat);
        }
        let base: u128 = self.base as u128;
        let min: u128 = self.min_secs as u128;
        let max: u128 = self.max_secs as u128;
        let mut factor: u128 = 1;
        let mut i: u32 = 0;
        proof {
            lemma_pow0(base as int);
        }
        while i < retry
            invariant
                i <= retry,
                base == self@.base,
                min == self@.min_secs,
                max == self@.max_secs,
                self@.wf(),
                factor == pow(base as int, i as nat),
                1 <= factor <= u32::MAX,
                min * factor < max || i == 0,
            decreases retry - i,
        {
            assert(1 <= factor * base <= 0xffff_ffff * 0xffff_ffff) by (nonlinear_arith)
                requires
                    1 <= factor <= 0xffff_ffff,
                    1 <= base <= 0xffff_ffff,
            ;
            let next: u128 = factor * base;
            assert(min * next <= 0xffff_ffff * (0xffff_ffff * 0xffff_ffff)) by (nonlinear_arith)
                requires
                    0 <= min <= 0xffff_ffff,
                    0 <= next <= 0xffff_ffff * 0xffff_ffff,
            ;
            proof {
                vstd::arithmetic::power::lemma_pow_adds(base as int, i as nat, 1);
                vstd::arithmetic::power::lemma_pow1(base as int);
                assert(next == pow(base as int, (i + 1) as nat));
                lemma_pow_increases(base as nat, (i + 1) as nat, retry as nat);
            }
            if min * next >= max {
                proof {
                    let capped = capped_power(base as nat, retry as nat);
                    assert(min * capped >= max) by (nonlinear_arith)
                        requires
                            min >= 1,
                            max <= u32::MAX,
                            min * next >= max,
                            capped >= next || capped == u32::MAX,
                    ;
                }
                return self.max_secs;
            }
            assert(next < max) by (nonlinear_arith)
                requires
                    min * next < max,
                    min >= 1,
                    next >= 0,
            ;
            factor = next;
            i = i + 1;
        }
        assert(min * factor <= max) by (nonlinear_arith)
            requires
                min * factor < max || (factor == 1 && min <= max),
        ;
        (min * factor) as u32
    }

    /// The verdict on an attempt that follows `past_retries` retries and
    /// ends `elapsed_secs` after the first attempt began.
    pub fn decide(&self, past_retries: u32, outcome: Outcome, elapsed_secs: u64) -> (result:
        Verdict)
        ensures
            result == verdict(self@, past_retries as nat, outcome, elapsed_secs),
    {
        match outcome {
            Outcome::Success => Verdict::Done,
            Outcome::Failed(failure) => {
                if failure.is_transient() && elapsed_secs < self.budget_secs as u64
                    && past_retries < self.max_retries {
                    Verdict::RetryAfter(self.delay(past_retries))
                } else {
                    Verdict::GiveUp(failure)
                }
            },
        }
    }
}

/// Every wait lies between the shortest and the longest delay.
pub proof fn lemma_delay_bounded(policy: BackoffView, retry: nat)
    requires
        policy.wf(),
    ensures
        policy.min_secs <= policy.delay(retry) <= policy.max_secs,
{
    lemma_pow_positive(policy.base as int, retry);
    let capped = capped_power(policy.base, retry);
    assert(policy.min_secs * capped >= policy.min_secs) by (nonlinear_arith)
        requires
            capped >= 1,
    ;
}

/// A later retry never waits less than an earlier one.
pub proof fn lemma_delay_monotone(policy: BackoffView, earlier: nat, later: nat)
    requires
        policy.wf(),
        earlier <= later,
    ensures
        policy.delay(earlier) <= policy.delay(later),
{
    lemma_pow_increases(policy.base, earlier, later);
    lemma_pow_positive(policy.base as int, earlier);
    let small = capped_power(policy.base, earlier);
    let large = capped_power(policy.base, later);
    assert(policy.min_secs * small <= policy.min_secs * large) by (nonlinear_arith)
        requires
            small <= large,
    ;
}

/// The attempts at one request: the policy, and how many retries were
/// already made.
#[derive(Debug)]
pub struct Retrier {
    policy: Backoff,
    past_retries: u32,
}

impl Retrier {
    pub closed spec fn policy(&self) -> Backoff {
        self.policy
    }

    /// The number of retries that the current request was granted so far.
    pub closed spec fn past_retries(&self) -> nat {
        self.past_retries as nat
    }

    /// Before the first attempt.
    pub fn new(policy: Backoff) -> (retrier: Retrier)
        ensures
            retrier.policy() == policy,
            retrier.past_retries() == 0,
    {
        Retrier { policy, past_retries: 0 }
    }

    /// The number of retries that the current request was granted so far.
    pub fn retries(&self) -> (retries: u32)
        ensures
            retries == self.past_retries(),
    {
        self.past_retries
    }

    /// Takes the outcome of an attempt, which ended `elapsed_secs` after the
    /// first attempt at this request began, and says what is done next.
    ///
    /// The count of retries grows by one with every retry, and starts again
    /// at zero once the request has succeeded or was given up.
    pub fn record(&mut self, outcome: Outcome, elapsed_secs: u64) -> (result: Verdict)
        ensures
            result == verdict(
                old(self).policy()@,
                old(self).past_retries(),
                outcome,
                elapsed_secs,
            ),
            final(self).policy() == old(self).policy(),
            final(self).past_retries() == (if result is RetryAfter {
                old(self).past_retries() + 1
            } else {
                0
            }),
    {
        let result = self.policy.decide(self.past_retries, outcome, elapsed_secs);
        match result {
            Verdict::RetryAfter(_) => {
                self.past_retries = self.past_retries + 1;
            },
            _ => {
                self.past_retries = 0;
            },
        }
        result
    }
}

/// An attempt as a run sees it: how it ended, and how many seconds after the
/// first attempt began.
pub struct Attempt {
    pub outcome: Outcome,
    pub elapsed_secs: u64,
}

/// What came of a request: how many attempts were made, the waits between
/// them, and the verdict that ended it (none while it is still retried).
pub struct Run {
    pub attempts: nat,
    pub waits: Seq<u32>,
    pub end: Option<Verdict>,
}

/// Plays a script of attempts against a policy, after `past_retries`
/// retries: every attempt gets its verdict, and the first verdict that is no
/// retry ends the run.
pub open spec fn run(policy: BackoffView, past_retries: nat, script: Seq<Attempt>) -> Run
    decreases script.len(),
{
    if script.len() == 0 {
        Run { attempts: 0, waits: Seq::empty(), end: None }
    } else {
        let first = verdict(policy, past_retries, script[0].outcome, script[0].elapsed_secs);
        match first {
            Verdict::RetryAfter(wait) => {
                let then = run(policy, past_retries + 1, script.drop_first());
                Run { attempts: then.attempts + 1, waits: seq![wait] + then.waits, end: then.end }
            },
            _ => Run { attempts: 1, waits: Seq::empty(), end: Some(first) },
        }
    }
}

/// Whether a script is a number of failures that may pass, each inside the
/// budget, followed by a success.
pub open spec fn fails_then_succeeds(policy: BackoffView, script: Seq<Attempt>) -> bool {
    &&& script.len() >= 1
    &&& script.last().outcome == Outcome::Success
    &&& forall|i: int|
        0 <= i < script.len() - 1 ==> {
            &&& (#[trigger] script[i]).outcome matches Outcome::Failed(failure)
            &&& failure.spec_is_transient()
            &&& script[i].elapsed_secs < policy.budget_secs
        }
}

/// A run of passing failures and then a success, begun after some retries
/// and staying within the limit: every failure is answered by the wait of
/// its retry, and the success ends the run.
pub proof fn lemma_run_from(policy: BackoffView, past_retries: nat, script: Seq<Attempt>)
    requires
        policy.wf(),
        fails_then_succeeds(policy, script),
        past_retries + script.len() - 1 <= policy.max_retries,
    ensures
        run(policy, past_retries, script).attempts == script.len(),
        run(policy, past_retries, script).end == Some(Verdict::Done),
        run(policy, past_retries, script).waits.len() == script.len() - 1,
        forall|i: int|
            0 <= i < script.len() - 1 ==> #[trigger] run(policy, past_retries, script).waits[i]
                == policy.delay((past_retries + i) as nat),
    decreases script.len(),
{
    if script.len() > 1 {
        let rest = script.drop_first();
        assert(script[0].outcome is Failed);
        assert(rest.last() == script.last());
        assert forall|i: int| 0 <= i < rest.len() - 1 implies {
            &&& (#[trigger] rest[i]).outcome matches Outcome::Failed(failure)
            &&& failure.spec_is_transient()
            &&& rest[i].elapsed_secs < policy.budget_secs
        } by {
            assert(rest[i] == script[i + 1]);
        }
        lemma_run_from(policy, past_retries + 1, rest);
        lemma_delay_bounded(policy, past_retries);
        let whole = run(policy, past_retries, script);
        let then = run(policy, past_retries + 1, rest);
        assert forall|i: int| 0 <= i < script.len() - 1 implies #[trigger] whole.waits[i]
            == policy.delay((past_retries + i) as nat) by {
            if i > 0 {
                assert(whole.waits[i] == then.waits[i - 1]);
            } else {
                assert(whole.waits[0] == policy.delay(past_retries) as u32);
            }
        }
    }
}

/// After any number of failures that may pass, within the budget and the
/// limit of retries, a success is reached with exactly one attempt more than
/// there were failures. The waits between the attempts never shrink, and each
/// lies between the shortest and the longest delay.
pub proof fn lemma_retries_until_success(policy: BackoffView, script: Seq<Attempt>)
    requires
        policy.wf(),
        fails_then_succeeds(policy, script),
        script.len() - 1 <= policy.max_retries,
    ensures
        run(policy, 0, script).attempts == script.len(),
        run(policy, 0, script).end == Some(Verdict::Done),
        run(policy, 0, script).waits.len() == script.len() - 1,
        forall|i: int|
            0 <= i < script.len() - 1 ==> policy.min_secs <= #[trigger] run(
                policy,
                0,
                script,
            ).waits[i] <= policy.max_secs,
        forall|i: int, j: int|
            0 <= i <= j < script.len() - 1 ==> run(policy, 0, script).waits[i] <= run(
                policy,
                0,
                script,
            ).waits[j],
{
    lemma_run_from(policy, 0, script);
    let waits = run(policy, 0, script).waits;
    assert forall|i: int| 0 <= i < script.len() - 1 implies policy.min_secs <= #[trigger] waits[i]
        <= policy.max_secs by {
        lemma_delay_bounded(policy, i as nat);
    }
    assert forall|i: int, j: int| 0 <= i <= j < script.len() - 1 implies waits[i] <= waits[j] by {
        lemma_delay_monotone(policy, i as nat, j as nat);
    }
}

} // verus!
