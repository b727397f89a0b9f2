//! How long to wait before the next attempt to connect.

use vstd::arithmetic::power2::{lemma_pow2_adds, lemma_pow2_unfold, pow2};
use vstd::prelude::*;

use crate::time::{Duration, NANOS_PER_SEC};

verus! {

/// The smaller of two numbers.
pub open spec fn least(a: nat, b: nat) -> nat {
    if a <= b {
        a
    } else {
        b
    }
}

/// A wait that doubles with every attempt, up to a limit.
///
/// - before the first attempt: `base_duration`
/// - before the second: twice `base_duration`
/// - before the n-th: `base_duration` doubled n - 1 times, but no more than
///   `max_interval`
#[derive(Clone, Debug)]
pub struct CappedExponentialBackoff {
    /// How many attempts there are, where there is a limit.
    pub max_times: Option<usize>,
    /// The wait before the first attempt.
    pub base_duration: Duration,
    /// The longest wait.
    pub max_interval: Duration,
}

impl CappedExponentialBackoff {
    /// The nanoseconds to wait after `times` attempts, or none where no more are
    /// to be made.
    pub open spec fn wait(self, times: nat) -> Option<nat> {
        if self.max_times is Some && times >= self.max_times->0 {
            None
        } else {
            Some(least(self.base_duration@ * pow2(times), self.max_interval@))
        }
    }

    /// A policy with the given limits.
    pub fn new(
        max_times: Option<usize>,
        base_duration: Duration,
        max_interval: Duration,
    ) -> (r: Self)
        ensures
            r.max_times == max_times,
            r.base_duration == base_duration,
            r.max_interval == max_interval,
    {
        CappedExponentialBackoff { max_times, base_duration, max_interval }
    }

    /// How long to wait after `current_times` attempts, or `None` where no more
    /// are to be made.
    pub fn retry(&self, current_times: usize) -> (r: Option<Duration>)
        ensures
            r is Some == self.wait(current_times as nat) is Some,
            r is Some ==> Some(r->0@) == self.wait(current_times as nat),
    {
        if let Some(max_times) = self.max_times {
            if current_times >= max_times {
                return None;
            }
        }
        let base: u128 = self.base_duration.as_nanos();
        let limit: u128 = self.max_interval.as_nanos();
        if base == 0 {
            assert(0 * pow2(current_times as nat) == 0);
            return Some(self.base_duration);
        }
        let mut delay: u128 = base;
        let mut times: usize = 0;
        proof {
            vstd::arithmetic::power2::lemma2_to64();
        }
        while times < current_times && delay < limit
            invariant
                base == self.base_duration@,
                limit == self.max_interval@,
                limit / NANOS_PER_SEC as u128 <= u64::MAX,
                0 < base,
                times <= current_times,
                delay == base * pow2(times as nat),
            decreases current_times - times,
        {
            proof {
                lemma_pow2_unfold((times + 1) as nat);
                assert(base * pow2((times + 1) as nat) == 2 * (base * pow2(times as nat)))
                    by (nonlinear_arith)
                    requires
                        pow2((times + 1) as nat) == 2 * pow2(times as nat),
                ;
            }
            delay = delay * 2;
            times += 1;
        }
        if delay >= limit {
            proof {
                lemma_pow2_adds(times as nat, (current_times - times) as nat);
                vstd::arithmetic::power2::lemma_pow2_pos((current_times - times) as nat);
                let p = pow2(times as nat) as int;
                let q = pow2((current_times - times) as nat) as int;
                assert(base * (p * q) >= base * p) by (nonlinear_arith)
                    requires
                        base > 0,
                        p >= 0,
                        q >= 1,
                ;
            }
            Some(self.max_interval)
        } else {
            Some(Duration::from_nanos(delay))
        }
    }
}

impl Default for CappedExponentialBackoff {
    fn default() -> (r: Self)
        ensures
            r.max_times is None,
            r.base_duration@ == 1 * NANOS_PER_SEC,
            r.max_interval@ == 60 * NANOS_PER_SEC,
    {
        CappedExponentialBackoff {
            max_times: None,
            base_duration: Duration::from_secs(1),
            max_interval: Duration::from_secs(60),
        }
    }
}

/// No wait is longer than the limit.
pub proof fn waits_are_capped(policy: CappedExponentialBackoff, times: nat)
    requires
        policy.wait(times) is Some,
    ensures
        policy.wait(times)->0 <= policy.max_interval@,
{
}

/// Waits never become shorter.
pub proof fn waits_do_not_shrink(policy: CappedExponentialBackoff, a: nat, b: nat)
    requires
        a <= b,
        policy.wait(b) is Some,
    ensures
        policy.wait(a) is Some,
        policy.wait(a)->0 <= policy.wait(b)->0,
{
    lemma_pow2_adds(a, (b - a) as nat);
    vstd::arithmetic::power2::lemma_pow2_pos((b - a) as nat);
    let base = policy.base_duration@;
    let p = pow2(a);
    let q = pow2((b - a) as nat);
    assert(base * p <= base * (p * q)) by (nonlinear_arith)
        requires
            q >= 1,
    ;
}

/// Until the limit is reached, each wait is twice the one before it.
pub proof fn waits_double_up_to_the_limit(policy: CappedExponentialBackoff, times: nat)
    requires
        policy.wait(times + 1) is Some,
    ensures
        policy.wait(times) is Some,
        policy.wait(times + 1)->0 == least(2 * policy.wait(times)->0, policy.max_interval@),
{
    lemma_pow2_unfold(times + 1);
    let base = policy.base_duration@;
    assert(base * pow2(times + 1) == 2 * (base * pow2(times))) by (nonlinear_arith)
        requires
            pow2(times + 1) == 2 * pow2(times),
    ;
}

/// The number of attempts is what the policy says: they are unlimited, or there
/// are exactly as many as it allows.
pub proof fn attempts_are_counted(policy: CappedExponentialBackoff, times: nat)
    ensures
        policy.wait(times) is Some <==> (policy.max_times is None || times < policy.max_times->0),
{
}

/// The first wait is the base, unless the limit is shorter. With the doubling of
/// each wait up to the limit this fixes them all.
pub proof fn first_wait_is_the_base(policy: CappedExponentialBackoff)
    requires
        policy.max_times is None || policy.max_times->0 > 0,
    ensures
        policy.wait(0) is Some,
        policy.base_duration@ <= policy.max_interval@ ==> policy.wait(0)->0
            == policy.base_duration@,
        policy.base_duration@ > policy.max_interval@ ==> policy.wait(0)->0 == policy.max_interval@,
{
    vstd::arithmetic::power2::lemma2_to64();
}

/// A wait is the base doubled once for each attempt before it, or the limit where
/// that would be longer.
pub proof fn waits_are_doubled_bases(policy: CappedExponentialBackoff, times: nat)
    requires
        policy.max_times is None || times < policy.max_times->0,
    ensures
        policy.wait(times) is Some,
        policy.wait(times)->0 == policy.base_duration@ * pow2(times) || policy.wait(times)->0
            == policy.max_interval@,
        policy.base_duration@ * pow2(times) <= policy.max_interval@ ==> policy.wait(times)->0
            == policy.base_duration@ * pow2(times),
        policy.wait(times)->0 <= policy.max_interval@,
{
}

/// The smaller of two numbers is one of them, and neither is smaller.
pub proof fn least_is_the_smaller(a: nat, b: nat)
    ensures
        least(a, b) == a || least(a, b) == b,
        least(a, b) <= a,
        least(a, b) <= b,
{
}

/// A policy waits before each attempt that it allows: the base before the first,
/// and before each other one twice the wait before, but no longer than the limit.
pub proof fn policy_waits_before_each_attempt(
    policy: &CappedExponentialBackoff,
    times: usize,
    r: Option<Duration>,
    next: Option<Duration>,
)
    requires
        times < usize::MAX,
        call_ensures(CappedExponentialBackoff::retry, (policy, times), r),
        call_ensures(
            CappedExponentialBackoff::retry,
            (policy, (times + 1) as usize),
            next,
        ),
    ensures
        r is Some <==> (policy.max_times is None || times < policy.max_times->0),
        r is Some ==> r->0@ <= policy.max_interval@,
        r is Some && times == 0 && policy.base_duration@ <= policy.max_interval@ ==> r->0@
            == policy.base_duration@,
        r is Some && next is Some && 2 * r->0@ <= policy.max_interval@ ==> next->0@ == 2 * r->0@,
        r is Some && next is Some && 2 * r->0@ > policy.max_interval@ ==> next->0@
            == policy.max_interval@,
{
    attempts_are_counted(*policy, times as nat);
    if r is Some {
        waits_are_capped(*policy, times as nat);
        if times == 0 {
            first_wait_is_the_base(*policy);
        }
    }
    if next is Some {
        waits_double_up_to_the_limit(*policy, times as nat);
    }
}

} // verus!
