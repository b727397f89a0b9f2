//! Spans of time.

use vstd::prelude::*;

verus! {

/// Nanoseconds in a second.
pub const NANOS_PER_SEC: u32 = 1_000_000_000;

/// Nanoseconds in a millisecond.
pub const NANOS_PER_MILLI: u32 = 1_000_000;

/// The text by which the standard library shows a span of `secs` seconds and
/// `nanos` nanoseconds to a developer.
pub uninterp spec fn shown_span(secs: u64, nanos: u32) -> Seq<char>;

/// `format!("{:?}", ..)` of a [`std::time::Duration`] of `secs` seconds and
/// `nanos` nanoseconds. Such a span has no state beyond the two numbers, and
/// the result is named as a function of them; how it is laid out, with its
/// fraction and its unit, is not stated.
#[verifier::external_body]
fn show_span(secs: u64, nanos: u32) -> (r: String)
    requires
        nanos < NANOS_PER_SEC,
    ensures
        r@ == shown_span(secs, nanos),
{
    format!("{:?}", std::time::Duration::new(secs, nanos))
}

/// A span of time, to the nanosecond.
#[derive(Clone, Copy, Debug, PartialEq, Eq, Structural)]
pub struct Duration {
    secs: u64,
    nanos: u32,
}

impl Duration {
    #[verifier::type_invariant]
    spec fn wf(self) -> bool {
        self.nanos < NANOS_PER_SEC
    }

    /// The whole seconds.
    pub closed spec fn whole_secs(self) -> u64 {
        self.secs
    }

    /// The nanoseconds beyond the whole seconds.
    pub closed spec fn rest_nanos(self) -> u32 {
        self.nanos
    }
}

impl View for Duration {
    type V = nat;

    /// The nanoseconds.
    open spec fn view(&self) -> nat {
        self.whole_secs() as nat * NANOS_PER_SEC as nat + self.rest_nanos() as nat
    }
}

impl Duration {
    /// A span of whole seconds.
    pub fn from_secs(secs: u64) -> (r: Self)
        ensures
            r@ == secs * NANOS_PER_SEC,
            r.whole_secs() == secs,
            r.rest_nanos() == 0,
    {
        Duration { secs, nanos: 0 }
    }

    /// A span of whole milliseconds.
    pub fn from_millis(millis: u64) -> (r: Self)
        ensures
            r@ == millis * NANOS_PER_MILLI,
            r.whole_secs() == millis / 1000,
            r.rest_nanos() == (millis % 1000) * NANOS_PER_MILLI,
    {
        Duration { secs: millis / 1000, nanos: (millis % 1000) as u32 * NANOS_PER_MILLI }
    }

    /// A span of `secs` seconds and `nanos` nanoseconds.
    pub fn new(secs: u64, nanos: u32) -> (r: Self)
        requires
            nanos < NANOS_PER_SEC,
        ensures
            r@ == secs * NANOS_PER_SEC + nanos,
            r.whole_secs() == secs,
            r.rest_nanos() == nanos,
    {
        Duration { secs, nanos }
    }

    /// The whole seconds.
    pub fn as_secs(self) -> (r: u64)
        ensures
            r == self@ / NANOS_PER_SEC as nat,
            r == self.whole_secs(),
    {
        proof {
            use_type_invariant(self);
        }
        self.secs
    }

    /// The nanoseconds beyond the whole seconds.
    pub fn subsec_nanos(self) -> (r: u32)
        ensures
            r == self@ % NANOS_PER_SEC as nat,
            r == self.rest_nanos(),
    {
        proof {
            use_type_invariant(self);
        }
        self.nanos
    }

    /// The nanoseconds.
    pub fn as_nanos(self) -> (r: u128)
        ensures
            r == self@,
            r / NANOS_PER_SEC as u128 <= u64::MAX,
    {
        proof {
            use_type_invariant(self);
        }
        let r: u128 = self.secs as u128 * 1_000_000_000 + self.nanos as u128;
        assert(r / 1_000_000_000u128 == self.secs);
        r
    }

    /// The span of `nanos` nanoseconds.
    pub fn from_nanos(nanos: u128) -> (r: Self)
        requires
            nanos / NANOS_PER_SEC as u128 <= u64::MAX as u128,
        ensures
            r@ == nanos,
    {
        let secs: u128 = nanos / NANOS_PER_SEC as u128;
        let rest: u128 = nanos % NANOS_PER_SEC as u128;
        Duration { secs: secs as u64, nanos: rest as u32 }
    }

    /// The span as it is shown to a developer.
    pub fn shown(self) -> (r: String)
        ensures
            r@ == shown_span(self.whole_secs(), self.rest_nanos()),
    {
        proof {
            use_type_invariant(self);
        }
        show_span(self.secs, self.nanos)
    }
}

/// Spans of the same length are the same.
pub proof fn same_length_same_span(a: Duration, b: Duration)
    requires
        a.rest_nanos() < NANOS_PER_SEC,
        b.rest_nanos() < NANOS_PER_SEC,
        a@ == b@,
    ensures
        a == b,
{
}

/// A span is as long as it is made: whole seconds, whole milliseconds, or seconds
/// and nanoseconds, and it gives back what it was made of.
pub proof fn spans_are_as_long_as_they_are_made(
    n: u64,
    nanos: u32,
    of_secs: Duration,
    of_millis: Duration,
    of_both: Duration,
    span: Duration,
    secs: u64,
    rest: u32,
    all: u128,
)
    requires
        nanos < NANOS_PER_SEC,
        call_ensures(Duration::from_secs, (n,), of_secs),
        call_ensures(Duration::from_millis, (n,), of_millis),
        call_ensures(Duration::new, (n, nanos), of_both),
        call_ensures(Duration::as_secs, (span,), secs),
        call_ensures(Duration::subsec_nanos, (span,), rest),
        call_ensures(Duration::as_nanos, (span,), all),
    ensures
        of_secs@ == n * 1_000_000_000,
        of_millis@ == n * 1_000_000,
        of_both@ == n * 1_000_000_000 + nanos,
        span@ == secs * 1_000_000_000 + rest,
        all == secs * 1_000_000_000 + rest,
{
}

/// A span that is made of its nanoseconds is as long as it was.
pub proof fn span_is_made_of_its_nanoseconds(span: Duration, all: u128, again: Duration)
    requires
        call_ensures(Duration::as_nanos, (span,), all),
        call_ensures(Duration::from_nanos, (all,), again),
    ensures
        again@ == span@,
{
}

} // verus!
