//! The shared error counter: fails requests until a threshold is passed.
//!
//! The counter is one plain value; whoever shares it between concurrent
//! requests holds it behind a single lock and calls one method of it per
//! critical section, so that increment and compare form one step.
use vstd::prelude::*;
use crate::status::{INTERNAL_SERVER_ERROR, OK};

verus! {

/// The counter's value after one increment. It stops at `u64::MAX`, which no
/// threshold reaches, so a saturated counter keeps reporting success.
pub open spec fn next_value(v: nat) -> nat {
    if v < u64::MAX {
        v + 1
    } else {
        v
    }
}

/// Whether a counter that has just reached `after` is still failing.
pub open spec fn still_failing(after: nat, threshold: int) -> bool {
    after <= threshold
}

/// What `k` calls of `increment_and_check(threshold)` report when they run one
/// after another from a counter at `start`.
pub open spec fn serial_outcomes(start: nat, k: nat, threshold: int) -> Seq<bool>
    decreases k,
{
    if k == 0 {
        Seq::empty()
    } else {
        seq![still_failing(next_value(start), threshold)] + serial_outcomes(
            next_value(start),
            (k - 1) as nat,
            threshold,
        )
    }
}

/// How many entries of `s` are true.
pub open spec fn count_true(s: Seq<bool>) -> nat
    decreases s.len(),
{
    if s.len() == 0 {
        0
    } else {
        count_true(s.drop_last()) + if s.last() {
            1nat
        } else {
            0nat
        }
    }
}

/// The process-wide error counter.
pub struct ErrorCounter {
    value: u64,
}

impl View for ErrorCounter {
    type V = nat;

    closed spec fn view(&self) -> nat {
        self.value as nat
    }
}

impl ErrorCounter {
    /// A counter at zero.
    pub fn new() -> (r: ErrorCounter)
        ensures
            r@ == 0,
    {
        ErrorCounter { value: 0 }
    }

    /// The current value.
    pub fn value(&self) -> (r: u64)
        ensures
            r as nat == self@,
    {
        self.value
    }

    /// Increments the counter and reports whether it is still at or below
    /// `threshold`, that is whether the request should still fail.
    pub fn increment_and_check(&mut self, threshold: i32) -> (r: bool)
        ensures
            final(self)@ == next_value(old(self)@),
            r == still_failing(final(self)@, threshold as int),
    {
        if self.value < u64::MAX {
            self.value = self.value + 1;
        }
        (self.value as i128) <= (threshold as i128)
    }

    /// Sets the counter back to zero.
    pub fn reset(&mut self)
        ensures
            final(self)@ == 0,
    {
        self.value = 0;
    }
}

/// The status of a request to the counting endpoint: a server error while the
/// counter, once incremented, is at or below `threshold`, success after.
pub fn error_count(counter: &mut ErrorCounter, threshold: i32) -> (r: u16)
    ensures
        final(counter)@ == next_value(old(counter)@),
        r == (if still_failing(final(counter)@, threshold as int) {
            INTERNAL_SERVER_ERROR
        } else {
            OK
        }),
{
    if counter.increment_and_check(threshold) {
        INTERNAL_SERVER_ERROR
    } else {
        OK
    }
}

/// The status of a request to the reset endpoint, which zeroes the counter.
pub fn error_count_reset(counter: &mut ErrorCounter) -> (r: u16)
    ensures
        final(counter)@ == 0,
        r == OK,
{
    counter.reset();
    OK
}

proof fn lemma_serial_outcomes_index(start: nat, k: nat, threshold: int)
    requires
        start <= u64::MAX,
    ensures
        serial_outcomes(start, k, threshold).len() == k,
        forall|i: int|
            0 <= i < k ==> #[trigger] serial_outcomes(start, k, threshold)[i] == (if start + i
                + 1 <= u64::MAX {
                start + i + 1 <= threshold
            } else {
                u64::MAX <= threshold
            }),
    decreases k,
{
    if k > 0 {
        let n = next_value(start);
        lemma_serial_outcomes_index(n, (k - 1) as nat, threshold);
        let s = serial_outcomes(start, k, threshold);
        let rest = serial_outcomes(n, (k - 1) as nat, threshold);
        assert(s == seq![still_failing(n, threshold)] + rest);
        assert forall|i: int| 0 <= i < k implies #[trigger] s[i] == (if start + i + 1 <= u64::MAX {
            start + i + 1 <= threshold
        } else {
            u64::MAX <= threshold
        }) by {
            if i > 0 {
                assert(s[i] == rest[i - 1]);
            }
        }
    }
}

proof fn lemma_count_prefix_true(k: nat, m: nat)
    ensures
        count_true(Seq::new(k, |i: int| i < m)) == if k <= m {
            k
        } else {
            m
        },
    decreases k,
{
    if k > 0 {
        let s = Seq::new(k, |i: int| i < m);
        assert(s.drop_last() =~= Seq::new((k - 1) as nat, |i: int| i < m));
        lemma_count_prefix_true((k - 1) as nat, m);
    }
}

/// `k` calls of `increment_and_check(threshold)` serialised by the counter's
/// lock, from a freshly reset counter, in whatever order the callers got the
/// lock: the call that goes `i`-th (from zero) reports failure exactly when
/// `i < threshold`, so exactly `min(k, threshold)` of them report failure (none
/// for a threshold below one) and the rest success, with no increment lost or
/// counted twice.
pub proof fn serialized_calls_fail_up_to_threshold(k: nat, threshold: i32)
    ensures
        serial_outcomes(0, k, threshold as int) == Seq::new(k, |i: int| i < threshold),
        count_true(serial_outcomes(0, k, threshold as int)) == if threshold < 0 {
            0
        } else if k <= threshold {
            k
        } else {
            threshold as nat
        },
{
    let s = serial_outcomes(0, k, threshold as int);
    lemma_serial_outcomes_index(0, k, threshold as int);
    assert(s =~= Seq::new(k, |i: int| i < threshold));
    let m: nat = if threshold < 0 {
        0
    } else {
        threshold as nat
    };
    assert(Seq::new(k, |i: int| i < threshold) =~= Seq::new(k, |i: int| i < m));
    lemma_count_prefix_true(k, m);
}

/// Once a call has reported success, every later call with the same or a lower
/// threshold reports success too, until the counter is reset.
pub proof fn success_is_permanent_until_reset(v: nat, threshold: int, later: int)
    requires
        !still_failing(v, threshold),
        later <= threshold,
    ensures
        next_value(v) >= v,
        !still_failing(next_value(v), later),
{
}

} // verus!
