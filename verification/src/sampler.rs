//! Sampling policy: a decoded frame is retained exactly when the decode
//! counter is a multiple of the configured interval, and the retained
//! frames receive dense sequence indices `0, 1, 2, ...`.

use vstd::arithmetic::div_mod::lemma_fundamental_div_mod;
use vstd::arithmetic::div_mod::lemma_fundamental_div_mod_converse;
use vstd::prelude::*;

verus! {

/// A frame with decode counter `counter` is retained when the counter is a
/// multiple of the sampling interval.
pub open spec fn spec_retain(counter: nat, interval: nat) -> bool
    recommends
        interval >= 1,
{
    counter % interval == 0
}

/// How many counters in `0 .. n` are retained at interval `interval`.
pub open spec fn retained_below(n: nat, interval: nat) -> nat
    recommends
        interval >= 1,
    decreases n,
{
    if n == 0 {
        0
    } else {
        retained_below((n - 1) as nat, interval) + if spec_retain((n - 1) as nat, interval) {
            1nat
        } else {
            0nat
        }
    }
}

/// Decides whether the frame at `counter` is retained.
pub fn retain(counter: usize, interval: usize) -> (r: bool)
    requires
        interval >= 1,
    ensures
        r == spec_retain(counter as nat, interval as nat),
{
    counter % interval == 0
}

/// The sequence index assigned to a retained frame at `counter`.
pub fn sequence_index(counter: usize, interval: usize) -> (r: usize)
    requires
        interval >= 1,
    ensures
        r == counter as int / interval as int,
{
    counter / interval
}

/// The count of retained counters below `n` in closed form: `n / interval`,
/// rounded up when `n` is not a multiple of the interval.
pub proof fn lemma_retained_below_closed(n: nat, interval: nat)
    requires
        interval >= 1,
    ensures
        retained_below(n, interval) == if n % interval == 0 {
            n / interval
        } else {
            n / interval + 1
        },
    decreases n,
{
    if n == 0 {
    } else {
        let m = (n - 1) as nat;
        lemma_retained_below_closed(m, interval);
        lemma_fundamental_div_mod(m as int, interval as int);
        let i = interval as int;
        let q = m as int / i;
        let r = m as int % i;
        assert(q * i == i * q) by (nonlinear_arith);
        assert((q + 1) * i == q * i + i) by (nonlinear_arith);
        if r == i - 1 {
            lemma_fundamental_div_mod_converse(n as int, i, q + 1, 0);
        } else {
            lemma_fundamental_div_mod_converse(n as int, i, q, r + 1);
        }
    }
}

/// Law: for every interval `I >= 1` and decoded frame count `N`, the number
/// of retained frames equals `N / I` rounded up (`ceil(N / I)`), which may
/// also be written `(N + I - 1) / I`.
pub proof fn lemma_retained_count_is_ceil(n: nat, interval: nat)
    requires
        interval >= 1,
    ensures
        retained_below(n, interval) == (n + interval - 1) as int / interval as int,
        retained_below(n, interval) == if n % interval == 0 {
            n / interval
        } else {
            n / interval + 1
        },
{
    lemma_retained_below_closed(n, interval);
    lemma_fundamental_div_mod(n as int, interval as int);
    let i = interval as int;
    let q = n as int / i;
    let r = n as int % i;
    assert(q * i == i * q) by (nonlinear_arith);
    assert((q + 1) * i == q * i + i) by (nonlinear_arith);
    if r == 0 {
        lemma_fundamental_div_mod_converse(n as int + i - 1, i, q, i - 1);
    } else {
        lemma_fundamental_div_mod_converse(n as int + i - 1, i, q + 1, r - 1);
    }
}

/// Law: interval 1 retains every decoded frame.
pub proof fn lemma_interval_one_retains_all(n: nat)
    ensures
        retained_below(n, 1) == n,
    decreases n,
{
    if n > 0 {
        lemma_interval_one_retains_all((n - 1) as nat);
    }
}

/// A retained counter's sequence index `counter / interval` equals the count
/// of retained counters before it, so the indices are dense and ordered.
pub proof fn lemma_index_is_retained_count(counter: nat, interval: nat)
    requires
        interval >= 1,
        spec_retain(counter, interval),
    ensures
        retained_below(counter, interval) == counter / interval,
{
    lemma_retained_below_closed(counter, interval);
}

} // verus!
