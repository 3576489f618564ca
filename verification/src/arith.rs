//! Division that rounds up, and the facts about it that part sizing needs.

use vstd::prelude::*;
use vstd::arithmetic::div_mod::lemma_fundamental_div_mod;
use vstd::arithmetic::div_mod::lemma_mod_bound;

verus! {

/// The number of chunks of `size` needed to cover `total`: `total / size`,
/// rounded up.
pub open spec fn ceil_div(total: nat, size: nat) -> nat
    recommends
        size > 0,
{
    if total % size == 0 {
        total / size
    } else {
        total / size + 1
    }
}

/// `ceil_div(total, size)` is the least count of chunks that covers `total`:
/// that many chunks reach it, and one chunk fewer would not.
pub proof fn lemma_ceil_div_bounds(total: nat, size: nat)
    requires
        size > 0,
    ensures
        ceil_div(total, size) * size >= total,
        total > 0 ==> ceil_div(total, size) >= 1,
        total > 0 ==> (ceil_div(total, size) - 1) * size < total,
        total == 0 ==> ceil_div(total, size) == 0,
{
    let q = (total / size) as int;
    let r = (total % size) as int;
    lemma_fundamental_div_mod(total as int, size as int);
    lemma_mod_bound(total as int, size as int);
    assert(total == size * q + r);
    assert(size * q == q * size) by (nonlinear_arith);
    assert((q + 1) * size == q * size + size) by (nonlinear_arith);
    assert((q - 1) * size == q * size - size) by (nonlinear_arith);
    if total == 0 {
        assert(q == 0) by (nonlinear_arith)
            requires
                size * q + r == 0,
                size > 0,
                q >= 0,
                r >= 0,
        ;
    }
    if total > 0 && r == 0 {
        assert(q >= 1) by (nonlinear_arith)
            requires
                size * q > 0,
                size > 0,
        ;
    }
}

/// With chunks of at least `ceil_div(total, limit)`, no more than `limit`
/// chunks are needed.
pub proof fn lemma_ceil_div_within(total: nat, limit: nat, size: nat)
    requires
        limit > 0,
        size > 0,
        size >= ceil_div(total, limit),
    ensures
        ceil_div(total, size) <= limit,
{
    lemma_ceil_div_bounds(total, limit);
    lemma_ceil_div_bounds(total, size);
    let c = ceil_div(total, size) as int;
    let m = ceil_div(total, limit) as int;
    if c > limit {
        // `limit` chunks of `size` already cover `total`.
        assert(m * limit <= size * limit) by (nonlinear_arith)
            requires
                m <= size,
                limit > 0,
        ;
        assert(limit * size <= (c - 1) * size) by (nonlinear_arith)
            requires
                limit <= c - 1,
                size > 0,
        ;
        assert(size * limit == limit * size) by (nonlinear_arith);
    }
}

/// `total / size`, rounded up.
pub fn div_ceil(total: u64, size: u64) -> (count: u64)
    requires
        size > 0,
    ensures
        count == ceil_div(total as nat, size as nat),
{
    let whole: u64 = total / size;
    if total % size == 0 {
        whole
    } else {
        assert(whole < u64::MAX) by {
            lemma_fundamental_div_mod(total as int, size as int);
            assert(size * (total as int / size as int) >= total as int / size as int)
                by (nonlinear_arith)
                requires
                    size >= 1,
                    total as int / size as int >= 0,
            ;
        }
        whole + 1
    }
}

} // verus!
