//! Integer arithmetic behind the fixed-point stick values: square roots and
//! scaling with rounding toward zero.

use vstd::prelude::*;

verus! {

/// Whether `r` is the root of `n` rounded down.
pub open spec fn is_floor_sqrt(n: nat, r: nat) -> bool {
    r * r <= n && n < (r + 1) * (r + 1)
}

/// The square root of `n` rounded down.
pub open spec fn floor_sqrt(n: nat) -> nat {
    choose|r: nat| is_floor_sqrt(n, r)
}

/// The quotient of `n` by a positive `d`, rounded toward zero.
pub open spec fn toward_zero(n: int, d: int) -> int {
    if n >= 0 {
        n / d
    } else {
        -((-n) / d)
    }
}

/// The distance of `v` from zero.
pub open spec fn magnitude(v: int) -> nat {
    if v >= 0 {
        v as nat
    } else {
        (-v) as nat
    }
}

/// Every number has a root rounded down.
pub proof fn lemma_floor_sqrt_exists(n: nat)
    ensures
        exists|r: nat| is_floor_sqrt(n, r),
    decreases n,
{
    if n == 0 {
        assert(0nat * 0nat <= 0 && 0 < (0nat + 1) * (0nat + 1)) by (nonlinear_arith);
        assert(is_floor_sqrt(0, 0));
    } else {
        let below = (n - 1) as nat;
        lemma_floor_sqrt_exists(below);
        let r = choose|r: nat| is_floor_sqrt(below, r);
        if n < (r + 1) * (r + 1) {
            assert(is_floor_sqrt(n, r));
        } else {
            assert((r + 1) * (r + 1) <= n);
            assert(n < (r + 2) * (r + 2)) by (nonlinear_arith)
                requires
                    n - 1 < (r + 1) * (r + 1),
            ;
            assert(is_floor_sqrt(n, r + 1));
        }
    }
}

/// Only one number is the root of `n` rounded down.
pub proof fn lemma_floor_sqrt_unique(n: nat, r: nat, s: nat)
    requires
        is_floor_sqrt(n, r),
        is_floor_sqrt(n, s),
    ensures
        r == s,
{
    if r < s {
        assert((r + 1) * (r + 1) <= s * s) by (nonlinear_arith)
            requires
                r + 1 <= s,
        ;
    }
    if s < r {
        assert((s + 1) * (s + 1) <= r * r) by (nonlinear_arith)
            requires
                s + 1 <= r,
        ;
    }
}

/// The root rounded down is what its name says, and whatever has that
/// property is it.
pub proof fn lemma_floor_sqrt(n: nat)
    ensures
        is_floor_sqrt(n, floor_sqrt(n)),
        forall|r: nat| is_floor_sqrt(n, r) ==> r == floor_sqrt(n),
{
    lemma_floor_sqrt_exists(n);
    assert forall|r: nat| is_floor_sqrt(n, r) implies r == floor_sqrt(n) by {
        lemma_floor_sqrt_unique(n, r, floor_sqrt(n));
    }
}

/// A number whose square is at most `n` is at most the root of `n`, and a
/// number whose square is above `n` is above it.
pub proof fn lemma_floor_sqrt_order(n: nat, a: nat)
    ensures
        a * a <= n <==> a <= floor_sqrt(n),
{
    lemma_floor_sqrt(n);
    let r = floor_sqrt(n);
    if a <= r {
        assert(a * a <= r * r) by (nonlinear_arith)
            requires
                a <= r,
        ;
    } else {
        assert((r + 1) * (r + 1) <= a * a) by (nonlinear_arith)
            requires
                r + 1 <= a,
        ;
    }
}

/// Computes the square root of `n` rounded down.
pub fn isqrt(n: u128) -> (root: u64)
    ensures
        root == floor_sqrt(n as nat),
        is_floor_sqrt(n as nat, root as nat),
{
    let mut lo: u128 = 0;
    let mut hi: u128 = 0x1_0000_0000_0000_0000;
    assert(n < hi * hi) by (nonlinear_arith)
        requires
            n <= u128::MAX,
            hi == 0x1_0000_0000_0000_0000,
    ;
    while hi - lo > 1
        invariant
            lo < hi <= 0x1_0000_0000_0000_0000,
            lo * lo <= n,
            n < hi * hi,
        decreases hi - lo,
    {
        let mid: u128 = lo + (hi - lo) / 2;
        assert(mid * mid <= u128::MAX) by (nonlinear_arith)
            requires
                mid < 0x1_0000_0000_0000_0000,
        ;
        if mid * mid <= n {
            lo = mid;
        } else {
            hi = mid;
        }
    }
    proof {
        assert(hi == lo + 1);
        assert(is_floor_sqrt(n as nat, lo as nat));
        lemma_floor_sqrt(n as nat);
    }
    lo as u64
}

/// Computes the distance of `v` from zero.
pub fn abs_i64(v: i64) -> (distance: u64)
    ensures
        distance == magnitude(v as int),
{
    if v >= 0 {
        v as u64
    } else if v == i64::MIN {
        0x8000_0000_0000_0000
    } else {
        (-v) as u64
    }
}

/// Computes `v * num / den` rounded toward zero, for a value whose result
/// lies within `bound` of zero.
pub fn scale_toward_zero(v: i64, num: u64, den: u64, bound: i64) -> (scaled: i64)
    requires
        den > 0,
        bound >= 0,
        magnitude(v as int) * num / (den as int) <= bound,
    ensures
        scaled == toward_zero(v * num, den as int),
        -bound <= scaled <= bound,
{
    let distance = abs_i64(v);
    assert(distance * num <= u64::MAX * u64::MAX) by (nonlinear_arith)
        requires
            0 <= distance <= u64::MAX,
            0 <= num <= u64::MAX,
    ;
    let product: u128 = (distance as u128) * (num as u128);
    let quotient: u128 = product / (den as u128);
    assert(v >= 0 ==> v * num == distance * num) by (nonlinear_arith)
        requires
            v >= 0 ==> distance == v,
    ;
    assert(v < 0 ==> -(v * num) == distance * num) by (nonlinear_arith)
        requires
            v < 0 ==> distance == -v,
    ;
    assert(v < 0 && num > 0 ==> v * num < 0) by (nonlinear_arith);
    assert(num == 0 ==> v * num == 0) by (nonlinear_arith);
    if v >= 0 {
        quotient as i64
    } else {
        -(quotient as i64)
    }
}

} // verus!
