//! Integer square root on fixed-point milli-unit quantities.
//!
//! All geometry in this crate is carried in thousandths of a unit, so the
//! Euclidean norms the placement needs are floor square roots of products of
//! milli-unit coordinates.

use vstd::prelude::*;

verus! {

/// Largest argument `isqrt` accepts; wide enough for the squared norm of any
/// vector whose components the solver produces.
pub const ISQRT_MAX: i64 = 20_000_000_000_000;

/// Mathematical floor of the square root of `n`.
pub open spec fn sqrt_floor(n: nat) -> nat
    decreases n,
{
    if n == 0 {
        0
    } else {
        let r = sqrt_floor((n - 1) as nat);
        if (r + 1) * (r + 1) <= n {
            r + 1
        } else {
            r
        }
    }
}

/// `sqrt_floor(n)` is the unique natural number whose square is at most `n`
/// while the next square is beyond `n`.
pub proof fn lemma_sqrt_floor_bounds(n: nat)
    ensures
        sqrt_floor(n) * sqrt_floor(n) <= n,
        n < (sqrt_floor(n) + 1) * (sqrt_floor(n) + 1),
    decreases n,
{
    if n == 0 {
        assert(sqrt_floor(n) == 0);
        assert(n < (sqrt_floor(n) + 1) * (sqrt_floor(n) + 1)) by (nonlinear_arith)
            requires n == 0 && sqrt_floor(n) == 0;
    } else {
        let m = (n - 1) as nat;
        lemma_sqrt_floor_bounds(m);
        let r = sqrt_floor(m);
        if (r + 1) * (r + 1) <= n {
            assert(sqrt_floor(n) == r + 1);
            assert(n <= (r + 1) * (r + 1));
            assert(n < (r + 2) * (r + 2)) by (nonlinear_arith)
                requires n <= (r + 1) * (r + 1);
            assert((sqrt_floor(n) + 1) * (sqrt_floor(n) + 1) == (r + 2) * (r + 2));
            assert(n < (sqrt_floor(n) + 1) * (sqrt_floor(n) + 1));
        } else {
            assert(sqrt_floor(n) == r);
            assert(n < (sqrt_floor(n) + 1) * (sqrt_floor(n) + 1));
        }
    }
}

/// Any natural number with the bracketing property equals `sqrt_floor(n)`.
pub proof fn lemma_sqrt_floor_unique(n: nat, r: nat)
    requires
        r * r <= n,
        n < (r + 1) * (r + 1),
    ensures
        r == sqrt_floor(n),
{
    let s = sqrt_floor(n);
    lemma_sqrt_floor_bounds(n);
    if r < s {
        assert((r + 1) * (r + 1) <= s * s) by (nonlinear_arith)
            requires r + 1 <= s;
    }
    if s < r {
        assert((s + 1) * (s + 1) <= r * r) by (nonlinear_arith)
            requires s + 1 <= r;
    }
}

/// Floor square root of a non-negative fixed-point quantity.
pub fn isqrt(n: i64) -> (r: i64)
    requires
        0 <= n <= ISQRT_MAX,
    ensures
        r == sqrt_floor(n as nat),
        0 <= r <= 4_472_135,
{
    let mut r: i64 = 0;
    loop
        invariant
            0 <= r <= 4_472_135,
            r * r <= n,
            0 <= n <= ISQRT_MAX,
        ensures
            r * r <= n < (r + 1) * (r + 1),
        decreases 4_472_136 - r,
    {
        let next: i64 = r + 1;
        proof {
            assert(next * next <= 20_000_000_402_496) by (nonlinear_arith)
                requires 1 <= next <= 4_472_136;
        }
        if next * next <= n {
            proof {
                assert(next <= 4_472_135) by (nonlinear_arith)
                    requires next * next <= 20_000_000_000_000 && next >= 1;
            }
            r = next;
        } else {
            break;
        }
    }
    proof {
        lemma_sqrt_floor_unique(n as nat, r as nat);
    }
    r
}

} // verus!
