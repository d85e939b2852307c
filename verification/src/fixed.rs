//! Fixed-point representation and the integer arithmetic the simulation uses.

use vstd::arithmetic::div_mod::{
    lemma_basic_div, lemma_div_by_multiple, lemma_div_is_ordered, lemma_div_nonincreasing,
    lemma_div_pos_is_pos,
};
use vstd::prelude::*;

verus! {

/// Fixed-point units per physical unit: every quantity (metres, metres per
/// second, ...) is stored as an `i64` counting millionths of the unit.
pub const SCALE: i64 = 1_000_000;

/// Gravitational acceleration, 9.81 m/s^2, in fixed-point units.
pub const GRAVITY: i64 = 9_810_000;

/// Muzzle speed imparted at launch, 850 m/s, in fixed-point units.
pub const MUZZLE_VELOCITY: i64 = 850_000_000;

/// Largest magnitude of a velocity or wind component (2 000 m/s).
pub const VEL_LIMIT: i64 = 2_000_000_000;

/// Largest magnitude of a position component (4 * 10^9 m).
pub const POS_LIMIT: i64 = 4_000_000_000_000_000;

/// Largest speed the drag model accepts; above the largest speed a velocity
/// within `VEL_LIMIT` per component can reach.
pub const SPEED_LIMIT: i64 = 3_500_000_000;

/// Largest caliber (10 m).
pub const CALIBER_LIMIT: i64 = 10_000_000;

/// Largest ballistic coefficient (1 000).
pub const BC_LIMIT: i64 = 1_000_000_000;

/// Largest time step (10 s).
pub const DT_LIMIT: i64 = 10_000_000;

/// Largest drag deceleration magnitude a step will integrate (10^12 m/s^2);
/// a step whose drag exceeds it reports an out-of-range result instead.
pub const DRAG_LIMIT: i128 = 1_000_000_000_000_000_000;

/// Quotient of `a` by `d`, rounded toward zero; the rounding used by every
/// division the integrator performs.
pub open spec fn div_towards_zero(a: int, d: int) -> int {
    if a >= 0 {
        a / d
    } else {
        -((-a) / d)
    }
}

/// Quotient of `a` by `d`, rounded up; defined for `a >= 0` and `d > 0`.
pub open spec fn div_rounded_up(a: int, d: int) -> int {
    (a + d - 1) / d
}

/// `r` is the integer square root of `n`.
pub open spec fn is_sqrt(n: int, r: int) -> bool {
    0 <= r && r * r <= n && n < (r + 1) * (r + 1)
}

/// The integer square root of `n`, by counting up.
pub open spec fn sqrt_floor(n: nat) -> nat
    decreases n,
{
    if n == 0 {
        0
    } else {
        let r = sqrt_floor((n - 1) as nat);
        if (r + 1) * (r + 1) <= n {
            r + 1
        } else {
            r
        }
    }
}

/// `sqrt_floor` satisfies the square-root characterization.
pub proof fn lemma_sqrt_floor_is_sqrt(n: nat)
    ensures
        is_sqrt(n as int, sqrt_floor(n) as int),
    decreases n,
{
    if n > 0 {
        lemma_sqrt_floor_is_sqrt((n - 1) as nat);
        let r = sqrt_floor((n - 1) as nat);
        if (r + 1) * (r + 1) <= n {
            assert((r + 1) * (r + 1) < (r + 2) * (r + 2)) by (nonlinear_arith)
                requires
                    r >= 0,
            ;
        }
    }
}

/// The integer square root is unique.
pub proof fn lemma_sqrt_unique(n: int, a: int, b: int)
    requires
        is_sqrt(n, a),
        is_sqrt(n, b),
    ensures
        a == b,
{
    if a < b {
        assert((a + 1) * (a + 1) <= b * b) by (nonlinear_arith)
            requires
                0 <= a,
                a < b,
        ;
    }
    if b < a {
        assert((b + 1) * (b + 1) <= a * a) by (nonlinear_arith)
            requires
                0 <= b,
                b < a,
        ;
    }
}

/// Integer square root by binary search.
pub fn sqrt_u64(n: u64) -> (r: u64)
    ensures
        r == sqrt_floor(n as nat),
        is_sqrt(n as int, r as int),
{
    proof {
        lemma_sqrt_floor_is_sqrt(n as nat);
    }
    let mut lo: u64 = 0;
    let mut hi: u64 = 4_294_967_296;
    assert(n < 4_294_967_296int * 4_294_967_296int);
    while lo + 1 < hi
        invariant
            lo < hi,
            hi <= 4_294_967_296,
            (lo as int) * (lo as int) <= n as int,
            (n as int) < (hi as int) * (hi as int),
        decreases hi - lo,
    {
        let mid = lo + (hi - lo) / 2;
        assert((mid as int) * (mid as int) <= 4_294_967_296int * 4_294_967_296int)
            by (nonlinear_arith)
            requires
                0 <= mid <= 4_294_967_296,
        ;
        let sq = (mid as u128) * (mid as u128);
        if sq <= n as u128 {
            lo = mid;
        } else {
            hi = mid;
        }
    }
    proof {
        lemma_sqrt_unique(n as int, lo as int, sqrt_floor(n as nat) as int);
    }
    lo
}

/// Division of a signed value by a positive divisor, rounding toward zero.
pub fn div_i128(a: i128, d: i128) -> (q: i128)
    requires
        d > 0,
        a > i128::MIN,
    ensures
        q == div_towards_zero(a as int, d as int),
{
    if a >= 0 {
        proof {
            lemma_div_pos_is_pos(a as int, d as int);
            lemma_div_nonincreasing(a as int, d as int);
        }
        ((a as u128) / (d as u128)) as i128
    } else {
        let m = -a;
        proof {
            lemma_div_pos_is_pos(m as int, d as int);
            lemma_div_nonincreasing(m as int, d as int);
        }
        -(((m as u128) / (d as u128)) as i128)
    }
}

/// The quotient toward zero is no larger in magnitude than the dividend,
/// for a divisor of at least one.
pub proof fn lemma_div_towards_zero_abs(a: int, d: int, abound: int)
    requires
        d > 0,
        -abound <= a <= abound,
    ensures
        -abound <= div_towards_zero(a, d) <= abound,
{
    if a >= 0 {
        lemma_div_pos_is_pos(a, d);
        lemma_div_nonincreasing(a, d);
    } else {
        lemma_div_pos_is_pos(-a, d);
        lemma_div_nonincreasing(-a, d);
    }
}

/// A dividend within `bound * d` has its quotient toward zero within `bound`.
pub proof fn lemma_div_towards_zero_bound(a: int, d: int, bound: int)
    requires
        d > 0,
        0 <= bound,
        -(bound * d) <= a <= bound * d,
    ensures
        -bound <= div_towards_zero(a, d) <= bound,
{
    lemma_div_by_multiple(bound, d);
    if a >= 0 {
        lemma_div_pos_is_pos(a, d);
        lemma_div_is_ordered(a, bound * d, d);
    } else {
        lemma_div_pos_is_pos(-a, d);
        lemma_div_is_ordered(-a, bound * d, d);
    }
}

/// Negating the dividend negates the quotient toward zero.
pub proof fn lemma_div_towards_zero_neg(a: int, d: int)
    requires
        d > 0,
    ensures
        div_towards_zero(-a, d) == -div_towards_zero(a, d),
{
    if a == 0 {
        lemma_basic_div(0, d);
    }
}

} // verus!
