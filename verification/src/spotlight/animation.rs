//! The opening animation: a linear run of the radius from its initial value
//! to the configured one.

use vstd::prelude::*;

verus! {

/// The integer nearest to `n / d`, for `d > 0`; a value halfway between two
/// integers goes to the one farther from zero.
pub open spec fn round_half_away(n: int, d: int) -> int
    recommends
        d > 0,
{
    if n >= 0 {
        (2 * n + d) / (2 * d)
    } else {
        -((d - 2 * n) / (2 * d))
    }
}

/// The radius drawn `elapsed` milliseconds into an animation that lasts
/// `duration` milliseconds: `initial - (initial - target) * elapsed / duration`
/// rounded to the nearest integer, and `target` from the end of the animation
/// on.  The fraction is exact: numerator and denominator are kept apart until
/// the rounding.
pub open spec fn interpolated_radius(
    initial: int,
    target: int,
    elapsed: nat,
    duration: nat,
) -> int {
    if elapsed >= duration {
        target
    } else {
        round_half_away(initial * duration - (initial - target) * elapsed, duration as int)
    }
}

/// Computes the radius to draw `elapsed` milliseconds into an animation of
/// `duration` milliseconds from `initial_radius` to `target_radius`.
pub fn interpolate_radius(
    initial_radius: i32,
    target_radius: i32,
    elapsed: u64,
    duration: u64,
) -> (radius: i32)
    ensures
        radius == interpolated_radius(
            initial_radius as int,
            target_radius as int,
            elapsed as nat,
            duration as nat,
        ),
{
    if elapsed >= duration {
        return target_radius;
    }
    let d: i128 = duration as i128;
    let e: i128 = elapsed as i128;
    let a: i128 = initial_radius as i128;
    let b: i128 = target_radius as i128;
    assert(-0x8000_0000 * 0x1_0000_0000_0000_0000 <= a * d <= 0x8000_0000 * 0x1_0000_0000_0000_0000)
        by (nonlinear_arith)
        requires
            -0x8000_0000 <= a <= 0x8000_0000,
            0 <= d <= 0x1_0000_0000_0000_0000,
    ;
    assert(-0x1_0000_0000 * 0x1_0000_0000_0000_0000 <= (a - b) * e <= 0x1_0000_0000
        * 0x1_0000_0000_0000_0000) by (nonlinear_arith)
        requires
            -0x1_0000_0000 <= a - b <= 0x1_0000_0000,
            0 <= e <= 0x1_0000_0000_0000_0000,
    ;
    let n: i128 = a * d - (a - b) * e;
    let q: i128 = if n >= 0 {
        (2 * n + d) / (2 * d)
    } else {
        -((d - 2 * n) / (2 * d))
    };
    proof {
        lemma_rounded_between(a as int, b as int, e as int, d as int);
    }
    q as i32
}

/// Rounding a weighted mean of two integers yields an integer between them.
proof fn lemma_rounded_between(a: int, b: int, e: int, d: int)
    requires
        0 <= e < d,
    ensures
        ({
            let r = round_half_away(a * d - (a - b) * e, d);
            (a <= r <= b) || (b <= r <= a)
        }),
{
    let n = a * d - (a - b) * e;
    let lo = if a <= b { a } else { b };
    let hi = if a <= b { b } else { a };
    assert(lo * d <= n <= hi * d) by (nonlinear_arith)
        requires
            n == a * d - (a - b) * e,
            0 <= e < d,
            lo == if a <= b { a } else { b },
            hi == if a <= b { b } else { a },
    ;
    if n >= 0 {
        assert(lo <= (2 * n + d) / (2 * d) <= hi) by (nonlinear_arith)
            requires
                lo * d <= n <= hi * d,
                n >= 0,
                d > 0,
        ;
    } else {
        assert(-hi <= (d - 2 * n) / (2 * d) <= -lo) by (nonlinear_arith)
            requires
                lo * d <= n <= hi * d,
                n < 0,
                d > 0,
        ;
    }
}

/// The rounded quotient is within half a unit of the exact one.
pub proof fn lemma_round_is_nearest(n: int, d: int)
    requires
        d > 0,
    ensures
        -d <= 2 * (round_half_away(n, d) * d - n) <= d,
{
    if n >= 0 {
        let q = (2 * n + d) / (2 * d);
        assert(-d <= 2 * (q * d - n) <= d) by (nonlinear_arith)
            requires
                q == (2 * n + d) / (2 * d),
                d > 0,
        ;
    } else {
        let q = (d - 2 * n) / (2 * d);
        assert(-d <= 2 * ((-q) * d - n) <= d) by (nonlinear_arith)
            requires
                q == (d - 2 * n) / (2 * d),
                d > 0,
        ;
    }
}

/// Rounding keeps the order of two quotients with the same denominator.
pub proof fn lemma_round_is_monotonic(m: int, n: int, d: int)
    requires
        d > 0,
        m <= n,
    ensures
        round_half_away(m, d) <= round_half_away(n, d),
{
    if m >= 0 {
        assert((2 * m + d) / (2 * d) <= (2 * n + d) / (2 * d)) by (nonlinear_arith)
            requires
                d > 0,
                m <= n,
        ;
    } else if n >= 0 {
        assert(0 <= (2 * n + d) / (2 * d)) by (nonlinear_arith)
            requires
                d > 0,
                n >= 0,
        ;
        assert(0 <= (d - 2 * m) / (2 * d)) by (nonlinear_arith)
            requires
                d > 0,
                m < 0,
        ;
    } else {
        assert((d - 2 * n) / (2 * d) <= (d - 2 * m) / (2 * d)) by (nonlinear_arith)
            requires
                d > 0,
                m <= n,
        ;
    }
}

/// At every moment the radius lies between the initial and the target one,
/// whichever of the two is larger.
pub proof fn lemma_interpolation_between(initial: int, target: int, elapsed: nat, duration: nat)
    ensures
        ({
            let radius = interpolated_radius(initial, target, elapsed, duration);
            (initial <= radius <= target) || (target <= radius <= initial)
        }),
{
    if elapsed < duration {
        lemma_rounded_between(initial, target, elapsed as int, duration as int);
    }
}

/// The animation begins at the initial radius and, from its end on, stays at
/// the target radius.
pub proof fn lemma_interpolation_endpoints(initial: int, target: int, elapsed: nat, duration: nat)
    ensures
        duration > 0 ==> interpolated_radius(initial, target, 0, duration) == initial,
        elapsed >= duration ==> interpolated_radius(initial, target, elapsed, duration) == target,
{
    if duration > 0 {
        let d = duration as int;
        let n = initial * d;
        if n >= 0 {
            assert((2 * n + d) / (2 * d) == initial) by (nonlinear_arith)
                requires
                    n == initial * d,
                    d > 0,
                    n >= 0,
            ;
        } else {
            assert((d - 2 * n) / (2 * d) == -initial) by (nonlinear_arith)
                requires
                    n == initial * d,
                    d > 0,
                    n < 0,
            ;
        }
    }
}

/// The radius is the integer nearest to the exact interpolated value.
pub proof fn lemma_interpolation_is_nearest(initial: int, target: int, elapsed: nat, duration: nat)
    requires
        elapsed < duration,
    ensures
        ({
            let radius = interpolated_radius(initial, target, elapsed, duration);
            let exact_times_duration = initial * duration - (initial - target) * elapsed;
            -duration <= 2 * (radius * duration - exact_times_duration) <= duration
        }),
{
    lemma_round_is_nearest(initial * duration - (initial - target) * elapsed, duration as int);
}

/// The radius never turns back: as time goes on it only moves from the
/// initial radius toward the target one.
pub proof fn lemma_interpolation_is_monotonic(
    initial: int,
    target: int,
    earlier: nat,
    later: nat,
    duration: nat,
)
    requires
        earlier <= later,
    ensures
        initial >= target ==> interpolated_radius(initial, target, earlier, duration)
            >= interpolated_radius(initial, target, later, duration),
        initial <= target ==> interpolated_radius(initial, target, earlier, duration)
            <= interpolated_radius(initial, target, later, duration),
{
    lemma_interpolation_between(initial, target, earlier, duration);
    lemma_interpolation_between(initial, target, later, duration);
    if later < duration {
        let d = duration as int;
        let m = initial * d - (initial - target) * earlier;
        let n = initial * d - (initial - target) * later;
        if initial >= target {
            assert(n <= m) by (nonlinear_arith)
                requires
                    m == initial * d - (initial - target) * earlier,
                    n == initial * d - (initial - target) * later,
                    earlier <= later,
                    initial >= target,
            ;
            lemma_round_is_monotonic(n, m, d);
        }
        if initial <= target {
            assert(m <= n) by (nonlinear_arith)
                requires
                    m == initial * d - (initial - target) * earlier,
                    n == initial * d - (initial - target) * later,
                    earlier <= later,
                    initial <= target,
            ;
            lemma_round_is_monotonic(m, n, d);
        }
    }
}

} // verus!
