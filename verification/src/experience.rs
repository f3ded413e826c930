//! Experience arithmetic: points per level, cumulative points to reach a
//! level, and the inverse (level and remaining points from a point total).

use vstd::prelude::*;

verus! {

/// An integer the configuration provides: a constant, or a uniform range
/// sampled at use.
#[derive(Clone, Copy, PartialEq, Eq, Structural, Debug)]
pub enum IntProvider {
    Constant(i32),
    Uniform { min_inclusive: i32, max_inclusive: i32 },
}

/// An experience reward as the configuration declares it.
#[derive(Clone, Copy, PartialEq, Eq, Structural, Debug)]
pub struct Experience {
    pub experience: IntProvider,
}

/// The number of points in a level.
pub open spec fn spec_points_in_level(level: int) -> int {
    if 0 <= level <= 15 {
        2 * level + 7
    } else if 16 <= level <= 30 {
        5 * level - 38
    } else {
        9 * level - 158
    }
}

/// The total number of points needed to reach a level.
pub open spec fn spec_points_to_level(level: int) -> int {
    if 0 <= level <= 16 {
        level * level + 6 * level
    } else if 17 <= level <= 31 {
        (5 * level * level - 81 * level + 720) / 2
    } else {
        (9 * level * level - 325 * level + 4440) / 2
    }
}

/// The middle-range threshold numerator is even.
proof fn lemma_quad_mid_even(l: int)
    ensures
        (5 * l * l - 81 * l + 720) % 2 == 0,
        (5 * l * l - 81 * l + 720) / 2 * 2 == 5 * l * l - 81 * l + 720,
{
    let k = l / 2;
    vstd::arithmetic::div_mod::lemma_fundamental_div_mod(l, 2);
    if l % 2 == 0 {
        assert(5 * l * l - 81 * l + 720 == 2 * (10 * k * k - 81 * k + 360)) by (nonlinear_arith)
            requires
                l == 2 * k,
        ;
        vstd::arithmetic::div_mod::lemma_mod_multiples_basic(10 * k * k - 81 * k + 360, 2);
    } else {
        assert(5 * l * l - 81 * l + 720 == 2 * (10 * k * k - 71 * k + 322)) by (nonlinear_arith)
            requires
                l == 2 * k + 1,
        ;
        vstd::arithmetic::div_mod::lemma_mod_multiples_basic(10 * k * k - 71 * k + 322, 2);
    }
    vstd::arithmetic::div_mod::lemma_fundamental_div_mod(5 * l * l - 81 * l + 720, 2);
}

/// The top-range threshold numerator is even.
proof fn lemma_quad_top_even(l: int)
    ensures
        (9 * l * l - 325 * l + 4440) % 2 == 0,
        (9 * l * l - 325 * l + 4440) / 2 * 2 == 9 * l * l - 325 * l + 4440,
{
    let k = l / 2;
    vstd::arithmetic::div_mod::lemma_fundamental_div_mod(l, 2);
    if l % 2 == 0 {
        assert(9 * l * l - 325 * l + 4440 == 2 * (18 * k * k - 325 * k + 2220)) by (nonlinear_arith)
            requires
                l == 2 * k,
        ;
        vstd::arithmetic::div_mod::lemma_mod_multiples_basic(18 * k * k - 325 * k + 2220, 2);
    } else {
        assert(9 * l * l - 325 * l + 4440 == 2 * (18 * k * k - 307 * k + 2062)) by (nonlinear_arith)
            requires
                l == 2 * k + 1,
        ;
        vstd::arithmetic::div_mod::lemma_mod_multiples_basic(18 * k * k - 307 * k + 2062, 2);
    }
    vstd::arithmetic::div_mod::lemma_fundamental_div_mod(9 * l * l - 325 * l + 4440, 2);
}

/// An even value at least `2t + 1` is at least `2t + 2`, so its half exceeds
/// `t`; a value at most `2t` has half at most `t`.
proof fn lemma_half_bounds(num: int, t: int)
    requires
        num % 2 == 0,
        num / 2 * 2 == num,
    ensures
        num <= 2 * t ==> num / 2 <= t,
        num >= 2 * t + 1 ==> num / 2 >= t + 1,
{
    if num <= 2 * t {
        vstd::arithmetic::div_mod::lemma_div_is_ordered(num, 2 * t, 2);
        vstd::arithmetic::div_mod::lemma_div_multiples_vanish(t, 2);
    }
    if num >= 2 * t + 1 {
        assert(num >= 2 * t + 2);
        vstd::arithmetic::div_mod::lemma_div_is_ordered(2 * (t + 1), num, 2);
        vstd::arithmetic::div_mod::lemma_div_multiples_vanish(t + 1, 2);
    }
}

/// Get the number of points in a level.
pub fn points_in_level(level: i32) -> (r: i32)
    requires
        -238609276 <= level <= 238609294,
    ensures
        r == spec_points_in_level(level as int),
{
    if 0 <= level && level <= 15 {
        2 * level + 7
    } else if 16 <= level && level <= 30 {
        5 * level - 38
    } else {
        9 * level - 158
    }
}

/// Calculate the total number of points to reach a level.
pub fn points_to_level(level: i32) -> (r: i32)
    requires
        -21827 <= level <= 21863,
    ensures
        r == spec_points_to_level(level as int),
{
    let l: i64 = level as i64;
    if 0 <= level && level <= 16 {
        proof {
            assert((l as int) * (l as int) + 6 * (l as int) <= 352) by (nonlinear_arith)
                requires
                    0 <= l as int <= 16,
            ;
            assert((l as int) * (l as int) >= 0) by (nonlinear_arith);
        }
        (l * l + 6 * l) as i32
    } else if 17 <= level && level <= 31 {
        proof {
            assert(0 < 5 * (l as int) * (l as int) - 81 * (l as int) + 720 <= 10000)
                by (nonlinear_arith)
                requires
                    17 <= l as int <= 31,
            ;
        }
        ((5 * l * l - 81 * l + 720) / 2) as i32
    } else {
        proof {
            assert(0 < 9 * (l as int) * (l as int) - 325 * (l as int) + 4440 <= 0xFFFF_FFFE)
                by (nonlinear_arith)
                requires
                    -21827 <= l as int <= 21863,
                    l as int <= -1 || l as int >= 32,
            ;
        }
        ((9 * l * l - 325 * l + 4440) / 2) as i32
    }
}

/// The integer square root: the largest value whose square does not exceed
/// the input; found by binary search.
pub fn isqrt_u64(n: u64) -> (r: u64)
    requires
        n <= 0x1_0000_0000_0000,
    ensures
        r * r <= n < (r + 1) * (r + 1),
        r <= 0x100_0000,
{
    let mut lo: u64 = 0;
    let mut hi: u64 = 0x100_0001;
    proof {
        assert(0x100_0001 * 0x100_0001 > 0x1_0000_0000_0000int) by (nonlinear_arith);
    }
    while lo + 1 < hi
        invariant
            lo < hi <= 0x100_0001,
            lo * lo <= n,
            n < hi * hi,
        decreases hi - lo,
    {
        let mid = lo + (hi - lo) / 2;
        proof {
            assert(lo < mid < hi);
            assert(mid * mid <= 0x100_0001 * 0x100_0001 < 0x2_0000_0000_0000) by (nonlinear_arith)
                requires
                    0 <= mid <= 0x100_0001,
            ;
        }
        if mid * mid <= n {
            lo = mid;
        } else {
            hi = mid;
        }
    }
    lo
}

/// Calculate level and points from total points: the level whose threshold
/// the total reaches but whose successor's it does not, and the points into
/// that level.
#[verifier::rlimit(60)]
pub fn total_to_level_and_points(total_points: i32) -> (r: (i32, i32))
    requires
        total_points >= 0,
    ensures
        0 <= r.0,
        spec_points_to_level(r.0 as int) <= total_points < spec_points_to_level(r.0 as int + 1),
        r.1 == total_points - spec_points_to_level(r.0 as int),
{
    let t: i64 = total_points as i64;
    let level: i32 = if total_points <= 352 {
        let s = isqrt_u64((t + 9) as u64);
        proof {
            let si = s as int;
            assert(3 <= si <= 19) by (nonlinear_arith)
                requires
                    si * si <= t as int + 9,
                    t as int + 9 < (si + 1) * (si + 1),
                    0 <= t as int <= 352,
                    si >= 0,
            ;
            let l = si - 3;
            assert(l * l + 6 * l == si * si - 9 && (l + 1) * (l + 1) + 6 * (l + 1) == (si + 1) * (
            si + 1) - 9) by (nonlinear_arith)
                requires
                    l == si - 3,
            ;
            assert(spec_points_to_level(l) <= t as int);
            if l + 1 <= 16 {
                assert(spec_points_to_level(l + 1) > t as int);
            } else {
                assert(l == 16);
                assert(spec_points_to_level(17) == (5 * 17 * 17 - 81 * 17 + 720) / 2);
            }
        }
        (s as i32) - 3
    } else if total_points <= 1507 {
        let s = isqrt_u64((40 * t - 7839) as u64);
        let level64 = (81 + s) / 10;
        proof {
            let si = s as int;
            assert(79 <= si <= 229) by (nonlinear_arith)
                requires
                    si * si <= 40 * (t as int) - 7839,
                    40 * (t as int) - 7839 < (si + 1) * (si + 1),
                    353 <= t as int <= 1507,
                    si >= 0,
            ;
            let l = (81 + si) / 10;
            vstd::arithmetic::div_mod::lemma_fundamental_div_mod(81 + si, 10);
            assert(16 <= l <= 31);
            assert(10 * l - 81 <= si && si <= 10 * l - 72);
            if l >= 17 {
                assert((10 * l - 81) * (10 * l - 81) == 100 * (l * l) - 1620 * l + 6561
                    && 20 * (5 * (l * l) - 81 * l + 720) == 100 * (l * l) - 1620 * l + 6561 + 7839)
                    by (nonlinear_arith);
                assert((10 * l - 81) * (10 * l - 81) <= si * si) by (nonlinear_arith)
                    requires
                        0 <= 10 * l - 81 <= si,
                ;
                assert(20 * (5 * (l * l) - 81 * l + 720) <= 40 * (t as int));
                assert(5 * (l * l) - 81 * l + 720 <= 2 * (t as int)) by (nonlinear_arith)
                    requires
                        20 * (5 * (l * l) - 81 * l + 720) <= 40 * (t as int),
                ;
                assert(5 * (l * l) - 81 * l + 720 == 5 * l * l - 81 * l + 720)
                    by (nonlinear_arith);
                lemma_quad_mid_even(l);
                lemma_half_bounds(5 * l * l - 81 * l + 720, t as int);
                assert(spec_points_to_level(l) == (5 * l * l - 81 * l + 720) / 2);
                assert(spec_points_to_level(l) <= t as int);
            } else {
                assert(spec_points_to_level(16) == 16 * 16 + 6 * 16);
            }
            if l <= 30 {
                let lp = l + 1;
                assert((10 * lp - 81) * (10 * lp - 81) == 100 * (lp * lp) - 1620 * lp + 6561 && 20
                    * (5 * (lp * lp) - 81 * lp + 720) == 100 * (lp * lp) - 1620 * lp + 6561 + 7839)
                    by (nonlinear_arith);
                assert((si + 1) * (si + 1) <= (10 * lp - 81) * (10 * lp - 81)) by (nonlinear_arith)
                    requires
                        0 <= si + 1 <= 10 * lp - 81,
                ;
                assert(20 * (5 * (lp * lp) - 81 * lp + 720) >= 40 * (t as int) + 1);
                assert(5 * (lp * lp) - 81 * lp + 720 >= 2 * (t as int) + 1) by (nonlinear_arith)
                    requires
                        20 * (5 * (lp * lp) - 81 * lp + 720) >= 40 * (t as int) + 1,
                ;
                assert(5 * (lp * lp) - 81 * lp + 720 == 5 * lp * lp - 81 * lp + 720)
                    by (nonlinear_arith);
                lemma_quad_mid_even(lp);
                lemma_half_bounds(5 * lp * lp - 81 * lp + 720, t as int);
                assert(spec_points_to_level(lp) == (5 * lp * lp - 81 * lp + 720) / 2);
                assert(spec_points_to_level(lp) > t as int);
            } else {
                assert(l == 31);
                assert(spec_points_to_level(32) == (9 * 32 * 32 - 325 * 32 + 4440) / 2);
            }
        }
        level64 as i32
    } else {
        let s = isqrt_u64((72 * t - 54215) as u64);
        let level64 = (325 + s) / 18;
        proof {
            let si = s as int;
            assert(233 <= si && si * si <= 72 * (t as int)) by (nonlinear_arith)
                requires
                    si * si <= 72 * (t as int) - 54215,
                    72 * (t as int) - 54215 < (si + 1) * (si + 1),
                    1508 <= t as int,
                    si >= 0,
            ;
            let l = (325 + si) / 18;
            vstd::arithmetic::div_mod::lemma_fundamental_div_mod(325 + si, 18);
            assert(31 <= l <= 0x1000_0000);
            assert(18 * l - 325 <= si && si <= 18 * l - 308);
            if l >= 32 {
                assert((18 * l - 325) * (18 * l - 325) == 324 * (l * l) - 11700 * l + 105625 && 36
                    * (9 * (l * l) - 325 * l + 4440) == 324 * (l * l) - 11700 * l + 105625 + 54215)
                    by (nonlinear_arith);
                assert((18 * l - 325) * (18 * l - 325) <= si * si) by (nonlinear_arith)
                    requires
                        0 <= 18 * l - 325 <= si,
                ;
                assert(36 * (9 * (l * l) - 325 * l + 4440) <= 72 * (t as int));
                assert(9 * (l * l) - 325 * l + 4440 <= 2 * (t as int)) by (nonlinear_arith)
                    requires
                        36 * (9 * (l * l) - 325 * l + 4440) <= 72 * (t as int),
                ;
                assert(9 * (l * l) - 325 * l + 4440 == 9 * l * l - 325 * l + 4440)
                    by (nonlinear_arith);
                lemma_quad_top_even(l);
                lemma_half_bounds(9 * l * l - 325 * l + 4440, t as int);
                assert(spec_points_to_level(l) == (9 * l * l - 325 * l + 4440) / 2);
                assert(spec_points_to_level(l) <= t as int);
            } else {
                assert(l == 31);
                assert(spec_points_to_level(31) == (5 * 31 * 31 - 81 * 31 + 720) / 2);
            }
            let lp = l + 1;
            assert((18 * lp - 325) * (18 * lp - 325) == 324 * (lp * lp) - 11700 * lp + 105625 && 36
                * (9 * (lp * lp) - 325 * lp + 4440) == 324 * (lp * lp) - 11700 * lp + 105625
                + 54215) by (nonlinear_arith);
            assert((si + 1) * (si + 1) <= (18 * lp - 325) * (18 * lp - 325)) by (nonlinear_arith)
                requires
                    0 <= si + 1 <= 18 * lp - 325,
            ;
            assert(36 * (9 * (lp * lp) - 325 * lp + 4440) >= 72 * (t as int) + 1);
            assert(9 * (lp * lp) - 325 * lp + 4440 >= 2 * (t as int) + 1) by (nonlinear_arith)
                requires
                    36 * (9 * (lp * lp) - 325 * lp + 4440) >= 72 * (t as int) + 1,
            ;
            assert(9 * (lp * lp) - 325 * lp + 4440 == 9 * lp * lp - 325 * lp + 4440)
                by (nonlinear_arith);
            lemma_quad_top_even(lp);
            lemma_half_bounds(9 * lp * lp - 325 * lp + 4440, t as int);
            assert(spec_points_to_level(lp) == (9 * lp * lp - 325 * lp + 4440) / 2);
            assert(spec_points_to_level(lp) > t as int);
            assert(l <= 21863) by (nonlinear_arith)
                requires
                    36 * (9 * (l * l) - 325 * l + 4440) <= 72 * (t as int) || l <= 31,
                    t as int <= 0x7FFF_FFFF,
                    31 <= l,
            ;
        }
        level64 as i32
    };
    proof {
        assert(0 <= spec_points_to_level(level as int) <= total_points);
    }
    let level_start: i32 = points_to_level(level);
    (level, total_points - level_start)
}

} // verus!
