//! Fixed-point planar geometry for the simulation.
//!
//! All lengths are measured in milli-pixels: one pixel is `SCALE` units.
//! A direction vector is held at the same scale, so a unit vector has a
//! squared magnitude close to `UNIT_SQ`.

use vstd::prelude::*;

verus! {

/// Milli-pixels per pixel; also the magnitude of a unit direction component.
pub const SCALE: i64 = 1000;

/// Squared magnitude of an exactly unit-length direction vector.
pub const UNIT_SQ: i64 = 1_000_000;

/// Allowed deviation of a direction's squared magnitude from `UNIT_SQ`.
pub const UNIT_TOL: i64 = 10_000;

/// A point or direction in the plane, in milli-pixel units.
#[derive(Clone, Copy, PartialEq, Eq, Structural, Debug)]
pub struct Vec2 {
    pub x: i64,
    pub y: i64,
}

/// Squared magnitude of a vector.
pub open spec fn norm_sq(v: Vec2) -> int {
    v.x * v.x + v.y * v.y
}

/// A direction counts as unit length when its squared magnitude lies
/// within `UNIT_TOL` of `UNIT_SQ`.
pub open spec fn is_unit(v: Vec2) -> bool {
    UNIT_SQ - UNIT_TOL <= norm_sq(v) <= UNIT_SQ + UNIT_TOL
}

/// Integer square root by bisection: the greatest `r` with `r * r <= n`.
pub fn isqrt(n: u64) -> (r: u64)
    requires
        n <= 4_000_000_000_000,
    ensures
        r * r <= n < (r + 1) * (r + 1),
{
    let mut lo: u64 = 0;
    let mut hi: u64 = 2_000_001;
    proof {
        assert((2_000_001int) * (2_000_001int) > 4_000_000_000_000) by (nonlinear_arith);
    }
    while lo + 1 < hi
        invariant
            lo < hi <= 2_000_001,
            lo * lo <= n,
            n < hi * hi,
        decreases hi - lo,
    {
        let mid: u64 = lo + (hi - lo) / 2;
        proof {
            assert(mid * mid <= 4_000_004_000_001) by (nonlinear_arith)
                requires
                    mid <= 2_000_001,
            ;
        }
        if mid * mid <= n {
            lo = mid;
        } else {
            hi = mid;
        }
    }
    lo
}

/// The scaled components are no longer than the root of their squared sum.
proof fn lemma_component_le_root(a: int, n: int, s: int)
    by (nonlinear_arith)
    requires
        0 <= a,
        0 <= s,
        a * a <= n,
        n < (s + 1) * (s + 1),
    ensures
        a <= s,
{
}

/// A root of a value of at least 10^10 is at least 10^5.
proof fn lemma_root_lower_bound(n: int, s: int)
    by (nonlinear_arith)
    requires
        0 <= s,
        10_000_000_000 <= n,
        n < (s + 1) * (s + 1),
    ensures
        100_000 <= s,
{
}

/// Each quotient of the normalization stays within the unit component bound.
proof fn lemma_quotient_bound(a: int, s: int, q: int, r: int)
    by (nonlinear_arith)
    requires
        0 <= a <= s,
        1 <= s,
        0 <= q,
        0 <= r,
        a * 1000 == s * q + r,
    ensures
        q <= 1000,
{
}

/// Upper bound on the squared magnitude of the normalized pair.
proof fn lemma_norm_upper(a: int, b: int, n: int, s: int, qa: int, ra: int, qb: int, rb: int)
    by (nonlinear_arith)
    requires
        0 <= a,
        0 <= b,
        100_000 <= s,
        n == a * a + b * b,
        n < (s + 1) * (s + 1),
        a * 1000 == s * qa + ra,
        b * 1000 == s * qb + rb,
        0 <= ra,
        0 <= rb,
        0 <= qa,
        0 <= qb,
    ensures
        qa * qa + qb * qb <= 1_000_020,
{
    assert((s * qa) * (s * qa) <= (a * 1000) * (a * 1000));
    assert((s * qb) * (s * qb) <= (b * 1000) * (b * 1000));
    assert((s * s) * (qa * qa + qb * qb) <= 1_000_000 * n);
    assert(1_000_000 * n <= 1_000_000 * (s * s) + 2_000_000 * s);
    assert(2_000_000 * s <= 20 * (s * s));
}

/// Lower bound on the squared magnitude of the normalized pair.
proof fn lemma_norm_lower(a: int, b: int, n: int, s: int, qa: int, ra: int, qb: int, rb: int)
    by (nonlinear_arith)
    requires
        0 <= a,
        0 <= b,
        100_000 <= s,
        n == a * a + b * b,
        s * s <= n,
        a * 1000 == s * qa + ra,
        b * 1000 == s * qb + rb,
        0 <= ra < s,
        0 <= rb < s,
        0 <= qa <= 1000,
        0 <= qb <= 1000,
    ensures
        qa * qa + qb * qb >= 995_000,
{
    assert(s * (qa + 1) >= a * 1000);
    assert(s * (qb + 1) >= b * 1000);
    assert((s * (qa + 1)) * (s * (qa + 1)) >= (a * 1000) * (a * 1000));
    assert((s * (qb + 1)) * (s * (qb + 1)) >= (b * 1000) * (b * 1000));
    assert((s * s) * ((qa + 1) * (qa + 1) + (qb + 1) * (qb + 1)) >= 1_000_000 * n);
}

/// The normalized pair keeps the proportions of the input pair, up to rounding.
proof fn lemma_cross_bound(
    ax: int,
    ay: int,
    a: int,
    b: int,
    s: int,
    qa: int,
    ra: int,
    qb: int,
    rb: int,
)
    by (nonlinear_arith)
    requires
        1 <= s,
        0 <= ax <= 1000,
        0 <= ay <= 1000,
        a == ax * 1000,
        b == ay * 1000,
        a * 1000 == s * qa + ra,
        b * 1000 == s * qb + rb,
        0 <= ra < s,
        0 <= rb < s,
    ensures
        -999 <= qa * ay - qb * ax <= 999,
{
    assert(s * (qa * b - qb * a) == rb * a - ra * b);
    assert(rb * a < s * 1_000_000);
    assert(ra * b < s * 1_000_000);
    assert(qa * b - qb * a == 1000 * (qa * ay - qb * ax));
}

/// Rescales a pair of raw components to a unit direction that keeps their
/// signs and, up to rounding, their proportions.
///
/// The raw components are milli-scaled samples in `[-1000, 1000]`; the pair
/// must not be degenerately short, so that normalization is meaningful.
pub fn direction_from_raw(rx: i64, ry: i64) -> (d: Vec2)
    requires
        -1000 <= rx <= 1000,
        -1000 <= ry <= 1000,
        rx * rx + ry * ry >= 10_000,
    ensures
        is_unit(d),
        rx >= 0 ==> d.x >= 0,
        rx <= 0 ==> d.x <= 0,
        ry >= 0 ==> d.y >= 0,
        ry <= 0 ==> d.y <= 0,
        -1000 <= d.x * ry - d.y * rx <= 1000,
        -1000 <= d.x <= 1000,
        -1000 <= d.y <= 1000,
{
    let ax: u64 = if rx >= 0 { rx as u64 } else { (-rx) as u64 };
    let ay: u64 = if ry >= 0 { ry as u64 } else { (-ry) as u64 };
    proof {
        assert(ax * ax == rx * rx && ay * ay == ry * ry) by (nonlinear_arith)
            requires
                (rx >= 0 ==> ax == rx) && (rx < 0 ==> ax == -rx) && (ry >= 0 ==> ay == ry) && (
                ry < 0 ==> ay == -ry),
        ;
    }
    let a: u64 = ax * 1000;
    let b: u64 = ay * 1000;
    proof {
        assert(a * a + b * b <= 2_000_000_000_000 && a * a + b * b == 1_000_000 * (ax * ax + ay
            * ay)) by (nonlinear_arith)
            requires
                a == ax * 1000 && b == ay * 1000 && ax <= 1000 && ay <= 1000,
        ;
    }
    let n: u64 = a * a + b * b;
    let s: u64 = isqrt(n);
    proof {
        lemma_root_lower_bound(n as int, s as int);
        lemma_component_le_root(a as int, n as int, s as int);
        lemma_component_le_root(b as int, n as int, s as int);
    }
    let ux: u64 = (a * 1000) / s;
    let uy: u64 = (b * 1000) / s;
    proof {
        vstd::arithmetic::div_mod::lemma_fundamental_div_mod((a * 1000) as int, s as int);
        vstd::arithmetic::div_mod::lemma_fundamental_div_mod((b * 1000) as int, s as int);
        vstd::arithmetic::div_mod::lemma_mod_bound((a * 1000) as int, s as int);
        vstd::arithmetic::div_mod::lemma_mod_bound((b * 1000) as int, s as int);
        let ra = ((a * 1000) as int) % (s as int);
        let rb = ((b * 1000) as int) % (s as int);
        lemma_quotient_bound(a as int, s as int, ux as int, ra);
        lemma_quotient_bound(b as int, s as int, uy as int, rb);
        lemma_norm_upper(a as int, b as int, n as int, s as int, ux as int, ra, uy as int, rb);
        lemma_norm_lower(a as int, b as int, n as int, s as int, ux as int, ra, uy as int, rb);
        lemma_cross_bound(
            ax as int,
            ay as int,
            a as int,
            b as int,
            s as int,
            ux as int,
            ra,
            uy as int,
            rb,
        );
    }
    let dx: i64 = if rx >= 0 {
        ux as i64
    } else {
        -(ux as i64)
    };
    let dy: i64 = if ry >= 0 {
        uy as i64
    } else {
        -(uy as i64)
    };
    let d = Vec2 { x: dx, y: dy };
    proof {
        assert(d.x * d.x == ux * ux && d.y * d.y == uy * uy) by (nonlinear_arith)
            requires
                (d.x == ux || d.x == -(ux as int)) && (d.y == uy || d.y == -(uy as int)),
        ;
        assert(-1000 <= d.x * ry - d.y * rx <= 1000) by (nonlinear_arith)
            requires
                -999 <= ux * ay - uy * ax <= 999,
                ux <= 1000,
                uy <= 1000,
                (rx >= 0 ==> d.x == ux && rx == ax) && (rx < 0 ==> d.x == -(ux as int) && rx == -(
                ax as int)),
                (ry >= 0 ==> d.y == uy && ry == ay) && (ry < 0 ==> d.y == -(uy as int) && ry == -(
                ay as int)),
        ;
    }
    d
}

} // verus!
