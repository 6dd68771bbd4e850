//! Fixed-point units and the integer arithmetic the simulation rests on.
//!
//! | quantity            | unit                          | type  |
//! |---------------------|-------------------------------|-------|
//! | time                | microsecond                   | `u64` |
//! | length, coordinate  | thousandth of a pixel         | `i32` |
//! | speed               | pixel per second              | `u32` |
//! | velocity component  | thousandth of a pixel / s     | `i32` |
//! | health, damage      | thousandth of a hit point     | `i64` |
//! | damage rate         | thousandth of a hit point / s | `i64` |
//! | rates and shares    | thousandth or millionth, as   | `u32`,|
//! |                     | each item says                | `u64` |
//!
//! Every operation is total: a result that would leave its type is brought
//! back to the nearest value the type holds, and the contracts say so.

use vstd::prelude::*;

verus! {

/// Thousandths in one whole (pixel, hit point, shot).
pub const MILLI: u64 = 1000;

/// Microseconds in one second.
pub const MICROS_PER_SECOND: u64 = 1_000_000;

/// `v` brought into `lo..=hi`.
pub open spec fn clamp(v: int, lo: int, hi: int) -> int {
    if v < lo {
        lo
    } else if v > hi {
        hi
    } else {
        v
    }
}

/// `v` brought into the range of `i32`.
pub open spec fn clamp_i32(v: int) -> int {
    clamp(v, i32::MIN as int, i32::MAX as int)
}

/// `v` brought into the range of `i64`.
pub open spec fn clamp_i64(v: int) -> int {
    clamp(v, i64::MIN as int, i64::MAX as int)
}

/// `v` brought into the range of `u64`.
pub open spec fn clamp_u64(v: int) -> int {
    clamp(v, 0, u64::MAX as int)
}

/// The magnitude of `v`.
pub open spec fn abs(v: int) -> nat {
    if v < 0 {
        (-v) as nat
    } else {
        v as nat
    }
}

/// `n / d` rounded toward zero, for a positive divisor.
pub open spec fn div_toward_zero(n: int, d: int) -> int {
    if n >= 0 {
        n / d
    } else {
        -((-n) / d)
    }
}

/// `v` brought into the range of `i32`.
pub fn clamp_to_i32(v: i128) -> (r: i32)
    ensures
        r == clamp_i32(v as int),
{
    if v < i32::MIN as i128 {
        i32::MIN
    } else if v > i32::MAX as i128 {
        i32::MAX
    } else {
        v as i32
    }
}

/// `v` brought into the range of `i64`.
pub fn clamp_to_i64(v: i128) -> (r: i64)
    ensures
        r == clamp_i64(v as int),
{
    if v < i64::MIN as i128 {
        i64::MIN
    } else if v > i64::MAX as i128 {
        i64::MAX
    } else {
        v as i64
    }
}

/// `v` brought into the range of `u64`.
pub fn clamp_to_u64(v: u128) -> (r: u64)
    ensures
        r == clamp_u64(v as int),
{
    if v > u64::MAX as u128 {
        u64::MAX
    } else {
        v as u64
    }
}

/// The magnitude of `v`.
pub fn magnitude(v: i64) -> (r: u64)
    ensures
        r == abs(v as int),
{
    if v < 0 {
        (-(v as i128)) as u64
    } else {
        v as u64
    }
}

/// `n / d` rounded toward zero.
pub fn divide_toward_zero(n: i128, d: u64) -> (r: i128)
    requires
        d > 0,
        n > i128::MIN,
    ensures
        r == div_toward_zero(n as int, d as int),
{
    if n >= 0 {
        ((n as u128) / (d as u128)) as i128
    } else {
        let m: u128 = (-n) as u128;
        -((m / (d as u128)) as i128)
    }
}

/// The product of two `u64` fits `u128`.
pub proof fn lemma_product_fits(a: u64, b: u64)
    ensures
        0 <= a * b <= u128::MAX,
        a * b <= 0xffff_ffff_ffff_ffff * 0xffff_ffff_ffff_ffff,
{
    assert(0 <= a * b <= 0xffff_ffff_ffff_ffff * 0xffff_ffff_ffff_ffff) by (nonlinear_arith)
        requires
            0 <= a <= 0xffff_ffff_ffff_ffff,
            0 <= b <= 0xffff_ffff_ffff_ffff,
    ;
}

/// Whether `r` is the integer square root of `n`.
pub open spec fn is_isqrt(n: nat, r: nat) -> bool {
    r * r <= n < (r + 1) * (r + 1)
}

/// The integer square root of `n`: the largest `r` with `r * r <= n`.
pub open spec fn isqrt(n: nat) -> nat {
    choose|r: nat| is_isqrt(n, r)
}

/// Squaring is monotone on the naturals.
pub proof fn lemma_square_monotone(a: nat, b: nat)
    requires
        a <= b,
    ensures
        a * a <= b * b,
{
    assert(a * a <= b * b) by (nonlinear_arith)
        requires
            a <= b,
    ;
}

/// No number has two integer square roots.
pub proof fn lemma_isqrt_unique(n: nat, r: nat, s: nat)
    requires
        is_isqrt(n, r),
        is_isqrt(n, s),
    ensures
        r == s,
{
    if r < s {
        lemma_square_monotone(r + 1, s);
    } else if s < r {
        lemma_square_monotone(s + 1, r);
    }
}

/// A number with the defining bounds is the integer square root.
pub proof fn lemma_isqrt_is(n: nat, r: nat)
    requires
        is_isqrt(n, r),
    ensures
        isqrt(n) == r,
{
    lemma_isqrt_unique(n, r, isqrt(n));
}

/// Every number has an integer square root, and `isqrt` is it.
pub proof fn lemma_isqrt_exists(n: nat)
    ensures
        is_isqrt(n, isqrt(n)),
    decreases n,
{
    if n == 0 {
        assert(0nat * 0nat == 0 && (0nat + 1) * (0nat + 1) == 1) by (nonlinear_arith);
        assert(is_isqrt(0, 0));
    } else {
        lemma_isqrt_exists((n - 1) as nat);
        let r = isqrt((n - 1) as nat);
        if (r + 1) * (r + 1) <= n {
            assert((r + 2) * (r + 2) > (r + 1) * (r + 1)) by (nonlinear_arith);
            assert(is_isqrt(n, r + 1));
        } else {
            assert(is_isqrt(n, r));
        }
    }
}

/// The integer square root of `n`.
pub fn int_sqrt(n: u128) -> (r: u64)
    ensures
        r == isqrt(n as nat),
{
    let mut lo: u128 = 0;
    let mut hi: u128 = 0x1_0000_0000_0000_0000;
    while hi - lo > 1
        invariant
            lo < hi <= 0x1_0000_0000_0000_0000,
            lo * lo <= n,
            hi == 0x1_0000_0000_0000_0000 || n < hi * hi,
        decreases hi - lo,
    {
        let mid: u128 = lo + (hi - lo) / 2;
        assert(mid * mid < 0x1_0000_0000_0000_0000 * 0x1_0000_0000_0000_0000) by (nonlinear_arith)
            requires
                mid < 0x1_0000_0000_0000_0000,
        ;
        if mid * mid <= n {
            lo = mid;
        } else {
            hi = mid;
        }
    }
    proof {
        if hi == 0x1_0000_0000_0000_0000 {
            assert(n < hi * hi) by (nonlinear_arith)
                requires
                    hi == 0x1_0000_0000_0000_0000,
                    n <= u128::MAX,
            ;
        }
        assert(hi == lo + 1);
        lemma_isqrt_is(n as nat, lo as nat);
    }
    lo as u64
}

/// A point or an offset of the playfield, in thousandths of a pixel.
#[derive(Debug, Clone, Copy, PartialEq, Eq, Structural)]
pub struct Vec2 {
    pub x: i32,
    pub y: i32,
}

/// One component of an offset of length `len`, rescaled to length `mag`
/// and rounded toward zero; nothing when the offset has no length.
pub open spec fn scale_component(d: int, mag: nat, len: nat) -> int {
    if len == 0 {
        0
    } else {
        div_toward_zero(d * mag, len as int)
    }
}

/// Length of the offset `(dx, dy)`, rounded down.
pub open spec fn offset_len(dx: int, dy: int) -> nat {
    isqrt((dx * dx + dy * dy) as nat)
}

/// The step beyond which a longer step carries no further: from it on,
/// every coordinate that moves at all moves to the edge of its range.
pub const STEP_LIMIT: u128 = 0x400_0000_0000_0000_0000_0000;

/// The length of an offset between two points is at most `2^33`, and at
/// least one unless the offset is null.
pub proof fn lemma_offset_len_bounds(dx: int, dy: int)
    requires
        abs(dx) <= 0x1_0000_0000,
        abs(dy) <= 0x1_0000_0000,
    ensures
        offset_len(dx, dy) <= 0x2_0000_0000,
        dx != 0 || dy != 0 ==> offset_len(dx, dy) >= 1,
{
    let n = (dx * dx + dy * dy) as nat;
    let r = offset_len(dx, dy);
    lemma_isqrt_exists(n);
    assert(0 <= dx * dx <= 0x1_0000_0000 * 0x1_0000_0000 && 0 <= dy * dy <= 0x1_0000_0000
        * 0x1_0000_0000) by (nonlinear_arith)
        requires
            abs(dx) <= 0x1_0000_0000,
            abs(dy) <= 0x1_0000_0000,
    ;
    if r > 0x2_0000_0000 {
        lemma_square_monotone(0x2_0000_0001, r);
        assert(0x2_0000_0001nat * 0x2_0000_0001nat > 0x2_0000_0000_0000_0000) by (nonlinear_arith);
    }
    if dx != 0 || dy != 0 {
        assert(dx * dx + dy * dy >= 1) by (nonlinear_arith)
            requires
                dx != 0 || dy != 0,
        ;
        if r == 0 {
            assert((0nat + 1) * (0nat + 1) == 1) by (nonlinear_arith);
        }
    }
}

/// Beyond the step limit a longer step moves a coordinate no further.
pub proof fn lemma_long_step(x: i32, d: int, len: nat, step: nat)
    requires
        abs(d) <= 0x1_0000_0000,
        len <= 0x2_0000_0000,
        d != 0 ==> len >= 1,
        step >= STEP_LIMIT,
    ensures
        clamp_i32(x + scale_component(d, step, len)) == clamp_i32(
            x + scale_component(d, STEP_LIMIT as nat, len),
        ),
{
    let st: int = step as int;
    let limit: int = STEP_LIMIT as int;
    let ln: int = len as int;
    if d != 0 {
        let m: int = abs(d) as int;
        assert(m * st >= ln * 0x4_0000_0000 && m * limit >= ln * 0x4_0000_0000) by (nonlinear_arith)
            requires
                m >= 1,
                st >= 0x400_0000_0000_0000_0000_0000,
                limit == 0x400_0000_0000_0000_0000_0000,
                0 <= ln <= 0x2_0000_0000,
        ;
        assert((m * st) / ln >= 0x4_0000_0000) by (nonlinear_arith)
            requires
                m * st >= ln * 0x4_0000_0000,
                ln >= 1,
        ;
        assert((m * limit) / ln >= 0x4_0000_0000) by (nonlinear_arith)
            requires
                m * limit >= ln * 0x4_0000_0000,
                ln >= 1,
        ;
        if d < 0 {
            assert(-(d * st) == m * st && -(d * limit) == m * limit && d * st < 0 && d * limit < 0)
                by (nonlinear_arith)
                requires
                    m == -d,
                    d < 0,
                    st > 0,
                    limit > 0,
            ;
        } else {
            assert(d * st == m * st && d * limit == m * limit && d * st >= 0 && d * limit >= 0)
                by (nonlinear_arith)
                requires
                    m == d,
                    d > 0,
                    st > 0,
                    limit > 0,
            ;
        }
    } else {
        assert(d * st == 0 && d * limit == 0) by (nonlinear_arith)
            requires
                d == 0,
        ;
    }
}

/// One component of an offset rescaled to length `mag`.
pub fn rescale(d: i64, mag: u128, len: u64) -> (r: i128)
    requires
        abs(d as int) <= 0x1_0000_0000,
        mag <= 0x400_0000_0000_0000_0000_0000,
    ensures
        r == scale_component(d as int, mag as nat, len as nat),
        abs(r as int) <= abs(d as int) * mag,
{
    if len == 0 {
        return 0;
    }
    let m: u128 = magnitude(d) as u128;
    assert(m * mag <= 0x1_0000_0000 * 0x400_0000_0000_0000_0000_0000) by (nonlinear_arith)
        requires
            m <= 0x1_0000_0000,
            mag <= 0x400_0000_0000_0000_0000_0000,
    ;
    let q: u128 = (m * mag) / (len as u128);
    assert(q <= m * mag) by (nonlinear_arith)
        requires
            q == (m * mag) / (len as int),
            len >= 1,
    ;
    if d >= 0 {
        q as i128
    } else {
        assert((-(d as int)) * (mag as int) == -((d as int) * (mag as int))) by (nonlinear_arith);
        -(q as i128)
    }
}

impl Vec2 {
    /// The point `(x, y)`.
    pub fn new(x: i32, y: i32) -> (v: Self)
        ensures
            v.x == x,
            v.y == y,
    {
        Vec2 { x, y }
    }

    /// Square of the distance between two points.
    pub open spec fn dist_sq(self, other: Vec2) -> nat {
        ((self.x - other.x) * (self.x - other.x) + (self.y - other.y) * (self.y - other.y)) as nat
    }

    /// Square of the distance between two points.
    pub fn distance_squared(&self, other: Vec2) -> (r: u128)
        ensures
            r == self.dist_sq(other),
            r <= 0x2_0000_0000_0000_0000,
    {
        let dx: u128 = magnitude(self.x as i64 - other.x as i64) as u128;
        let dy: u128 = magnitude(self.y as i64 - other.y as i64) as u128;
        assert(dx * dx <= 0x1_0000_0000_0000_0000 && dx * dx == (self.x - other.x) * (self.x
            - other.x)) by (nonlinear_arith)
            requires
                dx <= 0x1_0000_0000,
                dx == abs(self.x - other.x),
        ;
        assert(dy * dy <= 0x1_0000_0000_0000_0000 && dy * dy == (self.y - other.y) * (self.y
            - other.y)) by (nonlinear_arith)
            requires
                dy <= 0x1_0000_0000,
                dy == abs(self.y - other.y),
        ;
        dx * dx + dy * dy
    }

    /// Whether `other` lies strictly closer than `radius`; nothing lies
    /// within a radius that is not positive.
    pub open spec fn within(self, other: Vec2, radius: int) -> bool {
        radius > 0 && self.dist_sq(other) < radius * radius
    }

    /// Whether `other` lies strictly closer than `radius`.
    pub fn is_within(&self, other: Vec2, radius: i64) -> (b: bool)
        ensures
            b == self.within(other, radius as int),
    {
        if radius <= 0 {
            return false;
        }
        let r: u128 = radius as u128;
        assert(r * r <= 0x8000_0000_0000_0000 * 0x8000_0000_0000_0000) by (nonlinear_arith)
            requires
                r <= 0x8000_0000_0000_0000,
        ;
        self.distance_squared(other) < r * r
    }

    /// The offset from `self` to `target`, rescaled to length `mag` with
    /// each component rounded toward zero and kept within `i32`. The null
    /// offset stays null.
    pub open spec fn aimed(self, target: Vec2, mag: nat) -> Vec2 {
        let dx = target.x - self.x;
        let dy = target.y - self.y;
        let len = offset_len(dx, dy);
        Vec2 {
            x: clamp_i32(scale_component(dx, mag, len)) as i32,
            y: clamp_i32(scale_component(dy, mag, len)) as i32,
        }
    }

    /// The offset from `self` to `target`, rescaled to length `mag`.
    pub fn aim(&self, target: Vec2, mag: u64) -> (v: Vec2)
        ensures
            v == self.aimed(target, mag as nat),
    {
        let dx: i64 = target.x as i64 - self.x as i64;
        let dy: i64 = target.y as i64 - self.y as i64;
        let len: u64 = int_sqrt(self.distance_squared(target));
        assert(self.dist_sq(target) == (dx * dx + dy * dy) as nat) by (nonlinear_arith)
            requires
                dx == target.x - self.x,
                dy == target.y - self.y,
                self.dist_sq(target) == ((self.x - target.x) * (self.x - target.x) + (self.y
                    - target.y) * (self.y - target.y)) as nat,
        ;
        Vec2 {
            x: clamp_to_i32(rescale(dx, mag as u128, len)),
            y: clamp_to_i32(rescale(dy, mag as u128, len)),
        }
    }

    /// The point reached from `self` after `step` thousandths of a pixel
    /// straight toward `target`, each coordinate kept within `i32`. A step
    /// longer than the distance carries past the target.
    pub open spec fn stepped_toward(self, target: Vec2, step: nat) -> Vec2 {
        let dx = target.x - self.x;
        let dy = target.y - self.y;
        let len = offset_len(dx, dy);
        Vec2 {
            x: clamp_i32(self.x + scale_component(dx, step, len)) as i32,
            y: clamp_i32(self.y + scale_component(dy, step, len)) as i32,
        }
    }

    /// Moves `step` thousandths of a pixel straight toward `target`.
    pub fn step_toward(&self, target: Vec2, step: u128) -> (v: Vec2)
        ensures
            v == self.stepped_toward(target, step as nat),
    {
        let dx: i64 = target.x as i64 - self.x as i64;
        let dy: i64 = target.y as i64 - self.y as i64;
        let len: u64 = int_sqrt(self.distance_squared(target));
        assert(self.dist_sq(target) == (dx * dx + dy * dy) as nat) by (nonlinear_arith)
            requires
                dx == target.x - self.x,
                dy == target.y - self.y,
                self.dist_sq(target) == ((self.x - target.x) * (self.x - target.x) + (self.y
                    - target.y) * (self.y - target.y)) as nat,
        ;
        let capped: u128 = if step > STEP_LIMIT {
            STEP_LIMIT
        } else {
            step
        };
        proof {
            if step > STEP_LIMIT {
                lemma_offset_len_bounds(dx as int, dy as int);
                lemma_long_step(self.x, dx as int, len as nat, step as nat);
                lemma_long_step(self.y, dy as int, len as nat, step as nat);
            }
        }
        let mx: i128 = rescale(dx, capped, len);
        let my: i128 = rescale(dy, capped, len);
        assert(abs(mx as int) <= 0x1_0000_0000 * 0x400_0000_0000_0000_0000_0000) by (nonlinear_arith)
            requires
                abs(mx as int) <= abs(dx as int) * capped,
                abs(dx as int) <= 0x1_0000_0000,
                capped <= 0x400_0000_0000_0000_0000_0000,
        ;
        assert(abs(my as int) <= 0x1_0000_0000 * 0x400_0000_0000_0000_0000_0000) by (nonlinear_arith)
            requires
                abs(my as int) <= abs(dy as int) * capped,
                abs(dy as int) <= 0x1_0000_0000,
                capped <= 0x400_0000_0000_0000_0000_0000,
        ;
        Vec2 { x: clamp_to_i32(self.x as i128 + mx), y: clamp_to_i32(self.y as i128 + my) }
    }

    /// The point reached from `self` after `dt` microseconds at `velocity`,
    /// each displacement rounded toward zero and each coordinate kept
    /// within `i32`.
    pub open spec fn advanced(self, velocity: Vec2, dt: nat) -> Vec2 {
        Vec2 {
            x: clamp_i32(self.x + div_toward_zero(velocity.x * dt, MICROS_PER_SECOND as int)) as i32,
            y: clamp_i32(self.y + div_toward_zero(velocity.y * dt, MICROS_PER_SECOND as int)) as i32,
        }
    }

    /// Moves for `dt` microseconds at `velocity`.
    pub fn advance(&self, velocity: Vec2, dt: u64) -> (v: Vec2)
        ensures
            v == self.advanced(velocity, dt as nat),
    {
        assert(-0x1_0000_0000 * 0x1_0000_0000_0000_0000 <= velocity.x * dt <= 0x1_0000_0000
            * 0x1_0000_0000_0000_0000) by (nonlinear_arith)
            requires
                -0x1_0000_0000 <= velocity.x <= 0x1_0000_0000,
                0 <= dt <= 0x1_0000_0000_0000_0000,
        ;
        assert(-0x1_0000_0000 * 0x1_0000_0000_0000_0000 <= velocity.y * dt <= 0x1_0000_0000
            * 0x1_0000_0000_0000_0000) by (nonlinear_arith)
            requires
                -0x1_0000_0000 <= velocity.y <= 0x1_0000_0000,
                0 <= dt <= 0x1_0000_0000_0000_0000,
        ;
        let px: i128 = (velocity.x as i128) * (dt as i128);
        let py: i128 = (velocity.y as i128) * (dt as i128);
        let mx: i128 = divide_toward_zero(px, MICROS_PER_SECOND);
        let my: i128 = divide_toward_zero(py, MICROS_PER_SECOND);
        Vec2 { x: clamp_to_i32(self.x as i128 + mx), y: clamp_to_i32(self.y as i128 + my) }
    }
}

} // verus!
