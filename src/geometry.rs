use vstd::prelude::*;

verus! {

/// A point of the world, in milli-pixels.
#[derive(Clone, Copy, Debug, PartialEq, Eq, Structural)]
pub struct Position {
    pub x: i32,
    pub y: i32,
}

/// A velocity, in milli-pixels per second.
#[derive(Clone, Copy, Debug, PartialEq, Eq, Structural)]
pub struct Velocity {
    pub x: i64,
    pub y: i64,
}

pub open spec fn abs(x: int) -> int {
    if x < 0 {
        -x
    } else {
        x
    }
}

/// `r` is the integer square root of `n`, rounded down.
pub open spec fn is_floor_sqrt(n: int, r: int) -> bool {
    0 <= r && r * r <= n && n < (r + 1) * (r + 1)
}

/// Two axis-aligned squares, centred at `a` and `b` with sides `sa` and `sb`,
/// overlap: on each axis the centres are closer than half the summed sides.
pub open spec fn squares_overlap(a: Position, sa: int, b: Position, sb: int) -> bool {
    2 * abs(a.x - b.x) < sa + sb && 2 * abs(a.y - b.y) < sa + sb
}

/// `v` is `(dx, dy)` scaled to length `speed`, each component rounded toward
/// zero; the zero vector stays zero.
pub open spec fn is_scaled(dx: int, dy: int, speed: int, v: Velocity) -> bool {
    if dx == 0 && dy == 0 {
        v.x == 0 && v.y == 0
    } else {
        let l = dx * dx + dy * dy;
        &&& is_floor_sqrt(dx * dx * speed * speed / l, abs(v.x as int))
        &&& is_floor_sqrt(dy * dy * speed * speed / l, abs(v.y as int))
        &&& (dx >= 0 ==> v.x >= 0)
        &&& (dx < 0 ==> v.x <= 0)
        &&& (dy >= 0 ==> v.y >= 0)
        &&& (dy < 0 ==> v.y <= 0)
    }
}

/// Axis-aligned overlap test of two squares given by centre and side.
pub fn square_collide(pos_a: Position, size_a: u32, pos_b: Position, size_b: u32) -> (r: bool)
    ensures
        r == squares_overlap(pos_a, size_a as int, pos_b, size_b as int),
{
    let dx: i64 = pos_a.x as i64 - pos_b.x as i64;
    let dy: i64 = pos_a.y as i64 - pos_b.y as i64;
    let ax: i64 = if dx < 0 { -dx } else { dx };
    let ay: i64 = if dy < 0 { -dy } else { dy };
    let reach: i64 = size_a as i64 + size_b as i64;
    2 * ax < reach && 2 * ay < reach
}

/// Integer square root, rounded down.
pub fn isqrt(n: u128) -> (r: u64)
    ensures
        is_floor_sqrt(n as int, r as int),
{
    let mut lo: u128 = 0;
    let mut hi: u128 = 0x1_0000_0000_0000_0000;
    assert(n < hi * hi) by (nonlinear_arith)
        requires
            hi == 0x1_0000_0000_0000_0000u128,
            n <= u128::MAX,
    ;
    while hi - lo > 1
        invariant
            lo < hi <= 0x1_0000_0000_0000_0000u128,
            lo * lo <= n,
            n < hi * hi,
        decreases hi - lo,
    {
        let mid: u128 = lo + (hi - lo) / 2;
        assert(mid * mid <= u128::MAX) by (nonlinear_arith)
            requires
                mid < 0x1_0000_0000_0000_0000u128,
        ;
        if mid * mid <= n {
            lo = mid;
        } else {
            hi = mid;
        }
    }
    assert(hi == lo + 1);
    lo as u64
}

proof fn lemma_sqrt_bounded(q: int, r: int, s: int)
    requires
        is_floor_sqrt(q, r),
        0 <= s,
        q <= s * s,
    ensures
        r <= s,
{
    if r > s {
        assert(r * r > s * s) by (nonlinear_arith)
            requires
                r > s,
                s >= 0,
        ;
    }
}

proof fn lemma_share_bounded(c: int, l: int, s: int)
    requires
        0 <= c * c <= l,
        0 < l,
        0 <= s,
    ensures
        0 <= c * c * s * s / l <= s * s,
{
    assert(c * c * s * s <= l * (s * s)) by (nonlinear_arith)
        requires
            0 <= c * c <= l,
            0 <= s,
    ;
    assert(0 <= c * c * s * s) by (nonlinear_arith);
    vstd::arithmetic::div_mod::lemma_div_is_ordered(c * c * s * s, l * (s * s), l);
    vstd::arithmetic::div_mod::lemma_div_multiples_vanish(s * s, l);
    vstd::arithmetic::div_mod::lemma_div_pos_is_pos(c * c * s * s, l);
}

proof fn lemma_div_bracket(n: int, l: int)
    requires
        0 <= n,
        0 < l,
    ensures
        (n / l) * l <= n < (n / l + 1) * l,
{
    vstd::arithmetic::div_mod::lemma_fundamental_div_mod(n, l);
    vstd::arithmetic::div_mod::lemma_mod_bound(n, l);
    assert((n / l + 1) * l == (n / l) * l + l) by (nonlinear_arith);
    assert((n / l) * l == l * (n / l)) by (nonlinear_arith);
}

/// A nonzero vector scaled to `speed` has length `speed` up to the rounding of
/// its components: its squared length is at most `speed * speed`, and adding
/// one unit to the magnitude of each component takes it past that.
pub proof fn lemma_scaled_length(dx: int, dy: int, speed: int, v: Velocity)
    requires
        dx != 0 || dy != 0,
        0 <= speed,
        is_scaled(dx, dy, speed, v),
    ensures
        v.x * v.x + v.y * v.y <= speed * speed,
        speed * speed < (abs(v.x as int) + 1) * (abs(v.x as int) + 1) + (abs(v.y as int) + 1) * (
        abs(v.y as int) + 1),
{
    let l = dx * dx + dy * dy;
    let nx = dx * dx * speed * speed;
    let ny = dy * dy * speed * speed;
    let qx = nx / l;
    let qy = ny / l;
    let rx = abs(v.x as int);
    let ry = abs(v.y as int);
    assert(0 < l && 0 <= nx && 0 <= ny) by (nonlinear_arith)
        requires
            dx != 0 || dy != 0,
            l == dx * dx + dy * dy,
            nx == dx * dx * speed * speed,
            ny == dy * dy * speed * speed,
    ;
    lemma_div_bracket(nx, l);
    lemma_div_bracket(ny, l);
    assert(nx + ny == l * (speed * speed)) by (nonlinear_arith)
        requires
            l == dx * dx + dy * dy,
            nx == dx * dx * speed * speed,
            ny == dy * dy * speed * speed,
    ;
    assert(qx + qy <= speed * speed) by (nonlinear_arith)
        requires
            qx * l <= nx,
            qy * l <= ny,
            nx + ny == l * (speed * speed),
            0 < l,
    ;
    assert(speed * speed < qx + qy + 2) by (nonlinear_arith)
        requires
            nx < (qx + 1) * l,
            ny < (qy + 1) * l,
            nx + ny == l * (speed * speed),
            0 < l,
    ;
    assert(v.x * v.x == rx * rx && v.y * v.y == ry * ry) by (nonlinear_arith)
        requires
            rx == abs(v.x as int),
            ry == abs(v.y as int),
    ;
}

/// Magnitude of a component rounded toward zero.
fn scaled_magnitude(a: u64, other: u64, speed: u64) -> (r: u64)
    requires
        a > 0 || other > 0,
        a <= 0x8000_0000_0000_0000u64,
        other <= 0x8000_0000_0000_0000u64,
        a as int * speed <= u64::MAX,
        speed <= i64::MAX,
    ensures
        is_floor_sqrt(
            (a * a * speed * speed) as int / (a * a + other * other) as int,
            r as int,
        ),
        r <= speed,
{
    let p: u128 = a as u128 * speed as u128;
    assert(p * p <= u128::MAX) by (nonlinear_arith)
        requires
            p <= u64::MAX,
    ;
    assert(a * a + other * other <= 0x8000_0000_0000_0000_0000_0000_0000_0000u128) by (nonlinear_arith)
        requires
            a <= 0x8000_0000_0000_0000u64,
            other <= 0x8000_0000_0000_0000u64,
    ;
    let l: u128 = a as u128 * a as u128 + other as u128 * other as u128;
    assert(l > 0) by (nonlinear_arith)
        requires
            a > 0 || other > 0,
            l == a * a + other * other,
    ;
    assert(p * p == a * a * speed * speed) by (nonlinear_arith)
        requires
            p == a * speed,
    ;
    let r = isqrt(p * p / l);
    proof {
        assert(0 <= other * other) by (nonlinear_arith);
        lemma_share_bounded(a as int, l as int, speed as int);
        lemma_sqrt_bounded((p * p) as int / l as int, r as int, speed as int);
    }
    r
}

/// `(dx, dy)` scaled to length `speed`, with the zero vector left zero
/// (normalize-or-zero, then scale).
pub fn scale_to_length(dx: i64, dy: i64, speed: u64) -> (v: Velocity)
    requires
        abs(dx as int) * speed <= u64::MAX,
        abs(dy as int) * speed <= u64::MAX,
        speed <= i64::MAX,
    ensures
        is_scaled(dx as int, dy as int, speed as int, v),
{
    if dx == 0 && dy == 0 {
        return Velocity { x: 0, y: 0 };
    }
    let ax: u64 = if dx < 0 { (0i128 - dx as i128) as u64 } else { dx as u64 };
    let ay: u64 = if dy < 0 { (0i128 - dy as i128) as u64 } else { dy as u64 };
    let mx = scaled_magnitude(ax, ay, speed);
    let my = scaled_magnitude(ay, ax, speed);
    let vx: i64 = if dx < 0 { -(mx as i64) } else { mx as i64 };
    let vy: i64 = if dy < 0 { -(my as i64) } else { my as i64 };
    proof {
        assert(ax * ax == dx * dx) by (nonlinear_arith)
            requires
                ax == abs(dx as int),
        ;
        assert(ay * ay == dy * dy) by (nonlinear_arith)
            requires
                ay == abs(dy as int),
        ;
        assert(ax * ax * speed * speed == dx * dx * speed * speed) by (nonlinear_arith)
            requires
                ax * ax == dx * dx,
        ;
        assert(ay * ay * speed * speed == dy * dy * speed * speed) by (nonlinear_arith)
            requires
                ay * ay == dy * dy,
        ;
    }
    Velocity { x: vx, y: vy }
}

/// `x` held inside the range of a coordinate.
pub open spec fn clamp_coord(x: int) -> int {
    if x < i32::MIN {
        i32::MIN as int
    } else if x > i32::MAX {
        i32::MAX as int
    } else {
        x
    }
}

/// `n / d` rounded toward zero.
pub open spec fn div_toward_zero(n: int, d: int) -> int {
    if n >= 0 {
        n / d
    } else {
        -((-n) / d)
    }
}

/// A coordinate moved at `v` milli-pixels per second for `dt` microseconds,
/// the step rounded toward zero and the result held inside the coordinate
/// range.
pub open spec fn advanced(p: int, v: int, dt: int) -> int {
    clamp_coord(p + div_toward_zero(v * dt, 1_000_000))
}

fn advance_coord(p: i32, v: i64, dt: u64) -> (r: i32)
    ensures
        r == advanced(p as int, v as int, dt as int),
{
    assert(-0x8000_0000_0000_0000_0000_0000_0000_0000 < v * dt < 0x8000_0000_0000_0000_0000_0000_0000_0000)
        by (nonlinear_arith)
        requires
            -0x8000_0000_0000_0000 <= v < 0x8000_0000_0000_0000,
            0 <= dt < 0x1_0000_0000_0000_0000,
    ;
    let n: i128 = v as i128 * dt as i128;
    let step: i128 = if n >= 0 { n / 1_000_000 } else { -((-n) / 1_000_000) };
    let q: i128 = p as i128 + step;
    if q < i32::MIN as i128 {
        i32::MIN
    } else if q > i32::MAX as i128 {
        i32::MAX
    } else {
        q as i32
    }
}

/// A position moved along a velocity for `dt` microseconds.
pub fn advance(p: Position, v: Velocity, dt: u64) -> (r: Position)
    ensures
        r.x == advanced(p.x as int, v.x as int, dt as int),
        r.y == advanced(p.y as int, v.y as int, dt as int),
{
    Position { x: advance_coord(p.x, v.x, dt), y: advance_coord(p.y, v.y, dt) }
}

} // verus!
