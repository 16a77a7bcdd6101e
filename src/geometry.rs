use vstd::prelude::*;
use vstd::arithmetic::div_mod::{
    lemma_div_by_multiple, lemma_div_is_ordered, lemma_div_pos_is_pos, lemma_fundamental_div_mod,
    lemma_fundamental_div_mod_converse, lemma_mod_pos_bound,
};

verus! {

/// Length units per screen pixel: positions, sizes and speeds are fixed-point.
pub const SUBPIXELS: i64 = 64;

/// Length of a unit direction vector: `(DIR_SCALE, 0)` points along angle zero.
pub const DIR_SCALE: i64 = 10000;

/// Angle units in a full turn (an angle unit is a thousandth of a degree).
pub const TURN: i64 = 360000;

/// Angle units between two neighbouring entries of the direction table.
pub const TABLE_STEP: i64 = 3000;

/// Entries of the direction table per quarter turn.
pub const QUARTER_STEPS: i64 = 30;

/// A point or a displacement in the plane, in subpixels.
#[derive(Clone, Copy, Debug, PartialEq, Eq, Structural)]
pub struct Vec2 {
    pub x: i64,
    pub y: i64,
}

/// Division that rounds toward zero, as the machine's signed division does.
pub open spec fn trunc_div(n: int, d: int) -> int {
    if n >= 0 {
        n / d
    } else {
        -((-n) / d)
    }
}

/// A quotient rounded toward zero is no further from zero than `k` when the
/// dividend is no further than `k * d`.
pub proof fn lemma_trunc_div_bounded(n: int, d: int, k: int)
    requires
        d > 0,
        k >= 0,
        -k * d <= n <= k * d,
    ensures
        -k <= trunc_div(n, d) <= k,
{
    lemma_div_by_multiple(k, d);
    assert((-k) * d == -(k * d)) by (nonlinear_arith);
    if n >= 0 {
        lemma_div_pos_is_pos(n, d);
        lemma_div_is_ordered(n, k * d, d);
    } else {
        lemma_div_pos_is_pos(-n, d);
        lemma_div_is_ordered(-n, k * d, d);
    }
}

/// `a * b / d` rounded toward zero, computed without intermediate overflow.
pub fn mul_div(a: i64, b: i64, d: i64) -> (r: i64)
    requires
        d > 0,
        i64::MIN <= trunc_div(a * b, d as int) <= i64::MAX,
    ensures
        r == trunc_div(a * b, d as int),
{
    proof {
        assert(-0x4000_0000_0000_0000_0000_0000_0000_0000 <= a * b <= 0x4000_0000_0000_0000_0000_0000_0000_0000)
            by (nonlinear_arith)
            requires i64::MIN <= a <= i64::MAX, i64::MIN <= b <= i64::MAX;
    }
    let p: i128 = a as i128 * b as i128;
    (p / d as i128) as i64
}

impl Vec2 {
    /// Both coordinates lie within `[-bound, bound]`.
    pub open spec fn fits(self, bound: int) -> bool {
        -bound <= self.x <= bound && -bound <= self.y <= bound
    }

    pub open spec fn spec_dot(self, o: Vec2) -> int {
        self.x * o.x + self.y * o.y
    }

    pub open spec fn length_sq(self) -> int {
        self.x * self.x + self.y * self.y
    }

    /// The vector turned a quarter turn counterclockwise.
    pub open spec fn spec_perp(self) -> Vec2 {
        Vec2 { x: (-self.y) as i64, y: self.x }
    }

    pub fn new(x: i64, y: i64) -> (r: Vec2)
        ensures
            r == (Vec2 { x, y }),
    {
        Vec2 { x, y }
    }

    pub fn sub(self, o: Vec2) -> (r: Vec2)
        requires
            i64::MIN <= self.x - o.x <= i64::MAX,
            i64::MIN <= self.y - o.y <= i64::MAX,
        ensures
            r.x == self.x - o.x,
            r.y == self.y - o.y,
    {
        Vec2 { x: self.x - o.x, y: self.y - o.y }
    }

    /// Turns the vector a quarter turn counterclockwise.
    pub fn perp(self) -> (r: Vec2)
        requires
            self.y > i64::MIN,
        ensures
            r == self.spec_perp(),
            r.x == -self.y,
    {
        Vec2 { x: -self.y, y: self.x }
    }

    pub fn dot(self, o: Vec2) -> (r: i128)
        requires
            self.fits(0x1_0000_0000_0000),
            o.fits(0x1_0000_0000_0000),
        ensures
            r == self.spec_dot(o),
    {
        proof {
            assert(-0x1_0000_0000_0000_0000_0000_0000 <= self.x * o.x <= 0x1_0000_0000_0000_0000_0000_0000) by (nonlinear_arith)
                requires self.fits(0x1_0000_0000_0000), o.fits(0x1_0000_0000_0000);
            assert(-0x1_0000_0000_0000_0000_0000_0000 <= self.y * o.y <= 0x1_0000_0000_0000_0000_0000_0000) by (nonlinear_arith)
                requires self.fits(0x1_0000_0000_0000), o.fits(0x1_0000_0000_0000);
        }
        self.x as i128 * o.x as i128 + self.y as i128 * o.y as i128
    }

    pub fn len_sq(self) -> (r: i128)
        requires
            self.fits(0x4000_0000_0000_0000),
        ensures
            r == self.length_sq(),
    {
        proof {
            assert(0 <= self.x * self.x <= 0x1000_0000_0000_0000_0000_0000_0000_0000) by (nonlinear_arith)
                requires -0x4000_0000_0000_0000 <= self.x <= 0x4000_0000_0000_0000;
            assert(0 <= self.y * self.y <= 0x1000_0000_0000_0000_0000_0000_0000_0000) by (nonlinear_arith)
                requires -0x4000_0000_0000_0000 <= self.y <= 0x4000_0000_0000_0000;
        }
        self.x as i128 * self.x as i128 + self.y as i128 * self.y as i128
    }
}

/// `DIR_SCALE` times the sine of `i` table steps, for `0 <= i <= QUARTER_STEPS`.
pub open spec fn sine_step(i: i64) -> int {
    match i {
        0 => 0,
        1 => 523,
        2 => 1045,
        3 => 1564,
        4 => 2079,
        5 => 2588,
        6 => 3090,
        7 => 3584,
        8 => 4067,
        9 => 4540,
        10 => 5000,
        11 => 5446,
        12 => 5878,
        13 => 6293,
        14 => 6691,
        15 => 7071,
        16 => 7431,
        17 => 7771,
        18 => 8090,
        19 => 8387,
        20 => 8660,
        21 => 8910,
        22 => 9135,
        23 => 9336,
        24 => 9511,
        25 => 9659,
        26 => 9781,
        27 => 9877,
        28 => 9945,
        29 => 9986,
        _ => 10000,
    }
}

fn table_sine(i: i64) -> (r: i64)
    requires
        0 <= i <= QUARTER_STEPS,
    ensures
        r == sine_step(i),
{
    match i {
        0 => 0,
        1 => 523,
        2 => 1045,
        3 => 1564,
        4 => 2079,
        5 => 2588,
        6 => 3090,
        7 => 3584,
        8 => 4067,
        9 => 4540,
        10 => 5000,
        11 => 5446,
        12 => 5878,
        13 => 6293,
        14 => 6691,
        15 => 7071,
        16 => 7431,
        17 => 7771,
        18 => 8090,
        19 => 8387,
        20 => 8660,
        21 => 8910,
        22 => 9135,
        23 => 9336,
        24 => 9511,
        25 => 9659,
        26 => 9781,
        27 => 9877,
        28 => 9945,
        29 => 9986,
        _ => 10000,
    }
}

/// The unit direction of an angle, scaled by `DIR_SCALE`: the angle is taken
/// modulo a full turn, and the direction interpolated linearly between the
/// two table entries on either side of it, rounding toward zero.
#[verifier::opaque]
pub open spec fn spec_direction(angle: int) -> Vec2 {
    let s = step_index(angle);
    let f = step_fraction(angle);
    let d = step_direction(s);
    let e = step_direction((s + 1) % (4 * QUARTER_STEPS));
    Vec2 {
        x: (d.x + trunc_div((e.x - d.x) * f, TABLE_STEP as int)) as i64,
        y: (d.y + trunc_div((e.y - d.y) * f, TABLE_STEP as int)) as i64,
    }
}

/// How far an angle lies past the table entry it falls on, in angle units.
pub open spec fn step_fraction(angle: int) -> int {
    (angle % (TURN as int)) % (TABLE_STEP as int)
}

/// The entry of the direction table that an angle falls on.
pub open spec fn step_index(angle: int) -> int {
    (angle % (TURN as int)) / (TABLE_STEP as int)
}

/// Entry `s` of the direction table, `0 <= s < 4 * QUARTER_STEPS`.
pub open spec fn step_direction(s: int) -> Vec2 {
    quadrant_direction(s / (QUARTER_STEPS as int), s % (QUARTER_STEPS as int))
}

/// The direction `k` table steps into quadrant `q`.
pub open spec fn quadrant_direction(q: int, k: int) -> Vec2 {
    let c = sine_step((QUARTER_STEPS - k) as i64);
    let n = sine_step(k as i64);
    if q == 0 {
        Vec2 { x: c as i64, y: n as i64 }
    } else if q == 1 {
        Vec2 { x: (-n) as i64, y: c as i64 }
    } else if q == 2 {
        Vec2 { x: (-c) as i64, y: (-n) as i64 }
    } else {
        Vec2 { x: n as i64, y: (-c) as i64 }
    }
}

pub proof fn lemma_sine_step_bounded(i: i64)
    requires
        0 <= i <= QUARTER_STEPS,
    ensures
        0 <= sine_step(i) <= DIR_SCALE,
{
}

/// Every table entry has coordinates within `[-DIR_SCALE, DIR_SCALE]`.
pub proof fn lemma_step_direction_bounded(s: int)
    ensures
        step_direction(s).fits(DIR_SCALE as int),
{
    let k = s % (QUARTER_STEPS as int);
    lemma_sine_step_bounded(k as i64);
    lemma_sine_step_bounded((QUARTER_STEPS - k) as i64);
}

proof fn lemma_between(d: int, e: int, f: int)
    requires
        -10000 <= d <= 10000,
        -10000 <= e <= 10000,
        0 <= f < 3000,
    ensures
        d <= e ==> d <= d + trunc_div((e - d) * f, 3000) <= e,
        e <= d ==> e <= d + trunc_div((e - d) * f, 3000) <= d,
{
    if d <= e {
        assert(0 <= (e - d) * f <= (e - d) * 3000) by (nonlinear_arith)
            requires
                d <= e,
                0 <= f < 3000,
        ;
        lemma_trunc_div_bounded((e - d) * f, 3000, e - d);
        lemma_div_pos_is_pos((e - d) * f, 3000);
    } else {
        assert((e - d) * 3000 <= (e - d) * f <= 0) by (nonlinear_arith)
            requires
                e < d,
                0 <= f < 3000,
        ;
        lemma_trunc_div_bounded((e - d) * f, 3000, d - e);
        lemma_div_pos_is_pos(-((e - d) * f), 3000);
    }
}

/// Every direction has coordinates within `[-DIR_SCALE, DIR_SCALE]`.
pub proof fn lemma_direction_bounded(angle: int)
    ensures
        spec_direction(angle).fits(DIR_SCALE as int),
{
    reveal(spec_direction);
    let s = step_index(angle);
    let f = step_fraction(angle);
    let d = step_direction(s);
    let e = step_direction((s + 1) % (4 * QUARTER_STEPS));
    lemma_step_direction_bounded(s);
    lemma_step_direction_bounded((s + 1) % (4 * QUARTER_STEPS));
    lemma_mod_pos_bound(angle % (TURN as int), TABLE_STEP as int);
    lemma_between(d.x as int, e.x as int, f);
    lemma_between(d.y as int, e.y as int, f);
}

/// Entry `s` of the direction table.
fn table_direction(s: i64) -> (r: Vec2)
    requires
        0 <= s < 4 * QUARTER_STEPS,
    ensures
        r == step_direction(s as int),
        r.fits(DIR_SCALE as int),
{
    proof {
        lemma_step_direction_bounded(s as int);
    }
    let q: i64 = s / QUARTER_STEPS;
    let k: i64 = s % QUARTER_STEPS;
    let c = table_sine(QUARTER_STEPS - k);
    let n = table_sine(k);
    if q == 0 {
        Vec2 { x: c, y: n }
    } else if q == 1 {
        Vec2 { x: -n, y: c }
    } else if q == 2 {
        Vec2 { x: -c, y: -n }
    } else {
        Vec2 { x: n, y: -c }
    }
}

/// The direction of `angle`, scaled by `DIR_SCALE`.
#[verifier::rlimit(100)]
pub fn direction(angle: i64) -> (r: Vec2)
    ensures
        r == spec_direction(angle as int),
        r.fits(DIR_SCALE as int),
{
    proof {
        lemma_direction_bounded(angle as int);
        reveal(spec_direction);
    }
    let mut m: i64 = angle % TURN;
    if m < 0 {
        m = m + TURN;
    }
    assert(m == angle as int % (TURN as int));
    let s: i64 = m / TABLE_STEP;
    let f: i64 = m % TABLE_STEP;
    let d = table_direction(s);
    let e = table_direction((s + 1) % (4 * QUARTER_STEPS));
    assert(-20000 * 3000 <= (e.x - d.x) * f <= 20000 * 3000) by (nonlinear_arith)
        requires
            -20000 <= e.x - d.x <= 20000,
            0 <= f < 3000,
    ;
    assert(-20000 * 3000 <= (e.y - d.y) * f <= 20000 * 3000) by (nonlinear_arith)
        requires
            -20000 <= e.y - d.y <= 20000,
            0 <= f < 3000,
    ;
    Vec2 {
        x: d.x + (e.x - d.x) * f / TABLE_STEP,
        y: d.y + (e.y - d.y) * f / TABLE_STEP,
    }
}

/// `r` is the least natural number whose square reaches `n`.
pub open spec fn is_ceil_sqrt(n: int, r: int) -> bool {
    &&& r >= 0
    &&& r * r >= n
    &&& (r == 0 || (r - 1) * (r - 1) < n)
}

/// The least natural number whose square reaches `n`.
pub open spec fn ceil_sqrt(n: int) -> int {
    choose|r: int| is_ceil_sqrt(n, r)
}

proof fn lemma_ceil_sqrt_unique(n: int, r1: int, r2: int)
    requires
        is_ceil_sqrt(n, r1),
        is_ceil_sqrt(n, r2),
    ensures
        r1 == r2,
{
    if r1 < r2 {
        assert(false) by (nonlinear_arith)
            requires
                0 <= r1 < r2,
                r1 * r1 >= n,
                (r2 - 1) * (r2 - 1) < n,
        ;
    } else if r2 < r1 {
        assert(false) by (nonlinear_arith)
            requires
                0 <= r2 < r1,
                r2 * r2 >= n,
                (r1 - 1) * (r1 - 1) < n,
        ;
    }
}

/// The least natural number whose square reaches `n`, by bisection.
pub fn square_root_ceil(n: u128) -> (r: u64)
    requires
        n <= 0x10_0000_0000_0000_0000_0000_0000,
    ensures
        r == ceil_sqrt(n as int),
        r <= 0x4_0000_0000_0000,
        n > 0 ==> r > 0,
{
    let top: u64 = 0x4_0000_0000_0000;
    assert(top * top == 0x10_0000_0000_0000_0000_0000_0000) by (nonlinear_arith)
        requires
            top == 0x4_0000_0000_0000,
    ;
    if n == 0 {
        assert(is_ceil_sqrt(0, 0));
        proof {
            lemma_ceil_sqrt_unique(0, 0, ceil_sqrt(0));
        }
        return 0;
    }
    let mut lo: u64 = 0;
    let mut hi: u64 = top;
    while hi - lo > 1
        invariant
            0 <= lo < hi <= 0x4_0000_0000_0000,
            n > 0,
            lo * lo < n,
            hi * hi >= n,
        decreases hi - lo,
    {
        let mid: u64 = lo + (hi - lo) / 2;
        assert(mid * mid <= 0x10_0000_0000_0000_0000_0000_0000) by (nonlinear_arith)
            requires
                0 <= mid <= 0x4_0000_0000_0000,
        ;
        let sq: u128 = mid as u128 * mid as u128;
        if sq >= n {
            hi = mid;
        } else {
            lo = mid;
        }
    }
    proof {
        assert(is_ceil_sqrt(n as int, hi as int));
        lemma_ceil_sqrt_unique(n as int, hi as int, ceil_sqrt(n as int));
    }
    hi
}

/// Turning an angle by `m` whole table steps moves it `m` entries round the table.
pub proof fn lemma_step_index_shift(a: int, m: int)
    requires
        m >= 0,
    ensures
        step_index(a + m * TABLE_STEP) == (step_index(a) + m) % (4 * QUARTER_STEPS),
        step_fraction(a + m * TABLE_STEP) == step_fraction(a),
        0 <= step_index(a) < 4 * QUARTER_STEPS,
        0 <= step_fraction(a) < TABLE_STEP,
{
    let t = TURN as int;
    lemma_fundamental_div_mod(a, t);
    let q0 = a / t;
    let r = a % t;
    lemma_fundamental_div_mod(r, 3000);
    let s = r / 3000;
    let u0 = r % 3000;
    lemma_fundamental_div_mod(s + m, 120);
    let w = (s + m) / 120;
    let u = (s + m) % 120;
    assert(0 <= s < 120) by {
        lemma_fundamental_div_mod_converse(r, 3000, r / 3000, r % 3000);
    }
    assert(a + m * 3000 == (q0 + w) * t + (3000 * u + u0));
    lemma_fundamental_div_mod_converse(a + m * 3000, t, q0 + w, 3000 * u + u0);
    lemma_fundamental_div_mod_converse(3000 * u + u0, 3000, u, u0);
    lemma_fundamental_div_mod_converse(r, 3000, s, u0);
}

/// A quotient rounded toward zero, times the divisor, lies within one divisor
/// of the dividend.
pub proof fn lemma_trunc_div_close(n: int, d: int)
    requires
        d > 0,
    ensures
        n - d < d * trunc_div(n, d) < n + d,
{
    if n >= 0 {
        lemma_fundamental_div_mod(n, d);
        lemma_mod_pos_bound(n, d);
    } else {
        lemma_fundamental_div_mod(-n, d);
        lemma_mod_pos_bound(-n, d);
        let q = (-n) / d;
        assert(d * (-q) == -(d * q)) by (nonlinear_arith);
    }
}

/// Dividends at least two divisors apart have different quotients.
pub proof fn lemma_trunc_div_apart(x: int, y: int, d: int)
    requires
        d > 0,
        x + 2 * d <= y,
    ensures
        trunc_div(x, d) < trunc_div(y, d),
{
    lemma_trunc_div_close(x, d);
    lemma_trunc_div_close(y, d);
    let tx = trunc_div(x, d);
    let ty = trunc_div(y, d);
    assert(tx < ty) by (nonlinear_arith)
        requires
            d * tx < x + d,
            y - d < d * ty,
            x + 2 * d <= y,
            d > 0,
    ;
}

/// Both ends of the table interval that starts at `s` and of the one that
/// starts `m` entries further round (`m >= 0`) are set apart by at least
/// `DIR_SCALE / 2` on a common axis, in a common sense.
pub open spec fn table_apart(s: int, m: int) -> bool {
    let n = 4 * QUARTER_STEPS;
    let s2 = (s + m) % n;
    apart_pairs(
        step_direction(s),
        step_direction(s2),
        step_direction((s + 1) % n),
        step_direction((s2 + 1) % n),
    )
}

/// `b - a` and `d - c` reach `DIR_SCALE / 2` on a common axis, in a common sense.
pub open spec fn apart_pairs(a: Vec2, b: Vec2, c: Vec2, d: Vec2) -> bool {
    ||| b.x - a.x >= 5000 && d.x - c.x >= 5000
    ||| a.x - b.x >= 5000 && c.x - d.x >= 5000
    ||| b.y - a.y >= 5000 && d.y - c.y >= 5000
    ||| a.y - b.y >= 5000 && c.y - d.y >= 5000
}

proof fn lemma_entry(s: int, q: int, k: int)
    requires
        0 <= k < 30,
        s == 30 * q + k,
    ensures
        step_direction(s) == quadrant_direction(q, k),
{
    lemma_fundamental_div_mod_converse(s, 30, q, k);
}

proof fn lemma_wrap_entry(t: int, w: int, u: int)
    requires
        0 <= u < 120,
        t == 120 * w + u,
    ensures
        t % 120 == u,
{
    lemma_fundamental_div_mod_converse(t, 120, w, u);
}

/// Table intervals 20 entries apart are set apart at both ends.
#[verifier::rlimit(100)]
#[verifier::spinoff_prover]
pub proof fn lemma_table_apart_20(s: int)
    requires
        0 <= s < 4 * QUARTER_STEPS,
    ensures
        table_apart(s, 20),
{
    if s == 0 {
        lemma_entry(0, 0, 0);
        lemma_wrap_entry(20, 0, 20);
        lemma_entry(20, 0, 20);
        lemma_wrap_entry(1, 0, 1);
        lemma_entry(1, 0, 1);
        lemma_wrap_entry(21, 0, 21);
        lemma_entry(21, 0, 21);
    } else if s == 1 {
        lemma_entry(1, 0, 1);
        lemma_wrap_entry(21, 0, 21);
        lemma_entry(21, 0, 21);
        lemma_wrap_entry(2, 0, 2);
        lemma_entry(2, 0, 2);
        lemma_wrap_entry(22, 0, 22);
        lemma_entry(22, 0, 22);
    } else if s == 2 {
        lemma_entry(2, 0, 2);
        lemma_wrap_entry(22, 0, 22);
        lemma_entry(22, 0, 22);
        lemma_wrap_entry(3, 0, 3);
        lemma_entry(3, 0, 3);
        lemma_wrap_entry(23, 0, 23);
        lemma_entry(23, 0, 23);
    } else if s == 3 {
        lemma_entry(3, 0, 3);
        lemma_wrap_entry(23, 0, 23);
        lemma_entry(23, 0, 23);
        lemma_wrap_entry(4, 0, 4);
        lemma_entry(4, 0, 4);
        lemma_wrap_entry(24, 0, 24);
        lemma_entry(24, 0, 24);
    } else if s == 4 {
        lemma_entry(4, 0, 4);
        lemma_wrap_entry(24, 0, 24);
        lemma_entry(24, 0, 24);
        lemma_wrap_entry(5, 0, 5);
        lemma_entry(5, 0, 5);
        lemma_wrap_entry(25, 0, 25);
        lemma_entry(25, 0, 25);
    } else if s == 5 {
        lemma_entry(5, 0, 5);
        lemma_wrap_entry(25, 0, 25);
        lemma_entry(25, 0, 25);
        lemma_wrap_entry(6, 0, 6);
        lemma_entry(6, 0, 6);
        lemma_wrap_entry(26, 0, 26);
        lemma_entry(26, 0, 26);
    } else if s == 6 {
        lemma_entry(6, 0, 6);
        lemma_wrap_entry(26, 0, 26);
        lemma_entry(26, 0, 26);
        lemma_wrap_entry(7, 0, 7);
        lemma_entry(7, 0, 7);
        lemma_wrap_entry(27, 0, 27);
        lemma_entry(27, 0, 27);
    } else if s == 7 {
        lemma_entry(7, 0, 7);
        lemma_wrap_entry(27, 0, 27);
        lemma_entry(27, 0, 27);
        lemma_wrap_entry(8, 0, 8);
        lemma_entry(8, 0, 8);
        lemma_wrap_entry(28, 0, 28);
        lemma_entry(28, 0, 28);
    } else if s == 8 {
        lemma_entry(8, 0, 8);
        lemma_wrap_entry(28, 0, 28);
        lemma_entry(28, 0, 28);
        lemma_wrap_entry(9, 0, 9);
        lemma_entry(9, 0, 9);
        lemma_wrap_entry(29, 0, 29);
        lemma_entry(29, 0, 29);
    } else if s == 9 {
        lemma_entry(9, 0, 9);
        lemma_wrap_entry(29, 0, 29);
        lemma_entry(29, 0, 29);
        lemma_wrap_entry(10, 0, 10);
        lemma_entry(10, 0, 10);
        lemma_wrap_entry(30, 0, 30);
        lemma_entry(30, 1, 0);
    } else if s == 10 {
        lemma_entry(10, 0, 10);
        lemma_wrap_entry(30, 0, 30);
        lemma_entry(30, 1, 0);
        lemma_wrap_entry(11, 0, 11);
        lemma_entry(11, 0, 11);
        lemma_wrap_entry(31, 0, 31);
        lemma_entry(31, 1, 1);
    } else if s == 11 {
        lemma_entry(11, 0, 11);
        lemma_wrap_entry(31, 0, 31);
        lemma_entry(31, 1, 1);
        lemma_wrap_entry(12, 0, 12);
        lemma_entry(12, 0, 12);
        lemma_wrap_entry(32, 0, 32);
        lemma_entry(32, 1, 2);
    } else if s == 12 {
        lemma_entry(12, 0, 12);
        lemma_wrap_entry(32, 0, 32);
        lemma_entry(32, 1, 2);
        lemma_wrap_entry(13, 0, 13);
        lemma_entry(13, 0, 13);
        lemma_wrap_entry(33, 0, 33);
        lemma_entry(33, 1, 3);
    } else if s == 13 {
        lemma_entry(13, 0, 13);
        lemma_wrap_entry(33, 0, 33);
        lemma_entry(33, 1, 3);
        lemma_wrap_entry(14, 0, 14);
        lemma_entry(14, 0, 14);
        lemma_wrap_entry(34, 0, 34);
        lemma_entry(34, 1, 4);
    } else if s == 14 {
        lemma_entry(14, 0, 14);
        lemma_wrap_entry(34, 0, 34);
        lemma_entry(34, 1, 4);
        lemma_wrap_entry(15, 0, 15);
        lemma_entry(15, 0, 15);
        lemma_wrap_entry(35, 0, 35);
        lemma_entry(35, 1, 5);
    } else if s == 15 {
        lemma_entry(15, 0, 15);
        lemma_wrap_entry(35, 0, 35);
        lemma_entry(35, 1, 5);
        lemma_wrap_entry(16, 0, 16);
        lemma_entry(16, 0, 16);
        lemma_wrap_entry(36, 0, 36);
        lemma_entry(36, 1, 6);
    } else if s == 16 {
        lemma_entry(16, 0, 16);
        lemma_wrap_entry(36, 0, 36);
        lemma_entry(36, 1, 6);
        lemma_wrap_entry(17, 0, 17);
        lemma_entry(17, 0, 17);
        lemma_wrap_entry(37, 0, 37);
        lemma_entry(37, 1, 7);
    } else if s == 17 {
        lemma_entry(17, 0, 17);
        lemma_wrap_entry(37, 0, 37);
        lemma_entry(37, 1, 7);
        lemma_wrap_entry(18, 0, 18);
        lemma_entry(18, 0, 18);
        lemma_wrap_entry(38, 0, 38);
        lemma_entry(38, 1, 8);
    } else if s == 18 {
        lemma_entry(18, 0, 18);
        lemma_wrap_entry(38, 0, 38);
        lemma_entry(38, 1, 8);
        lemma_wrap_entry(19, 0, 19);
        lemma_entry(19, 0, 19);
        lemma_wrap_entry(39, 0, 39);
        lemma_entry(39, 1, 9);
    } else if s == 19 {
        lemma_entry(19, 0, 19);
        lemma_wrap_entry(39, 0, 39);
        lemma_entry(39, 1, 9);
        lemma_wrap_entry(20, 0, 20);
        lemma_entry(20, 0, 20);
        lemma_wrap_entry(40, 0, 40);
        lemma_entry(40, 1, 10);
    } else if s == 20 {
        lemma_entry(20, 0, 20);
        lemma_wrap_entry(40, 0, 40);
        lemma_entry(40, 1, 10);
        lemma_wrap_entry(21, 0, 21);
        lemma_entry(21, 0, 21);
        lemma_wrap_entry(41, 0, 41);
        lemma_entry(41, 1, 11);
    } else if s == 21 {
        lemma_entry(21, 0, 21);
        lemma_wrap_entry(41, 0, 41);
        lemma_entry(41, 1, 11);
        lemma_wrap_entry(22, 0, 22);
        lemma_entry(22, 0, 22);
        lemma_wrap_entry(42, 0, 42);
        lemma_entry(42, 1, 12);
    } else if s == 22 {
        lemma_entry(22, 0, 22);
        lemma_wrap_entry(42, 0, 42);
        lemma_entry(42, 1, 12);
        lemma_wrap_entry(23, 0, 23);
        lemma_entry(23, 0, 23);
        lemma_wrap_entry(43, 0, 43);
        lemma_entry(43, 1, 13);
    } else if s == 23 {
        lemma_entry(23, 0, 23);
        lemma_wrap_entry(43, 0, 43);
        lemma_entry(43, 1, 13);
        lemma_wrap_entry(24, 0, 24);
        lemma_entry(24, 0, 24);
        lemma_wrap_entry(44, 0, 44);
        lemma_entry(44, 1, 14);
    } else if s == 24 {
        lemma_entry(24, 0, 24);
        lemma_wrap_entry(44, 0, 44);
        lemma_entry(44, 1, 14);
        lemma_wrap_entry(25, 0, 25);
        lemma_entry(25, 0, 25);
        lemma_wrap_entry(45, 0, 45);
        lemma_entry(45, 1, 15);
    } else if s == 25 {
        lemma_entry(25, 0, 25);
        lemma_wrap_entry(45, 0, 45);
        lemma_entry(45, 1, 15);
        lemma_wrap_entry(26, 0, 26);
        lemma_entry(26, 0, 26);
        lemma_wrap_entry(46, 0, 46);
        lemma_entry(46, 1, 16);
    } else if s == 26 {
        lemma_entry(26, 0, 26);
        lemma_wrap_entry(46, 0, 46);
        lemma_entry(46, 1, 16);
        lemma_wrap_entry(27, 0, 27);
        lemma_entry(27, 0, 27);
        lemma_wrap_entry(47, 0, 47);
        lemma_entry(47, 1, 17);
    } else if s == 27 {
        lemma_entry(27, 0, 27);
        lemma_wrap_entry(47, 0, 47);
        lemma_entry(47, 1, 17);
        lemma_wrap_entry(28, 0, 28);
        lemma_entry(28, 0, 28);
        lemma_wrap_entry(48, 0, 48);
        lemma_entry(48, 1, 18);
    } else if s == 28 {
        lemma_entry(28, 0, 28);
        lemma_wrap_entry(48, 0, 48);
        lemma_entry(48, 1, 18);
        lemma_wrap_entry(29, 0, 29);
        lemma_entry(29, 0, 29);
        lemma_wrap_entry(49, 0, 49);
        lemma_entry(49, 1, 19);
    } else if s == 29 {
        lemma_entry(29, 0, 29);
        lemma_wrap_entry(49, 0, 49);
        lemma_entry(49, 1, 19);
        lemma_wrap_entry(30, 0, 30);
        lemma_entry(30, 1, 0);
        lemma_wrap_entry(50, 0, 50);
        lemma_entry(50, 1, 20);
    } else if s == 30 {
        lemma_entry(30, 1, 0);
        lemma_wrap_entry(50, 0, 50);
        lemma_entry(50, 1, 20);
        lemma_wrap_entry(31, 0, 31);
        lemma_entry(31, 1, 1);
        lemma_wrap_entry(51, 0, 51);
        lemma_entry(51, 1, 21);
    } else if s == 31 {
        lemma_entry(31, 1, 1);
        lemma_wrap_entry(51, 0, 51);
        lemma_entry(51, 1, 21);
        lemma_wrap_entry(32, 0, 32);
        lemma_entry(32, 1, 2);
        lemma_wrap_entry(52, 0, 52);
        lemma_entry(52, 1, 22);
    } else if s == 32 {
        lemma_entry(32, 1, 2);
        lemma_wrap_entry(52, 0, 52);
        lemma_entry(52, 1, 22);
        lemma_wrap_entry(33, 0, 33);
        lemma_entry(33, 1, 3);
        lemma_wrap_entry(53, 0, 53);
        lemma_entry(53, 1, 23);
    } else if s == 33 {
        lemma_entry(33, 1, 3);
        lemma_wrap_entry(53, 0, 53);
        lemma_entry(53, 1, 23);
        lemma_wrap_entry(34, 0, 34);
        lemma_entry(34, 1, 4);
        lemma_wrap_entry(54, 0, 54);
        lemma_entry(54, 1, 24);
    } else if s == 34 {
        lemma_entry(34, 1, 4);
        lemma_wrap_entry(54, 0, 54);
        lemma_entry(54, 1, 24);
        lemma_wrap_entry(35, 0, 35);
        lemma_entry(35, 1, 5);
        lemma_wrap_entry(55, 0, 55);
        lemma_entry(55, 1, 25);
    } else if s == 35 {
        lemma_entry(35, 1, 5);
        lemma_wrap_entry(55, 0, 55);
        lemma_entry(55, 1, 25);
        lemma_wrap_entry(36, 0, 36);
        lemma_entry(36, 1, 6);
        lemma_wrap_entry(56, 0, 56);
        lemma_entry(56, 1, 26);
    } else if s == 36 {
        lemma_entry(36, 1, 6);
        lemma_wrap_entry(56, 0, 56);
        lemma_entry(56, 1, 26);
        lemma_wrap_entry(37, 0, 37);
        lemma_entry(37, 1, 7);
        lemma_wrap_entry(57, 0, 57);
        lemma_entry(57, 1, 27);
    } else if s == 37 {
        lemma_entry(37, 1, 7);
        lemma_wrap_entry(57, 0, 57);
        lemma_entry(57, 1, 27);
        lemma_wrap_entry(38, 0, 38);
        lemma_entry(38, 1, 8);
        lemma_wrap_entry(58, 0, 58);
        lemma_entry(58, 1, 28);
    } else if s == 38 {
        lemma_entry(38, 1, 8);
        lemma_wrap_entry(58, 0, 58);
        lemma_entry(58, 1, 28);
        lemma_wrap_entry(39, 0, 39);
        lemma_entry(39, 1, 9);
        lemma_wrap_entry(59, 0, 59);
        lemma_entry(59, 1, 29);
    } else if s == 39 {
        lemma_entry(39, 1, 9);
        lemma_wrap_entry(59, 0, 59);
        lemma_entry(59, 1, 29);
        lemma_wrap_entry(40, 0, 40);
        lemma_entry(40, 1, 10);
        lemma_wrap_entry(60, 0, 60);
        lemma_entry(60, 2, 0);
    } else if s == 40 {
        lemma_entry(40, 1, 10);
        lemma_wrap_entry(60, 0, 60);
        lemma_entry(60, 2, 0);
        lemma_wrap_entry(41, 0, 41);
        lemma_entry(41, 1, 11);
        lemma_wrap_entry(61, 0, 61);
        lemma_entry(61, 2, 1);
    } else if s == 41 {
        lemma_entry(41, 1, 11);
        lemma_wrap_entry(61, 0, 61);
        lemma_entry(61, 2, 1);
        lemma_wrap_entry(42, 0, 42);
        lemma_entry(42, 1, 12);
        lemma_wrap_entry(62, 0, 62);
        lemma_entry(62, 2, 2);
    } else if s == 42 {
        lemma_entry(42, 1, 12);
        lemma_wrap_entry(62, 0, 62);
        lemma_entry(62, 2, 2);
        lemma_wrap_entry(43, 0, 43);
        lemma_entry(43, 1, 13);
        lemma_wrap_entry(63, 0, 63);
        lemma_entry(63, 2, 3);
    } else if s == 43 {
        lemma_entry(43, 1, 13);
        lemma_wrap_entry(63, 0, 63);
        lemma_entry(63, 2, 3);
        lemma_wrap_entry(44, 0, 44);
        lemma_entry(44, 1, 14);
        lemma_wrap_entry(64, 0, 64);
        lemma_entry(64, 2, 4);
    } else if s == 44 {
        lemma_entry(44, 1, 14);
        lemma_wrap_entry(64, 0, 64);
        lemma_entry(64, 2, 4);
        lemma_wrap_entry(45, 0, 45);
        lemma_entry(45, 1, 15);
        lemma_wrap_entry(65, 0, 65);
        lemma_entry(65, 2, 5);
    } else if s == 45 {
        lemma_entry(45, 1, 15);
        lemma_wrap_entry(65, 0, 65);
        lemma_entry(65, 2, 5);
        lemma_wrap_entry(46, 0, 46);
        lemma_entry(46, 1, 16);
        lemma_wrap_entry(66, 0, 66);
        lemma_entry(66, 2, 6);
    } else if s == 46 {
        lemma_entry(46, 1, 16);
        lemma_wrap_entry(66, 0, 66);
        lemma_entry(66, 2, 6);
        lemma_wrap_entry(47, 0, 47);
        lemma_entry(47, 1, 17);
        lemma_wrap_entry(67, 0, 67);
        lemma_entry(67, 2, 7);
    } else if s == 47 {
        lemma_entry(47, 1, 17);
        lemma_wrap_entry(67, 0, 67);
        lemma_entry(67, 2, 7);
        lemma_wrap_entry(48, 0, 48);
        lemma_entry(48, 1, 18);
        lemma_wrap_entry(68, 0, 68);
        lemma_entry(68, 2, 8);
    } else if s == 48 {
        lemma_entry(48, 1, 18);
        lemma_wrap_entry(68, 0, 68);
        lemma_entry(68, 2, 8);
        lemma_wrap_entry(49, 0, 49);
        lemma_entry(49, 1, 19);
        lemma_wrap_entry(69, 0, 69);
        lemma_entry(69, 2, 9);
    } else if s == 49 {
        lemma_entry(49, 1, 19);
        lemma_wrap_entry(69, 0, 69);
        lemma_entry(69, 2, 9);
        lemma_wrap_entry(50, 0, 50);
        lemma_entry(50, 1, 20);
        lemma_wrap_entry(70, 0, 70);
        lemma_entry(70, 2, 10);
    } else if s == 50 {
        lemma_entry(50, 1, 20);
        lemma_wrap_entry(70, 0, 70);
        lemma_entry(70, 2, 10);
        lemma_wrap_entry(51, 0, 51);
        lemma_entry(51, 1, 21);
        lemma_wrap_entry(71, 0, 71);
        lemma_entry(71, 2, 11);
    } else if s == 51 {
        lemma_entry(51, 1, 21);
        lemma_wrap_entry(71, 0, 71);
        lemma_entry(71, 2, 11);
        lemma_wrap_entry(52, 0, 52);
        lemma_entry(52, 1, 22);
        lemma_wrap_entry(72, 0, 72);
        lemma_entry(72, 2, 12);
    } else if s == 52 {
        lemma_entry(52, 1, 22);
        lemma_wrap_entry(72, 0, 72);
        lemma_entry(72, 2, 12);
        lemma_wrap_entry(53, 0, 53);
        lemma_entry(53, 1, 23);
        lemma_wrap_entry(73, 0, 73);
        lemma_entry(73, 2, 13);
    } else if s == 53 {
        lemma_entry(53, 1, 23);
        lemma_wrap_entry(73, 0, 73);
        lemma_entry(73, 2, 13);
        lemma_wrap_entry(54, 0, 54);
        lemma_entry(54, 1, 24);
        lemma_wrap_entry(74, 0, 74);
        lemma_entry(74, 2, 14);
    } else if s == 54 {
        lemma_entry(54, 1, 24);
        lemma_wrap_entry(74, 0, 74);
        lemma_entry(74, 2, 14);
        lemma_wrap_entry(55, 0, 55);
        lemma_entry(55, 1, 25);
        lemma_wrap_entry(75, 0, 75);
        lemma_entry(75, 2, 15);
    } else if s == 55 {
        lemma_entry(55, 1, 25);
        lemma_wrap_entry(75, 0, 75);
        lemma_entry(75, 2, 15);
        lemma_wrap_entry(56, 0, 56);
        lemma_entry(56, 1, 26);
        lemma_wrap_entry(76, 0, 76);
        lemma_entry(76, 2, 16);
    } else if s == 56 {
        lemma_entry(56, 1, 26);
        lemma_wrap_entry(76, 0, 76);
        lemma_entry(76, 2, 16);
        lemma_wrap_entry(57, 0, 57);
        lemma_entry(57, 1, 27);
        lemma_wrap_entry(77, 0, 77);
        lemma_entry(77, 2, 17);
    } else if s == 57 {
        lemma_entry(57, 1, 27);
        lemma_wrap_entry(77, 0, 77);
        lemma_entry(77, 2, 17);
        lemma_wrap_entry(58, 0, 58);
        lemma_entry(58, 1, 28);
        lemma_wrap_entry(78, 0, 78);
        lemma_entry(78, 2, 18);
    } else if s == 58 {
        lemma_entry(58, 1, 28);
        lemma_wrap_entry(78, 0, 78);
        lemma_entry(78, 2, 18);
        lemma_wrap_entry(59, 0, 59);
        lemma_entry(59, 1, 29);
        lemma_wrap_entry(79, 0, 79);
        lemma_entry(79, 2, 19);
    } else if s == 59 {
        lemma_entry(59, 1, 29);
        lemma_wrap_entry(79, 0, 79);
        lemma_entry(79, 2, 19);
        lemma_wrap_entry(60, 0, 60);
        lemma_entry(60, 2, 0);
        lemma_wrap_entry(80, 0, 80);
        lemma_entry(80, 2, 20);
    } else if s == 60 {
        lemma_entry(60, 2, 0);
        lemma_wrap_entry(80, 0, 80);
        lemma_entry(80, 2, 20);
        lemma_wrap_entry(61, 0, 61);
        lemma_entry(61, 2, 1);
        lemma_wrap_entry(81, 0, 81);
        lemma_entry(81, 2, 21);
    } else if s == 61 {
        lemma_entry(61, 2, 1);
        lemma_wrap_entry(81, 0, 81);
        lemma_entry(81, 2, 21);
        lemma_wrap_entry(62, 0, 62);
        lemma_entry(62, 2, 2);
        lemma_wrap_entry(82, 0, 82);
        lemma_entry(82, 2, 22);
    } else if s == 62 {
        lemma_entry(62, 2, 2);
        lemma_wrap_entry(82, 0, 82);
        lemma_entry(82, 2, 22);
        lemma_wrap_entry(63, 0, 63);
        lemma_entry(63, 2, 3);
        lemma_wrap_entry(83, 0, 83);
        lemma_entry(83, 2, 23);
    } else if s == 63 {
        lemma_entry(63, 2, 3);
        lemma_wrap_entry(83, 0, 83);
        lemma_entry(83, 2, 23);
        lemma_wrap_entry(64, 0, 64);
        lemma_entry(64, 2, 4);
        lemma_wrap_entry(84, 0, 84);
        lemma_entry(84, 2, 24);
    } else if s == 64 {
        lemma_entry(64, 2, 4);
        lemma_wrap_entry(84, 0, 84);
        lemma_entry(84, 2, 24);
        lemma_wrap_entry(65, 0, 65);
        lemma_entry(65, 2, 5);
        lemma_wrap_entry(85, 0, 85);
        lemma_entry(85, 2, 25);
    } else if s == 65 {
        lemma_entry(65, 2, 5);
        lemma_wrap_entry(85, 0, 85);
        lemma_entry(85, 2, 25);
        lemma_wrap_entry(66, 0, 66);
        lemma_entry(66, 2, 6);
        lemma_wrap_entry(86, 0, 86);
        lemma_entry(86, 2, 26);
    } else if s == 66 {
        lemma_entry(66, 2, 6);
        lemma_wrap_entry(86, 0, 86);
        lemma_entry(86, 2, 26);
        lemma_wrap_entry(67, 0, 67);
        lemma_entry(67, 2, 7);
        lemma_wrap_entry(87, 0, 87);
        lemma_entry(87, 2, 27);
    } else if s == 67 {
        lemma_entry(67, 2, 7);
        lemma_wrap_entry(87, 0, 87);
        lemma_entry(87, 2, 27);
        lemma_wrap_entry(68, 0, 68);
        lemma_entry(68, 2, 8);
        lemma_wrap_entry(88, 0, 88);
        lemma_entry(88, 2, 28);
    } else if s == 68 {
        lemma_entry(68, 2, 8);
        lemma_wrap_entry(88, 0, 88);
        lemma_entry(88, 2, 28);
        lemma_wrap_entry(69, 0, 69);
        lemma_entry(69, 2, 9);
        lemma_wrap_entry(89, 0, 89);
        lemma_entry(89, 2, 29);
    } else if s == 69 {
        lemma_entry(69, 2, 9);
        lemma_wrap_entry(89, 0, 89);
        lemma_entry(89, 2, 29);
        lemma_wrap_entry(70, 0, 70);
        lemma_entry(70, 2, 10);
        lemma_wrap_entry(90, 0, 90);
        lemma_entry(90, 3, 0);
    } else if s == 70 {
        lemma_entry(70, 2, 10);
        lemma_wrap_entry(90, 0, 90);
        lemma_entry(90, 3, 0);
        lemma_wrap_entry(71, 0, 71);
        lemma_entry(71, 2, 11);
        lemma_wrap_entry(91, 0, 91);
        lemma_entry(91, 3, 1);
    } else if s == 71 {
        lemma_entry(71, 2, 11);
        lemma_wrap_entry(91, 0, 91);
        lemma_entry(91, 3, 1);
        lemma_wrap_entry(72, 0, 72);
        lemma_entry(72, 2, 12);
        lemma_wrap_entry(92, 0, 92);
        lemma_entry(92, 3, 2);
    } else if s == 72 {
        lemma_entry(72, 2, 12);
        lemma_wrap_entry(92, 0, 92);
        lemma_entry(92, 3, 2);
        lemma_wrap_entry(73, 0, 73);
        lemma_entry(73, 2, 13);
        lemma_wrap_entry(93, 0, 93);
        lemma_entry(93, 3, 3);
    } else if s == 73 {
        lemma_entry(73, 2, 13);
        lemma_wrap_entry(93, 0, 93);
        lemma_entry(93, 3, 3);
        lemma_wrap_entry(74, 0, 74);
        lemma_entry(74, 2, 14);
        lemma_wrap_entry(94, 0, 94);
        lemma_entry(94, 3, 4);
    } else if s == 74 {
        lemma_entry(74, 2, 14);
        lemma_wrap_entry(94, 0, 94);
        lemma_entry(94, 3, 4);
        lemma_wrap_entry(75, 0, 75);
        lemma_entry(75, 2, 15);
        lemma_wrap_entry(95, 0, 95);
        lemma_entry(95, 3, 5);
    } else if s == 75 {
        lemma_entry(75, 2, 15);
        lemma_wrap_entry(95, 0, 95);
        lemma_entry(95, 3, 5);
        lemma_wrap_entry(76, 0, 76);
        lemma_entry(76, 2, 16);
        lemma_wrap_entry(96, 0, 96);
        lemma_entry(96, 3, 6);
    } else if s == 76 {
        lemma_entry(76, 2, 16);
        lemma_wrap_entry(96, 0, 96);
        lemma_entry(96, 3, 6);
        lemma_wrap_entry(77, 0, 77);
        lemma_entry(77, 2, 17);
        lemma_wrap_entry(97, 0, 97);
        lemma_entry(97, 3, 7);
    } else if s == 77 {
        lemma_entry(77, 2, 17);
        lemma_wrap_entry(97, 0, 97);
        lemma_entry(97, 3, 7);
        lemma_wrap_entry(78, 0, 78);
        lemma_entry(78, 2, 18);
        lemma_wrap_entry(98, 0, 98);
        lemma_entry(98, 3, 8);
    } else if s == 78 {
        lemma_entry(78, 2, 18);
        lemma_wrap_entry(98, 0, 98);
        lemma_entry(98, 3, 8);
        lemma_wrap_entry(79, 0, 79);
        lemma_entry(79, 2, 19);
        lemma_wrap_entry(99, 0, 99);
        lemma_entry(99, 3, 9);
    } else if s == 79 {
        lemma_entry(79, 2, 19);
        lemma_wrap_entry(99, 0, 99);
        lemma_entry(99, 3, 9);
        lemma_wrap_entry(80, 0, 80);
        lemma_entry(80, 2, 20);
        lemma_wrap_entry(100, 0, 100);
        lemma_entry(100, 3, 10);
    } else if s == 80 {
        lemma_entry(80, 2, 20);
        lemma_wrap_entry(100, 0, 100);
        lemma_entry(100, 3, 10);
        lemma_wrap_entry(81, 0, 81);
        lemma_entry(81, 2, 21);
        lemma_wrap_entry(101, 0, 101);
        lemma_entry(101, 3, 11);
    } else if s == 81 {
        lemma_entry(81, 2, 21);
        lemma_wrap_entry(101, 0, 101);
        lemma_entry(101, 3, 11);
        lemma_wrap_entry(82, 0, 82);
        lemma_entry(82, 2, 22);
        lemma_wrap_entry(102, 0, 102);
        lemma_entry(102, 3, 12);
    } else if s == 82 {
        lemma_entry(82, 2, 22);
        lemma_wrap_entry(102, 0, 102);
        lemma_entry(102, 3, 12);
        lemma_wrap_entry(83, 0, 83);
        lemma_entry(83, 2, 23);
        lemma_wrap_entry(103, 0, 103);
        lemma_entry(103, 3, 13);
    } else if s == 83 {
        lemma_entry(83, 2, 23);
        lemma_wrap_entry(103, 0, 103);
        lemma_entry(103, 3, 13);
        lemma_wrap_entry(84, 0, 84);
        lemma_entry(84, 2, 24);
        lemma_wrap_entry(104, 0, 104);
        lemma_entry(104, 3, 14);
    } else if s == 84 {
        lemma_entry(84, 2, 24);
        lemma_wrap_entry(104, 0, 104);
        lemma_entry(104, 3, 14);
        lemma_wrap_entry(85, 0, 85);
        lemma_entry(85, 2, 25);
        lemma_wrap_entry(105, 0, 105);
        lemma_entry(105, 3, 15);
    } else if s == 85 {
        lemma_entry(85, 2, 25);
        lemma_wrap_entry(105, 0, 105);
        lemma_entry(105, 3, 15);
        lemma_wrap_entry(86, 0, 86);
        lemma_entry(86, 2, 26);
        lemma_wrap_entry(106, 0, 106);
        lemma_entry(106, 3, 16);
    } else if s == 86 {
        lemma_entry(86, 2, 26);
        lemma_wrap_entry(106, 0, 106);
        lemma_entry(106, 3, 16);
        lemma_wrap_entry(87, 0, 87);
        lemma_entry(87, 2, 27);
        lemma_wrap_entry(107, 0, 107);
        lemma_entry(107, 3, 17);
    } else if s == 87 {
        lemma_entry(87, 2, 27);
        lemma_wrap_entry(107, 0, 107);
        lemma_entry(107, 3, 17);
        lemma_wrap_entry(88, 0, 88);
        lemma_entry(88, 2, 28);
        lemma_wrap_entry(108, 0, 108);
        lemma_entry(108, 3, 18);
    } else if s == 88 {
        lemma_entry(88, 2, 28);
        lemma_wrap_entry(108, 0, 108);
        lemma_entry(108, 3, 18);
        lemma_wrap_entry(89, 0, 89);
        lemma_entry(89, 2, 29);
        lemma_wrap_entry(109, 0, 109);
        lemma_entry(109, 3, 19);
    } else if s == 89 {
        lemma_entry(89, 2, 29);
        lemma_wrap_entry(109, 0, 109);
        lemma_entry(109, 3, 19);
        lemma_wrap_entry(90, 0, 90);
        lemma_entry(90, 3, 0);
        lemma_wrap_entry(110, 0, 110);
        lemma_entry(110, 3, 20);
    } else if s == 90 {
        lemma_entry(90, 3, 0);
        lemma_wrap_entry(110, 0, 110);
        lemma_entry(110, 3, 20);
        lemma_wrap_entry(91, 0, 91);
        lemma_entry(91, 3, 1);
        lemma_wrap_entry(111, 0, 111);
        lemma_entry(111, 3, 21);
    } else if s == 91 {
        lemma_entry(91, 3, 1);
        lemma_wrap_entry(111, 0, 111);
        lemma_entry(111, 3, 21);
        lemma_wrap_entry(92, 0, 92);
        lemma_entry(92, 3, 2);
        lemma_wrap_entry(112, 0, 112);
        lemma_entry(112, 3, 22);
    } else if s == 92 {
        lemma_entry(92, 3, 2);
        lemma_wrap_entry(112, 0, 112);
        lemma_entry(112, 3, 22);
        lemma_wrap_entry(93, 0, 93);
        lemma_entry(93, 3, 3);
        lemma_wrap_entry(113, 0, 113);
        lemma_entry(113, 3, 23);
    } else if s == 93 {
        lemma_entry(93, 3, 3);
        lemma_wrap_entry(113, 0, 113);
        lemma_entry(113, 3, 23);
        lemma_wrap_entry(94, 0, 94);
        lemma_entry(94, 3, 4);
        lemma_wrap_entry(114, 0, 114);
        lemma_entry(114, 3, 24);
    } else if s == 94 {
        lemma_entry(94, 3, 4);
        lemma_wrap_entry(114, 0, 114);
        lemma_entry(114, 3, 24);
        lemma_wrap_entry(95, 0, 95);
        lemma_entry(95, 3, 5);
        lemma_wrap_entry(115, 0, 115);
        lemma_entry(115, 3, 25);
    } else if s == 95 {
        lemma_entry(95, 3, 5);
        lemma_wrap_entry(115, 0, 115);
        lemma_entry(115, 3, 25);
        lemma_wrap_entry(96, 0, 96);
        lemma_entry(96, 3, 6);
        lemma_wrap_entry(116, 0, 116);
        lemma_entry(116, 3, 26);
    } else if s == 96 {
        lemma_entry(96, 3, 6);
        lemma_wrap_entry(116, 0, 116);
        lemma_entry(116, 3, 26);
        lemma_wrap_entry(97, 0, 97);
        lemma_entry(97, 3, 7);
        lemma_wrap_entry(117, 0, 117);
        lemma_entry(117, 3, 27);
    } else if s == 97 {
        lemma_entry(97, 3, 7);
        lemma_wrap_entry(117, 0, 117);
        lemma_entry(117, 3, 27);
        lemma_wrap_entry(98, 0, 98);
        lemma_entry(98, 3, 8);
        lemma_wrap_entry(118, 0, 118);
        lemma_entry(118, 3, 28);
    } else if s == 98 {
        lemma_entry(98, 3, 8);
        lemma_wrap_entry(118, 0, 118);
        lemma_entry(118, 3, 28);
        lemma_wrap_entry(99, 0, 99);
        lemma_entry(99, 3, 9);
        lemma_wrap_entry(119, 0, 119);
        lemma_entry(119, 3, 29);
    } else if s == 99 {
        lemma_entry(99, 3, 9);
        lemma_wrap_entry(119, 0, 119);
        lemma_entry(119, 3, 29);
        lemma_wrap_entry(100, 0, 100);
        lemma_entry(100, 3, 10);
        lemma_wrap_entry(120, 1, 0);
        lemma_entry(0, 0, 0);
    } else if s == 100 {
        lemma_entry(100, 3, 10);
        lemma_wrap_entry(120, 1, 0);
        lemma_entry(0, 0, 0);
        lemma_wrap_entry(101, 0, 101);
        lemma_entry(101, 3, 11);
        lemma_wrap_entry(1, 0, 1);
        lemma_entry(1, 0, 1);
    } else if s == 101 {
        lemma_entry(101, 3, 11);
        lemma_wrap_entry(121, 1, 1);
        lemma_entry(1, 0, 1);
        lemma_wrap_entry(102, 0, 102);
        lemma_entry(102, 3, 12);
        lemma_wrap_entry(2, 0, 2);
        lemma_entry(2, 0, 2);
    } else if s == 102 {
        lemma_entry(102, 3, 12);
        lemma_wrap_entry(122, 1, 2);
        lemma_entry(2, 0, 2);
        lemma_wrap_entry(103, 0, 103);
        lemma_entry(103, 3, 13);
        lemma_wrap_entry(3, 0, 3);
        lemma_entry(3, 0, 3);
    } else if s == 103 {
        lemma_entry(103, 3, 13);
        lemma_wrap_entry(123, 1, 3);
        lemma_entry(3, 0, 3);
        lemma_wrap_entry(104, 0, 104);
        lemma_entry(104, 3, 14);
        lemma_wrap_entry(4, 0, 4);
        lemma_entry(4, 0, 4);
    } else if s == 104 {
        lemma_entry(104, 3, 14);
        lemma_wrap_entry(124, 1, 4);
        lemma_entry(4, 0, 4);
        lemma_wrap_entry(105, 0, 105);
        lemma_entry(105, 3, 15);
        lemma_wrap_entry(5, 0, 5);
        lemma_entry(5, 0, 5);
    } else if s == 105 {
        lemma_entry(105, 3, 15);
        lemma_wrap_entry(125, 1, 5);
        lemma_entry(5, 0, 5);
        lemma_wrap_entry(106, 0, 106);
        lemma_entry(106, 3, 16);
        lemma_wrap_entry(6, 0, 6);
        lemma_entry(6, 0, 6);
    } else if s == 106 {
        lemma_entry(106, 3, 16);
        lemma_wrap_entry(126, 1, 6);
        lemma_entry(6, 0, 6);
        lemma_wrap_entry(107, 0, 107);
        lemma_entry(107, 3, 17);
        lemma_wrap_entry(7, 0, 7);
        lemma_entry(7, 0, 7);
    } else if s == 107 {
        lemma_entry(107, 3, 17);
        lemma_wrap_entry(127, 1, 7);
        lemma_entry(7, 0, 7);
        lemma_wrap_entry(108, 0, 108);
        lemma_entry(108, 3, 18);
        lemma_wrap_entry(8, 0, 8);
        lemma_entry(8, 0, 8);
    } else if s == 108 {
        lemma_entry(108, 3, 18);
        lemma_wrap_entry(128, 1, 8);
        lemma_entry(8, 0, 8);
        lemma_wrap_entry(109, 0, 109);
        lemma_entry(109, 3, 19);
        lemma_wrap_entry(9, 0, 9);
        lemma_entry(9, 0, 9);
    } else if s == 109 {
        lemma_entry(109, 3, 19);
        lemma_wrap_entry(129, 1, 9);
        lemma_entry(9, 0, 9);
        lemma_wrap_entry(110, 0, 110);
        lemma_entry(110, 3, 20);
        lemma_wrap_entry(10, 0, 10);
        lemma_entry(10, 0, 10);
    } else if s == 110 {
        lemma_entry(110, 3, 20);
        lemma_wrap_entry(130, 1, 10);
        lemma_entry(10, 0, 10);
        lemma_wrap_entry(111, 0, 111);
        lemma_entry(111, 3, 21);
        lemma_wrap_entry(11, 0, 11);
        lemma_entry(11, 0, 11);
    } else if s == 111 {
        lemma_entry(111, 3, 21);
        lemma_wrap_entry(131, 1, 11);
        lemma_entry(11, 0, 11);
        lemma_wrap_entry(112, 0, 112);
        lemma_entry(112, 3, 22);
        lemma_wrap_entry(12, 0, 12);
        lemma_entry(12, 0, 12);
    } else if s == 112 {
        lemma_entry(112, 3, 22);
        lemma_wrap_entry(132, 1, 12);
        lemma_entry(12, 0, 12);
        lemma_wrap_entry(113, 0, 113);
        lemma_entry(113, 3, 23);
        lemma_wrap_entry(13, 0, 13);
        lemma_entry(13, 0, 13);
    } else if s == 113 {
        lemma_entry(113, 3, 23);
        lemma_wrap_entry(133, 1, 13);
        lemma_entry(13, 0, 13);
        lemma_wrap_entry(114, 0, 114);
        lemma_entry(114, 3, 24);
        lemma_wrap_entry(14, 0, 14);
        lemma_entry(14, 0, 14);
    } else if s == 114 {
        lemma_entry(114, 3, 24);
        lemma_wrap_entry(134, 1, 14);
        lemma_entry(14, 0, 14);
        lemma_wrap_entry(115, 0, 115);
        lemma_entry(115, 3, 25);
        lemma_wrap_entry(15, 0, 15);
        lemma_entry(15, 0, 15);
    } else if s == 115 {
        lemma_entry(115, 3, 25);
        lemma_wrap_entry(135, 1, 15);
        lemma_entry(15, 0, 15);
        lemma_wrap_entry(116, 0, 116);
        lemma_entry(116, 3, 26);
        lemma_wrap_entry(16, 0, 16);
        lemma_entry(16, 0, 16);
    } else if s == 116 {
        lemma_entry(116, 3, 26);
        lemma_wrap_entry(136, 1, 16);
        lemma_entry(16, 0, 16);
        lemma_wrap_entry(117, 0, 117);
        lemma_entry(117, 3, 27);
        lemma_wrap_entry(17, 0, 17);
        lemma_entry(17, 0, 17);
    } else if s == 117 {
        lemma_entry(117, 3, 27);
        lemma_wrap_entry(137, 1, 17);
        lemma_entry(17, 0, 17);
        lemma_wrap_entry(118, 0, 118);
        lemma_entry(118, 3, 28);
        lemma_wrap_entry(18, 0, 18);
        lemma_entry(18, 0, 18);
    } else if s == 118 {
        lemma_entry(118, 3, 28);
        lemma_wrap_entry(138, 1, 18);
        lemma_entry(18, 0, 18);
        lemma_wrap_entry(119, 0, 119);
        lemma_entry(119, 3, 29);
        lemma_wrap_entry(19, 0, 19);
        lemma_entry(19, 0, 19);
    } else {
        lemma_entry(119, 3, 29);
        lemma_wrap_entry(139, 1, 19);
        lemma_entry(19, 0, 19);
        lemma_wrap_entry(120, 1, 0);
        lemma_entry(0, 0, 0);
        lemma_wrap_entry(20, 0, 20);
        lemma_entry(20, 0, 20);
    }
}

/// Table intervals 24 entries apart are set apart at both ends.
#[verifier::rlimit(100)]
#[verifier::spinoff_prover]
pub proof fn lemma_table_apart_24(s: int)
    requires
        0 <= s < 4 * QUARTER_STEPS,
    ensures
        table_apart(s, 24),
{
    if s == 0 {
        lemma_entry(0, 0, 0);
        lemma_wrap_entry(24, 0, 24);
        lemma_entry(24, 0, 24);
        lemma_wrap_entry(1, 0, 1);
        lemma_entry(1, 0, 1);
        lemma_wrap_entry(25, 0, 25);
        lemma_entry(25, 0, 25);
    } else if s == 1 {
        lemma_entry(1, 0, 1);
        lemma_wrap_entry(25, 0, 25);
        lemma_entry(25, 0, 25);
        lemma_wrap_entry(2, 0, 2);
        lemma_entry(2, 0, 2);
        lemma_wrap_entry(26, 0, 26);
        lemma_entry(26, 0, 26);
    } else if s == 2 {
        lemma_entry(2, 0, 2);
        lemma_wrap_entry(26, 0, 26);
        lemma_entry(26, 0, 26);
        lemma_wrap_entry(3, 0, 3);
        lemma_entry(3, 0, 3);
        lemma_wrap_entry(27, 0, 27);
        lemma_entry(27, 0, 27);
    } else if s == 3 {
        lemma_entry(3, 0, 3);
        lemma_wrap_entry(27, 0, 27);
        lemma_entry(27, 0, 27);
        lemma_wrap_entry(4, 0, 4);
        lemma_entry(4, 0, 4);
        lemma_wrap_entry(28, 0, 28);
        lemma_entry(28, 0, 28);
    } else if s == 4 {
        lemma_entry(4, 0, 4);
        lemma_wrap_entry(28, 0, 28);
        lemma_entry(28, 0, 28);
        lemma_wrap_entry(5, 0, 5);
        lemma_entry(5, 0, 5);
        lemma_wrap_entry(29, 0, 29);
        lemma_entry(29, 0, 29);
    } else if s == 5 {
        lemma_entry(5, 0, 5);
        lemma_wrap_entry(29, 0, 29);
        lemma_entry(29, 0, 29);
        lemma_wrap_entry(6, 0, 6);
        lemma_entry(6, 0, 6);
        lemma_wrap_entry(30, 0, 30);
        lemma_entry(30, 1, 0);
    } else if s == 6 {
        lemma_entry(6, 0, 6);
        lemma_wrap_entry(30, 0, 30);
        lemma_entry(30, 1, 0);
        lemma_wrap_entry(7, 0, 7);
        lemma_entry(7, 0, 7);
        lemma_wrap_entry(31, 0, 31);
        lemma_entry(31, 1, 1);
    } else if s == 7 {
        lemma_entry(7, 0, 7);
        lemma_wrap_entry(31, 0, 31);
        lemma_entry(31, 1, 1);
        lemma_wrap_entry(8, 0, 8);
        lemma_entry(8, 0, 8);
        lemma_wrap_entry(32, 0, 32);
        lemma_entry(32, 1, 2);
    } else if s == 8 {
        lemma_entry(8, 0, 8);
        lemma_wrap_entry(32, 0, 32);
        lemma_entry(32, 1, 2);
        lemma_wrap_entry(9, 0, 9);
        lemma_entry(9, 0, 9);
        lemma_wrap_entry(33, 0, 33);
        lemma_entry(33, 1, 3);
    } else if s == 9 {
        lemma_entry(9, 0, 9);
        lemma_wrap_entry(33, 0, 33);
        lemma_entry(33, 1, 3);
        lemma_wrap_entry(10, 0, 10);
        lemma_entry(10, 0, 10);
        lemma_wrap_entry(34, 0, 34);
        lemma_entry(34, 1, 4);
    } else if s == 10 {
        lemma_entry(10, 0, 10);
        lemma_wrap_entry(34, 0, 34);
        lemma_entry(34, 1, 4);
        lemma_wrap_entry(11, 0, 11);
        lemma_entry(11, 0, 11);
        lemma_wrap_entry(35, 0, 35);
        lemma_entry(35, 1, 5);
    } else if s == 11 {
        lemma_entry(11, 0, 11);
        lemma_wrap_entry(35, 0, 35);
        lemma_entry(35, 1, 5);
        lemma_wrap_entry(12, 0, 12);
        lemma_entry(12, 0, 12);
        lemma_wrap_entry(36, 0, 36);
        lemma_entry(36, 1, 6);
    } else if s == 12 {
        lemma_entry(12, 0, 12);
        lemma_wrap_entry(36, 0, 36);
        lemma_entry(36, 1, 6);
        lemma_wrap_entry(13, 0, 13);
        lemma_entry(13, 0, 13);
        lemma_wrap_entry(37, 0, 37);
        lemma_entry(37, 1, 7);
    } else if s == 13 {
        lemma_entry(13, 0, 13);
        lemma_wrap_entry(37, 0, 37);
        lemma_entry(37, 1, 7);
        lemma_wrap_entry(14, 0, 14);
        lemma_entry(14, 0, 14);
        lemma_wrap_entry(38, 0, 38);
        lemma_entry(38, 1, 8);
    } else if s == 14 {
        lemma_entry(14, 0, 14);
        lemma_wrap_entry(38, 0, 38);
        lemma_entry(38, 1, 8);
        lemma_wrap_entry(15, 0, 15);
        lemma_entry(15, 0, 15);
        lemma_wrap_entry(39, 0, 39);
        lemma_entry(39, 1, 9);
    } else if s == 15 {
        lemma_entry(15, 0, 15);
        lemma_wrap_entry(39, 0, 39);
        lemma_entry(39, 1, 9);
        lemma_wrap_entry(16, 0, 16);
        lemma_entry(16, 0, 16);
        lemma_wrap_entry(40, 0, 40);
        lemma_entry(40, 1, 10);
    } else if s == 16 {
        lemma_entry(16, 0, 16);
        lemma_wrap_entry(40, 0, 40);
        lemma_entry(40, 1, 10);
        lemma_wrap_entry(17, 0, 17);
        lemma_entry(17, 0, 17);
        lemma_wrap_entry(41, 0, 41);
        lemma_entry(41, 1, 11);
    } else if s == 17 {
        lemma_entry(17, 0, 17);
        lemma_wrap_entry(41, 0, 41);
        lemma_entry(41, 1, 11);
        lemma_wrap_entry(18, 0, 18);
        lemma_entry(18, 0, 18);
        lemma_wrap_entry(42, 0, 42);
        lemma_entry(42, 1, 12);
    } else if s == 18 {
        lemma_entry(18, 0, 18);
        lemma_wrap_entry(42, 0, 42);
        lemma_entry(42, 1, 12);
        lemma_wrap_entry(19, 0, 19);
        lemma_entry(19, 0, 19);
        lemma_wrap_entry(43, 0, 43);
        lemma_entry(43, 1, 13);
    } else if s == 19 {
        lemma_entry(19, 0, 19);
        lemma_wrap_entry(43, 0, 43);
        lemma_entry(43, 1, 13);
        lemma_wrap_entry(20, 0, 20);
        lemma_entry(20, 0, 20);
        lemma_wrap_entry(44, 0, 44);
        lemma_entry(44, 1, 14);
    } else if s == 20 {
        lemma_entry(20, 0, 20);
        lemma_wrap_entry(44, 0, 44);
        lemma_entry(44, 1, 14);
        lemma_wrap_entry(21, 0, 21);
        lemma_entry(21, 0, 21);
        lemma_wrap_entry(45, 0, 45);
        lemma_entry(45, 1, 15);
    } else if s == 21 {
        lemma_entry(21, 0, 21);
        lemma_wrap_entry(45, 0, 45);
        lemma_entry(45, 1, 15);
        lemma_wrap_entry(22, 0, 22);
        lemma_entry(22, 0, 22);
        lemma_wrap_entry(46, 0, 46);
        lemma_entry(46, 1, 16);
    } else if s == 22 {
        lemma_entry(22, 0, 22);
        lemma_wrap_entry(46, 0, 46);
        lemma_entry(46, 1, 16);
        lemma_wrap_entry(23, 0, 23);
        lemma_entry(23, 0, 23);
        lemma_wrap_entry(47, 0, 47);
        lemma_entry(47, 1, 17);
    } else if s == 23 {
        lemma_entry(23, 0, 23);
        lemma_wrap_entry(47, 0, 47);
        lemma_entry(47, 1, 17);
        lemma_wrap_entry(24, 0, 24);
        lemma_entry(24, 0, 24);
        lemma_wrap_entry(48, 0, 48);
        lemma_entry(48, 1, 18);
    } else if s == 24 {
        lemma_entry(24, 0, 24);
        lemma_wrap_entry(48, 0, 48);
        lemma_entry(48, 1, 18);
        lemma_wrap_entry(25, 0, 25);
        lemma_entry(25, 0, 25);
        lemma_wrap_entry(49, 0, 49);
        lemma_entry(49, 1, 19);
    } else if s == 25 {
        lemma_entry(25, 0, 25);
        lemma_wrap_entry(49, 0, 49);
        lemma_entry(49, 1, 19);
        lemma_wrap_entry(26, 0, 26);
        lemma_entry(26, 0, 26);
        lemma_wrap_entry(50, 0, 50);
        lemma_entry(50, 1, 20);
    } else if s == 26 {
        lemma_entry(26, 0, 26);
        lemma_wrap_entry(50, 0, 50);
        lemma_entry(50, 1, 20);
        lemma_wrap_entry(27, 0, 27);
        lemma_entry(27, 0, 27);
        lemma_wrap_entry(51, 0, 51);
        lemma_entry(51, 1, 21);
    } else if s == 27 {
        lemma_entry(27, 0, 27);
        lemma_wrap_entry(51, 0, 51);
        lemma_entry(51, 1, 21);
        lemma_wrap_entry(28, 0, 28);
        lemma_entry(28, 0, 28);
        lemma_wrap_entry(52, 0, 52);
        lemma_entry(52, 1, 22);
    } else if s == 28 {
        lemma_entry(28, 0, 28);
        lemma_wrap_entry(52, 0, 52);
        lemma_entry(52, 1, 22);
        lemma_wrap_entry(29, 0, 29);
        lemma_entry(29, 0, 29);
        lemma_wrap_entry(53, 0, 53);
        lemma_entry(53, 1, 23);
    } else if s == 29 {
        lemma_entry(29, 0, 29);
        lemma_wrap_entry(53, 0, 53);
        lemma_entry(53, 1, 23);
        lemma_wrap_entry(30, 0, 30);
        lemma_entry(30, 1, 0);
        lemma_wrap_entry(54, 0, 54);
        lemma_entry(54, 1, 24);
    } else if s == 30 {
        lemma_entry(30, 1, 0);
        lemma_wrap_entry(54, 0, 54);
        lemma_entry(54, 1, 24);
        lemma_wrap_entry(31, 0, 31);
        lemma_entry(31, 1, 1);
        lemma_wrap_entry(55, 0, 55);
        lemma_entry(55, 1, 25);
    } else if s == 31 {
        lemma_entry(31, 1, 1);
        lemma_wrap_entry(55, 0, 55);
        lemma_entry(55, 1, 25);
        lemma_wrap_entry(32, 0, 32);
        lemma_entry(32, 1, 2);
        lemma_wrap_entry(56, 0, 56);
        lemma_entry(56, 1, 26);
    } else if s == 32 {
        lemma_entry(32, 1, 2);
        lemma_wrap_entry(56, 0, 56);
        lemma_entry(56, 1, 26);
        lemma_wrap_entry(33, 0, 33);
        lemma_entry(33, 1, 3);
        lemma_wrap_entry(57, 0, 57);
        lemma_entry(57, 1, 27);
    } else if s == 33 {
        lemma_entry(33, 1, 3);
        lemma_wrap_entry(57, 0, 57);
        lemma_entry(57, 1, 27);
        lemma_wrap_entry(34, 0, 34);
        lemma_entry(34, 1, 4);
        lemma_wrap_entry(58, 0, 58);
        lemma_entry(58, 1, 28);
    } else if s == 34 {
        lemma_entry(34, 1, 4);
        lemma_wrap_entry(58, 0, 58);
        lemma_entry(58, 1, 28);
        lemma_wrap_entry(35, 0, 35);
        lemma_entry(35, 1, 5);
        lemma_wrap_entry(59, 0, 59);
        lemma_entry(59, 1, 29);
    } else if s == 35 {
        lemma_entry(35, 1, 5);
        lemma_wrap_entry(59, 0, 59);
        lemma_entry(59, 1, 29);
        lemma_wrap_entry(36, 0, 36);
        lemma_entry(36, 1, 6);
        lemma_wrap_entry(60, 0, 60);
        lemma_entry(60, 2, 0);
    } else if s == 36 {
        lemma_entry(36, 1, 6);
        lemma_wrap_entry(60, 0, 60);
        lemma_entry(60, 2, 0);
        lemma_wrap_entry(37, 0, 37);
        lemma_entry(37, 1, 7);
        lemma_wrap_entry(61, 0, 61);
        lemma_entry(61, 2, 1);
    } else if s == 37 {
        lemma_entry(37, 1, 7);
        lemma_wrap_entry(61, 0, 61);
        lemma_entry(61, 2, 1);
        lemma_wrap_entry(38, 0, 38);
        lemma_entry(38, 1, 8);
        lemma_wrap_entry(62, 0, 62);
        lemma_entry(62, 2, 2);
    } else if s == 38 {
        lemma_entry(38, 1, 8);
        lemma_wrap_entry(62, 0, 62);
        lemma_entry(62, 2, 2);
        lemma_wrap_entry(39, 0, 39);
        lemma_entry(39, 1, 9);
        lemma_wrap_entry(63, 0, 63);
        lemma_entry(63, 2, 3);
    } else if s == 39 {
        lemma_entry(39, 1, 9);
        lemma_wrap_entry(63, 0, 63);
        lemma_entry(63, 2, 3);
        lemma_wrap_entry(40, 0, 40);
        lemma_entry(40, 1, 10);
        lemma_wrap_entry(64, 0, 64);
        lemma_entry(64, 2, 4);
    } else if s == 40 {
        lemma_entry(40, 1, 10);
        lemma_wrap_entry(64, 0, 64);
        lemma_entry(64, 2, 4);
        lemma_wrap_entry(41, 0, 41);
        lemma_entry(41, 1, 11);
        lemma_wrap_entry(65, 0, 65);
        lemma_entry(65, 2, 5);
    } else if s == 41 {
        lemma_entry(41, 1, 11);
        lemma_wrap_entry(65, 0, 65);
        lemma_entry(65, 2, 5);
        lemma_wrap_entry(42, 0, 42);
        lemma_entry(42, 1, 12);
        lemma_wrap_entry(66, 0, 66);
        lemma_entry(66, 2, 6);
    } else if s == 42 {
        lemma_entry(42, 1, 12);
        lemma_wrap_entry(66, 0, 66);
        lemma_entry(66, 2, 6);
        lemma_wrap_entry(43, 0, 43);
        lemma_entry(43, 1, 13);
        lemma_wrap_entry(67, 0, 67);
        lemma_entry(67, 2, 7);
    } else if s == 43 {
        lemma_entry(43, 1, 13);
        lemma_wrap_entry(67, 0, 67);
        lemma_entry(67, 2, 7);
        lemma_wrap_entry(44, 0, 44);
        lemma_entry(44, 1, 14);
        lemma_wrap_entry(68, 0, 68);
        lemma_entry(68, 2, 8);
    } else if s == 44 {
        lemma_entry(44, 1, 14);
        lemma_wrap_entry(68, 0, 68);
        lemma_entry(68, 2, 8);
        lemma_wrap_entry(45, 0, 45);
        lemma_entry(45, 1, 15);
        lemma_wrap_entry(69, 0, 69);
        lemma_entry(69, 2, 9);
    } else if s == 45 {
        lemma_entry(45, 1, 15);
        lemma_wrap_entry(69, 0, 69);
        lemma_entry(69, 2, 9);
        lemma_wrap_entry(46, 0, 46);
        lemma_entry(46, 1, 16);
        lemma_wrap_entry(70, 0, 70);
        lemma_entry(70, 2, 10);
    } else if s == 46 {
        lemma_entry(46, 1, 16);
        lemma_wrap_entry(70, 0, 70);
        lemma_entry(70, 2, 10);
        lemma_wrap_entry(47, 0, 47);
        lemma_entry(47, 1, 17);
        lemma_wrap_entry(71, 0, 71);
        lemma_entry(71, 2, 11);
    } else if s == 47 {
        lemma_entry(47, 1, 17);
        lemma_wrap_entry(71, 0, 71);
        lemma_entry(71, 2, 11);
        lemma_wrap_entry(48, 0, 48);
        lemma_entry(48, 1, 18);
        lemma_wrap_entry(72, 0, 72);
        lemma_entry(72, 2, 12);
    } else if s == 48 {
        lemma_entry(48, 1, 18);
        lemma_wrap_entry(72, 0, 72);
        lemma_entry(72, 2, 12);
        lemma_wrap_entry(49, 0, 49);
        lemma_entry(49, 1, 19);
        lemma_wrap_entry(73, 0, 73);
        lemma_entry(73, 2, 13);
    } else if s == 49 {
        lemma_entry(49, 1, 19);
        lemma_wrap_entry(73, 0, 73);
        lemma_entry(73, 2, 13);
        lemma_wrap_entry(50, 0, 50);
        lemma_entry(50, 1, 20);
        lemma_wrap_entry(74, 0, 74);
        lemma_entry(74, 2, 14);
    } else if s == 50 {
        lemma_entry(50, 1, 20);
        lemma_wrap_entry(74, 0, 74);
        lemma_entry(74, 2, 14);
        lemma_wrap_entry(51, 0, 51);
        lemma_entry(51, 1, 21);
        lemma_wrap_entry(75, 0, 75);
        lemma_entry(75, 2, 15);
    } else if s == 51 {
        lemma_entry(51, 1, 21);
        lemma_wrap_entry(75, 0, 75);
        lemma_entry(75, 2, 15);
        lemma_wrap_entry(52, 0, 52);
        lemma_entry(52, 1, 22);
        lemma_wrap_entry(76, 0, 76);
        lemma_entry(76, 2, 16);
    } else if s == 52 {
        lemma_entry(52, 1, 22);
        lemma_wrap_entry(76, 0, 76);
        lemma_entry(76, 2, 16);
        lemma_wrap_entry(53, 0, 53);
        lemma_entry(53, 1, 23);
        lemma_wrap_entry(77, 0, 77);
        lemma_entry(77, 2, 17);
    } else if s == 53 {
        lemma_entry(53, 1, 23);
        lemma_wrap_entry(77, 0, 77);
        lemma_entry(77, 2, 17);
        lemma_wrap_entry(54, 0, 54);
        lemma_entry(54, 1, 24);
        lemma_wrap_entry(78, 0, 78);
        lemma_entry(78, 2, 18);
    } else if s == 54 {
        lemma_entry(54, 1, 24);
        lemma_wrap_entry(78, 0, 78);
        lemma_entry(78, 2, 18);
        lemma_wrap_entry(55, 0, 55);
        lemma_entry(55, 1, 25);
        lemma_wrap_entry(79, 0, 79);
        lemma_entry(79, 2, 19);
    } else if s == 55 {
        lemma_entry(55, 1, 25);
        lemma_wrap_entry(79, 0, 79);
        lemma_entry(79, 2, 19);
        lemma_wrap_entry(56, 0, 56);
        lemma_entry(56, 1, 26);
        lemma_wrap_entry(80, 0, 80);
        lemma_entry(80, 2, 20);
    } else if s == 56 {
        lemma_entry(56, 1, 26);
        lemma_wrap_entry(80, 0, 80);
        lemma_entry(80, 2, 20);
        lemma_wrap_entry(57, 0, 57);
        lemma_entry(57, 1, 27);
        lemma_wrap_entry(81, 0, 81);
        lemma_entry(81, 2, 21);
    } else if s == 57 {
        lemma_entry(57, 1, 27);
        lemma_wrap_entry(81, 0, 81);
        lemma_entry(81, 2, 21);
        lemma_wrap_entry(58, 0, 58);
        lemma_entry(58, 1, 28);
        lemma_wrap_entry(82, 0, 82);
        lemma_entry(82, 2, 22);
    } else if s == 58 {
        lemma_entry(58, 1, 28);
        lemma_wrap_entry(82, 0, 82);
        lemma_entry(82, 2, 22);
        lemma_wrap_entry(59, 0, 59);
        lemma_entry(59, 1, 29);
        lemma_wrap_entry(83, 0, 83);
        lemma_entry(83, 2, 23);
    } else if s == 59 {
        lemma_entry(59, 1, 29);
        lemma_wrap_entry(83, 0, 83);
        lemma_entry(83, 2, 23);
        lemma_wrap_entry(60, 0, 60);
        lemma_entry(60, 2, 0);
        lemma_wrap_entry(84, 0, 84);
        lemma_entry(84, 2, 24);
    } else if s == 60 {
        lemma_entry(60, 2, 0);
        lemma_wrap_entry(84, 0, 84);
        lemma_entry(84, 2, 24);
        lemma_wrap_entry(61, 0, 61);
        lemma_entry(61, 2, 1);
        lemma_wrap_entry(85, 0, 85);
        lemma_entry(85, 2, 25);
    } else if s == 61 {
        lemma_entry(61, 2, 1);
        lemma_wrap_entry(85, 0, 85);
        lemma_entry(85, 2, 25);
        lemma_wrap_entry(62, 0, 62);
        lemma_entry(62, 2, 2);
        lemma_wrap_entry(86, 0, 86);
        lemma_entry(86, 2, 26);
    } else if s == 62 {
        lemma_entry(62, 2, 2);
        lemma_wrap_entry(86, 0, 86);
        lemma_entry(86, 2, 26);
        lemma_wrap_entry(63, 0, 63);
        lemma_entry(63, 2, 3);
        lemma_wrap_entry(87, 0, 87);
        lemma_entry(87, 2, 27);
    } else if s == 63 {
        lemma_entry(63, 2, 3);
        lemma_wrap_entry(87, 0, 87);
        lemma_entry(87, 2, 27);
        lemma_wrap_entry(64, 0, 64);
        lemma_entry(64, 2, 4);
        lemma_wrap_entry(88, 0, 88);
        lemma_entry(88, 2, 28);
    } else if s == 64 {
        lemma_entry(64, 2, 4);
        lemma_wrap_entry(88, 0, 88);
        lemma_entry(88, 2, 28);
        lemma_wrap_entry(65, 0, 65);
        lemma_entry(65, 2, 5);
        lemma_wrap_entry(89, 0, 89);
        lemma_entry(89, 2, 29);
    } else if s == 65 {
        lemma_entry(65, 2, 5);
        lemma_wrap_entry(89, 0, 89);
        lemma_entry(89, 2, 29);
        lemma_wrap_entry(66, 0, 66);
        lemma_entry(66, 2, 6);
        lemma_wrap_entry(90, 0, 90);
        lemma_entry(90, 3, 0);
    } else if s == 66 {
        lemma_entry(66, 2, 6);
        lemma_wrap_entry(90, 0, 90);
        lemma_entry(90, 3, 0);
        lemma_wrap_entry(67, 0, 67);
        lemma_entry(67, 2, 7);
        lemma_wrap_entry(91, 0, 91);
        lemma_entry(91, 3, 1);
    } else if s == 67 {
        lemma_entry(67, 2, 7);
        lemma_wrap_entry(91, 0, 91);
        lemma_entry(91, 3, 1);
        lemma_wrap_entry(68, 0, 68);
        lemma_entry(68, 2, 8);
        lemma_wrap_entry(92, 0, 92);
        lemma_entry(92, 3, 2);
    } else if s == 68 {
        lemma_entry(68, 2, 8);
        lemma_wrap_entry(92, 0, 92);
        lemma_entry(92, 3, 2);
        lemma_wrap_entry(69, 0, 69);
        lemma_entry(69, 2, 9);
        lemma_wrap_entry(93, 0, 93);
        lemma_entry(93, 3, 3);
    } else if s == 69 {
        lemma_entry(69, 2, 9);
        lemma_wrap_entry(93, 0, 93);
        lemma_entry(93, 3, 3);
        lemma_wrap_entry(70, 0, 70);
        lemma_entry(70, 2, 10);
        lemma_wrap_entry(94, 0, 94);
        lemma_entry(94, 3, 4);
    } else if s == 70 {
        lemma_entry(70, 2, 10);
        lemma_wrap_entry(94, 0, 94);
        lemma_entry(94, 3, 4);
        lemma_wrap_entry(71, 0, 71);
        lemma_entry(71, 2, 11);
        lemma_wrap_entry(95, 0, 95);
        lemma_entry(95, 3, 5);
    } else if s == 71 {
        lemma_entry(71, 2, 11);
        lemma_wrap_entry(95, 0, 95);
        lemma_entry(95, 3, 5);
        lemma_wrap_entry(72, 0, 72);
        lemma_entry(72, 2, 12);
        lemma_wrap_entry(96, 0, 96);
        lemma_entry(96, 3, 6);
    } else if s == 72 {
        lemma_entry(72, 2, 12);
        lemma_wrap_entry(96, 0, 96);
        lemma_entry(96, 3, 6);
        lemma_wrap_entry(73, 0, 73);
        lemma_entry(73, 2, 13);
        lemma_wrap_entry(97, 0, 97);
        lemma_entry(97, 3, 7);
    } else if s == 73 {
        lemma_entry(73, 2, 13);
        lemma_wrap_entry(97, 0, 97);
        lemma_entry(97, 3, 7);
        lemma_wrap_entry(74, 0, 74);
        lemma_entry(74, 2, 14);
        lemma_wrap_entry(98, 0, 98);
        lemma_entry(98, 3, 8);
    } else if s == 74 {
        lemma_entry(74, 2, 14);
        lemma_wrap_entry(98, 0, 98);
        lemma_entry(98, 3, 8);
        lemma_wrap_entry(75, 0, 75);
        lemma_entry(75, 2, 15);
        lemma_wrap_entry(99, 0, 99);
        lemma_entry(99, 3, 9);
    } else if s == 75 {
        lemma_entry(75, 2, 15);
        lemma_wrap_entry(99, 0, 99);
        lemma_entry(99, 3, 9);
        lemma_wrap_entry(76, 0, 76);
        lemma_entry(76, 2, 16);
        lemma_wrap_entry(100, 0, 100);
        lemma_entry(100, 3, 10);
    } else if s == 76 {
        lemma_entry(76, 2, 16);
        lemma_wrap_entry(100, 0, 100);
        lemma_entry(100, 3, 10);
        lemma_wrap_entry(77, 0, 77);
        lemma_entry(77, 2, 17);
        lemma_wrap_entry(101, 0, 101);
        lemma_entry(101, 3, 11);
    } else if s == 77 {
        lemma_entry(77, 2, 17);
        lemma_wrap_entry(101, 0, 101);
        lemma_entry(101, 3, 11);
        lemma_wrap_entry(78, 0, 78);
        lemma_entry(78, 2, 18);
        lemma_wrap_entry(102, 0, 102);
        lemma_entry(102, 3, 12);
    } else if s == 78 {
        lemma_entry(78, 2, 18);
        lemma_wrap_entry(102, 0, 102);
        lemma_entry(102, 3, 12);
        lemma_wrap_entry(79, 0, 79);
        lemma_entry(79, 2, 19);
        lemma_wrap_entry(103, 0, 103);
        lemma_entry(103, 3, 13);
    } else if s == 79 {
        lemma_entry(79, 2, 19);
        lemma_wrap_entry(103, 0, 103);
        lemma_entry(103, 3, 13);
        lemma_wrap_entry(80, 0, 80);
        lemma_entry(80, 2, 20);
        lemma_wrap_entry(104, 0, 104);
        lemma_entry(104, 3, 14);
    } else if s == 80 {
        lemma_entry(80, 2, 20);
        lemma_wrap_entry(104, 0, 104);
        lemma_entry(104, 3, 14);
        lemma_wrap_entry(81, 0, 81);
        lemma_entry(81, 2, 21);
        lemma_wrap_entry(105, 0, 105);
        lemma_entry(105, 3, 15);
    } else if s == 81 {
        lemma_entry(81, 2, 21);
        lemma_wrap_entry(105, 0, 105);
        lemma_entry(105, 3, 15);
        lemma_wrap_entry(82, 0, 82);
        lemma_entry(82, 2, 22);
        lemma_wrap_entry(106, 0, 106);
        lemma_entry(106, 3, 16);
    } else if s == 82 {
        lemma_entry(82, 2, 22);
        lemma_wrap_entry(106, 0, 106);
        lemma_entry(106, 3, 16);
        lemma_wrap_entry(83, 0, 83);
        lemma_entry(83, 2, 23);
        lemma_wrap_entry(107, 0, 107);
        lemma_entry(107, 3, 17);
    } else if s == 83 {
        lemma_entry(83, 2, 23);
        lemma_wrap_entry(107, 0, 107);
        lemma_entry(107, 3, 17);
        lemma_wrap_entry(84, 0, 84);
        lemma_entry(84, 2, 24);
        lemma_wrap_entry(108, 0, 108);
        lemma_entry(108, 3, 18);
    } else if s == 84 {
        lemma_entry(84, 2, 24);
        lemma_wrap_entry(108, 0, 108);
        lemma_entry(108, 3, 18);
        lemma_wrap_entry(85, 0, 85);
        lemma_entry(85, 2, 25);
        lemma_wrap_entry(109, 0, 109);
        lemma_entry(109, 3, 19);
    } else if s == 85 {
        lemma_entry(85, 2, 25);
        lemma_wrap_entry(109, 0, 109);
        lemma_entry(109, 3, 19);
        lemma_wrap_entry(86, 0, 86);
        lemma_entry(86, 2, 26);
        lemma_wrap_entry(110, 0, 110);
        lemma_entry(110, 3, 20);
    } else if s == 86 {
        lemma_entry(86, 2, 26);
        lemma_wrap_entry(110, 0, 110);
        lemma_entry(110, 3, 20);
        lemma_wrap_entry(87, 0, 87);
        lemma_entry(87, 2, 27);
        lemma_wrap_entry(111, 0, 111);
        lemma_entry(111, 3, 21);
    } else if s == 87 {
        lemma_entry(87, 2, 27);
        lemma_wrap_entry(111, 0, 111);
        lemma_entry(111, 3, 21);
        lemma_wrap_entry(88, 0, 88);
        lemma_entry(88, 2, 28);
        lemma_wrap_entry(112, 0, 112);
        lemma_entry(112, 3, 22);
    } else if s == 88 {
        lemma_entry(88, 2, 28);
        lemma_wrap_entry(112, 0, 112);
        lemma_entry(112, 3, 22);
        lemma_wrap_entry(89, 0, 89);
        lemma_entry(89, 2, 29);
        lemma_wrap_entry(113, 0, 113);
        lemma_entry(113, 3, 23);
    } else if s == 89 {
        lemma_entry(89, 2, 29);
        lemma_wrap_entry(113, 0, 113);
        lemma_entry(113, 3, 23);
        lemma_wrap_entry(90, 0, 90);
        lemma_entry(90, 3, 0);
        lemma_wrap_entry(114, 0, 114);
        lemma_entry(114, 3, 24);
    } else if s == 90 {
        lemma_entry(90, 3, 0);
        lemma_wrap_entry(114, 0, 114);
        lemma_entry(114, 3, 24);
        lemma_wrap_entry(91, 0, 91);
        lemma_entry(91, 3, 1);
        lemma_wrap_entry(115, 0, 115);
        lemma_entry(115, 3, 25);
    } else if s == 91 {
        lemma_entry(91, 3, 1);
        lemma_wrap_entry(115, 0, 115);
        lemma_entry(115, 3, 25);
        lemma_wrap_entry(92, 0, 92);
        lemma_entry(92, 3, 2);
        lemma_wrap_entry(116, 0, 116);
        lemma_entry(116, 3, 26);
    } else if s == 92 {
        lemma_entry(92, 3, 2);
        lemma_wrap_entry(116, 0, 116);
        lemma_entry(116, 3, 26);
        lemma_wrap_entry(93, 0, 93);
        lemma_entry(93, 3, 3);
        lemma_wrap_entry(117, 0, 117);
        lemma_entry(117, 3, 27);
    } else if s == 93 {
        lemma_entry(93, 3, 3);
        lemma_wrap_entry(117, 0, 117);
        lemma_entry(117, 3, 27);
        lemma_wrap_entry(94, 0, 94);
        lemma_entry(94, 3, 4);
        lemma_wrap_entry(118, 0, 118);
        lemma_entry(118, 3, 28);
    } else if s == 94 {
        lemma_entry(94, 3, 4);
        lemma_wrap_entry(118, 0, 118);
        lemma_entry(118, 3, 28);
        lemma_wrap_entry(95, 0, 95);
        lemma_entry(95, 3, 5);
        lemma_wrap_entry(119, 0, 119);
        lemma_entry(119, 3, 29);
    } else if s == 95 {
        lemma_entry(95, 3, 5);
        lemma_wrap_entry(119, 0, 119);
        lemma_entry(119, 3, 29);
        lemma_wrap_entry(96, 0, 96);
        lemma_entry(96, 3, 6);
        lemma_wrap_entry(120, 1, 0);
        lemma_entry(0, 0, 0);
    } else if s == 96 {
        lemma_entry(96, 3, 6);
        lemma_wrap_entry(120, 1, 0);
        lemma_entry(0, 0, 0);
        lemma_wrap_entry(97, 0, 97);
        lemma_entry(97, 3, 7);
        lemma_wrap_entry(1, 0, 1);
        lemma_entry(1, 0, 1);
    } else if s == 97 {
        lemma_entry(97, 3, 7);
        lemma_wrap_entry(121, 1, 1);
        lemma_entry(1, 0, 1);
        lemma_wrap_entry(98, 0, 98);
        lemma_entry(98, 3, 8);
        lemma_wrap_entry(2, 0, 2);
        lemma_entry(2, 0, 2);
    } else if s == 98 {
        lemma_entry(98, 3, 8);
        lemma_wrap_entry(122, 1, 2);
        lemma_entry(2, 0, 2);
        lemma_wrap_entry(99, 0, 99);
        lemma_entry(99, 3, 9);
        lemma_wrap_entry(3, 0, 3);
        lemma_entry(3, 0, 3);
    } else if s == 99 {
        lemma_entry(99, 3, 9);
        lemma_wrap_entry(123, 1, 3);
        lemma_entry(3, 0, 3);
        lemma_wrap_entry(100, 0, 100);
        lemma_entry(100, 3, 10);
        lemma_wrap_entry(4, 0, 4);
        lemma_entry(4, 0, 4);
    } else if s == 100 {
        lemma_entry(100, 3, 10);
        lemma_wrap_entry(124, 1, 4);
        lemma_entry(4, 0, 4);
        lemma_wrap_entry(101, 0, 101);
        lemma_entry(101, 3, 11);
        lemma_wrap_entry(5, 0, 5);
        lemma_entry(5, 0, 5);
    } else if s == 101 {
        lemma_entry(101, 3, 11);
        lemma_wrap_entry(125, 1, 5);
        lemma_entry(5, 0, 5);
        lemma_wrap_entry(102, 0, 102);
        lemma_entry(102, 3, 12);
        lemma_wrap_entry(6, 0, 6);
        lemma_entry(6, 0, 6);
    } else if s == 102 {
        lemma_entry(102, 3, 12);
        lemma_wrap_entry(126, 1, 6);
        lemma_entry(6, 0, 6);
        lemma_wrap_entry(103, 0, 103);
        lemma_entry(103, 3, 13);
        lemma_wrap_entry(7, 0, 7);
        lemma_entry(7, 0, 7);
    } else if s == 103 {
        lemma_entry(103, 3, 13);
        lemma_wrap_entry(127, 1, 7);
        lemma_entry(7, 0, 7);
        lemma_wrap_entry(104, 0, 104);
        lemma_entry(104, 3, 14);
        lemma_wrap_entry(8, 0, 8);
        lemma_entry(8, 0, 8);
    } else if s == 104 {
        lemma_entry(104, 3, 14);
        lemma_wrap_entry(128, 1, 8);
        lemma_entry(8, 0, 8);
        lemma_wrap_entry(105, 0, 105);
        lemma_entry(105, 3, 15);
        lemma_wrap_entry(9, 0, 9);
        lemma_entry(9, 0, 9);
    } else if s == 105 {
        lemma_entry(105, 3, 15);
        lemma_wrap_entry(129, 1, 9);
        lemma_entry(9, 0, 9);
        lemma_wrap_entry(106, 0, 106);
        lemma_entry(106, 3, 16);
        lemma_wrap_entry(10, 0, 10);
        lemma_entry(10, 0, 10);
    } else if s == 106 {
        lemma_entry(106, 3, 16);
        lemma_wrap_entry(130, 1, 10);
        lemma_entry(10, 0, 10);
        lemma_wrap_entry(107, 0, 107);
        lemma_entry(107, 3, 17);
        lemma_wrap_entry(11, 0, 11);
        lemma_entry(11, 0, 11);
    } else if s == 107 {
        lemma_entry(107, 3, 17);
        lemma_wrap_entry(131, 1, 11);
        lemma_entry(11, 0, 11);
        lemma_wrap_entry(108, 0, 108);
        lemma_entry(108, 3, 18);
        lemma_wrap_entry(12, 0, 12);
        lemma_entry(12, 0, 12);
    } else if s == 108 {
        lemma_entry(108, 3, 18);
        lemma_wrap_entry(132, 1, 12);
        lemma_entry(12, 0, 12);
        lemma_wrap_entry(109, 0, 109);
        lemma_entry(109, 3, 19);
        lemma_wrap_entry(13, 0, 13);
        lemma_entry(13, 0, 13);
    } else if s == 109 {
        lemma_entry(109, 3, 19);
        lemma_wrap_entry(133, 1, 13);
        lemma_entry(13, 0, 13);
        lemma_wrap_entry(110, 0, 110);
        lemma_entry(110, 3, 20);
        lemma_wrap_entry(14, 0, 14);
        lemma_entry(14, 0, 14);
    } else if s == 110 {
        lemma_entry(110, 3, 20);
        lemma_wrap_entry(134, 1, 14);
        lemma_entry(14, 0, 14);
        lemma_wrap_entry(111, 0, 111);
        lemma_entry(111, 3, 21);
        lemma_wrap_entry(15, 0, 15);
        lemma_entry(15, 0, 15);
    } else if s == 111 {
        lemma_entry(111, 3, 21);
        lemma_wrap_entry(135, 1, 15);
        lemma_entry(15, 0, 15);
        lemma_wrap_entry(112, 0, 112);
        lemma_entry(112, 3, 22);
        lemma_wrap_entry(16, 0, 16);
        lemma_entry(16, 0, 16);
    } else if s == 112 {
        lemma_entry(112, 3, 22);
        lemma_wrap_entry(136, 1, 16);
        lemma_entry(16, 0, 16);
        lemma_wrap_entry(113, 0, 113);
        lemma_entry(113, 3, 23);
        lemma_wrap_entry(17, 0, 17);
        lemma_entry(17, 0, 17);
    } else if s == 113 {
        lemma_entry(113, 3, 23);
        lemma_wrap_entry(137, 1, 17);
        lemma_entry(17, 0, 17);
        lemma_wrap_entry(114, 0, 114);
        lemma_entry(114, 3, 24);
        lemma_wrap_entry(18, 0, 18);
        lemma_entry(18, 0, 18);
    } else if s == 114 {
        lemma_entry(114, 3, 24);
        lemma_wrap_entry(138, 1, 18);
        lemma_entry(18, 0, 18);
        lemma_wrap_entry(115, 0, 115);
        lemma_entry(115, 3, 25);
        lemma_wrap_entry(19, 0, 19);
        lemma_entry(19, 0, 19);
    } else if s == 115 {
        lemma_entry(115, 3, 25);
        lemma_wrap_entry(139, 1, 19);
        lemma_entry(19, 0, 19);
        lemma_wrap_entry(116, 0, 116);
        lemma_entry(116, 3, 26);
        lemma_wrap_entry(20, 0, 20);
        lemma_entry(20, 0, 20);
    } else if s == 116 {
        lemma_entry(116, 3, 26);
        lemma_wrap_entry(140, 1, 20);
        lemma_entry(20, 0, 20);
        lemma_wrap_entry(117, 0, 117);
        lemma_entry(117, 3, 27);
        lemma_wrap_entry(21, 0, 21);
        lemma_entry(21, 0, 21);
    } else if s == 117 {
        lemma_entry(117, 3, 27);
        lemma_wrap_entry(141, 1, 21);
        lemma_entry(21, 0, 21);
        lemma_wrap_entry(118, 0, 118);
        lemma_entry(118, 3, 28);
        lemma_wrap_entry(22, 0, 22);
        lemma_entry(22, 0, 22);
    } else if s == 118 {
        lemma_entry(118, 3, 28);
        lemma_wrap_entry(142, 1, 22);
        lemma_entry(22, 0, 22);
        lemma_wrap_entry(119, 0, 119);
        lemma_entry(119, 3, 29);
        lemma_wrap_entry(23, 0, 23);
        lemma_entry(23, 0, 23);
    } else {
        lemma_entry(119, 3, 29);
        lemma_wrap_entry(143, 1, 23);
        lemma_entry(23, 0, 23);
        lemma_wrap_entry(120, 1, 0);
        lemma_entry(0, 0, 0);
        lemma_wrap_entry(24, 0, 24);
        lemma_entry(24, 0, 24);
    }
}

/// Table intervals 30 entries apart are set apart at both ends.
#[verifier::rlimit(100)]
#[verifier::spinoff_prover]
pub proof fn lemma_table_apart_30(s: int)
    requires
        0 <= s < 4 * QUARTER_STEPS,
    ensures
        table_apart(s, 30),
{
    if s == 0 {
        lemma_entry(0, 0, 0);
        lemma_wrap_entry(30, 0, 30);
        lemma_entry(30, 1, 0);
        lemma_wrap_entry(1, 0, 1);
        lemma_entry(1, 0, 1);
        lemma_wrap_entry(31, 0, 31);
        lemma_entry(31, 1, 1);
    } else if s == 1 {
        lemma_entry(1, 0, 1);
        lemma_wrap_entry(31, 0, 31);
        lemma_entry(31, 1, 1);
        lemma_wrap_entry(2, 0, 2);
        lemma_entry(2, 0, 2);
        lemma_wrap_entry(32, 0, 32);
        lemma_entry(32, 1, 2);
    } else if s == 2 {
        lemma_entry(2, 0, 2);
        lemma_wrap_entry(32, 0, 32);
        lemma_entry(32, 1, 2);
        lemma_wrap_entry(3, 0, 3);
        lemma_entry(3, 0, 3);
        lemma_wrap_entry(33, 0, 33);
        lemma_entry(33, 1, 3);
    } else if s == 3 {
        lemma_entry(3, 0, 3);
        lemma_wrap_entry(33, 0, 33);
        lemma_entry(33, 1, 3);
        lemma_wrap_entry(4, 0, 4);
        lemma_entry(4, 0, 4);
        lemma_wrap_entry(34, 0, 34);
        lemma_entry(34, 1, 4);
    } else if s == 4 {
        lemma_entry(4, 0, 4);
        lemma_wrap_entry(34, 0, 34);
        lemma_entry(34, 1, 4);
        lemma_wrap_entry(5, 0, 5);
        lemma_entry(5, 0, 5);
        lemma_wrap_entry(35, 0, 35);
        lemma_entry(35, 1, 5);
    } else if s == 5 {
        lemma_entry(5, 0, 5);
        lemma_wrap_entry(35, 0, 35);
        lemma_entry(35, 1, 5);
        lemma_wrap_entry(6, 0, 6);
        lemma_entry(6, 0, 6);
        lemma_wrap_entry(36, 0, 36);
        lemma_entry(36, 1, 6);
    } else if s == 6 {
        lemma_entry(6, 0, 6);
        lemma_wrap_entry(36, 0, 36);
        lemma_entry(36, 1, 6);
        lemma_wrap_entry(7, 0, 7);
        lemma_entry(7, 0, 7);
        lemma_wrap_entry(37, 0, 37);
        lemma_entry(37, 1, 7);
    } else if s == 7 {
        lemma_entry(7, 0, 7);
        lemma_wrap_entry(37, 0, 37);
        lemma_entry(37, 1, 7);
        lemma_wrap_entry(8, 0, 8);
        lemma_entry(8, 0, 8);
        lemma_wrap_entry(38, 0, 38);
        lemma_entry(38, 1, 8);
    } else if s == 8 {
        lemma_entry(8, 0, 8);
        lemma_wrap_entry(38, 0, 38);
        lemma_entry(38, 1, 8);
        lemma_wrap_entry(9, 0, 9);
        lemma_entry(9, 0, 9);
        lemma_wrap_entry(39, 0, 39);
        lemma_entry(39, 1, 9);
    } else if s == 9 {
        lemma_entry(9, 0, 9);
        lemma_wrap_entry(39, 0, 39);
        lemma_entry(39, 1, 9);
        lemma_wrap_entry(10, 0, 10);
        lemma_entry(10, 0, 10);
        lemma_wrap_entry(40, 0, 40);
        lemma_entry(40, 1, 10);
    } else if s == 10 {
        lemma_entry(10, 0, 10);
        lemma_wrap_entry(40, 0, 40);
        lemma_entry(40, 1, 10);
        lemma_wrap_entry(11, 0, 11);
        lemma_entry(11, 0, 11);
        lemma_wrap_entry(41, 0, 41);
        lemma_entry(41, 1, 11);
    } else if s == 11 {
        lemma_entry(11, 0, 11);
        lemma_wrap_entry(41, 0, 41);
        lemma_entry(41, 1, 11);
        lemma_wrap_entry(12, 0, 12);
        lemma_entry(12, 0, 12);
        lemma_wrap_entry(42, 0, 42);
        lemma_entry(42, 1, 12);
    } else if s == 12 {
        lemma_entry(12, 0, 12);
        lemma_wrap_entry(42, 0, 42);
        lemma_entry(42, 1, 12);
        lemma_wrap_entry(13, 0, 13);
        lemma_entry(13, 0, 13);
        lemma_wrap_entry(43, 0, 43);
        lemma_entry(43, 1, 13);
    } else if s == 13 {
        lemma_entry(13, 0, 13);
        lemma_wrap_entry(43, 0, 43);
        lemma_entry(43, 1, 13);
        lemma_wrap_entry(14, 0, 14);
        lemma_entry(14, 0, 14);
        lemma_wrap_entry(44, 0, 44);
        lemma_entry(44, 1, 14);
    } else if s == 14 {
        lemma_entry(14, 0, 14);
        lemma_wrap_entry(44, 0, 44);
        lemma_entry(44, 1, 14);
        lemma_wrap_entry(15, 0, 15);
        lemma_entry(15, 0, 15);
        lemma_wrap_entry(45, 0, 45);
        lemma_entry(45, 1, 15);
    } else if s == 15 {
        lemma_entry(15, 0, 15);
        lemma_wrap_entry(45, 0, 45);
        lemma_entry(45, 1, 15);
        lemma_wrap_entry(16, 0, 16);
        lemma_entry(16, 0, 16);
        lemma_wrap_entry(46, 0, 46);
        lemma_entry(46, 1, 16);
    } else if s == 16 {
        lemma_entry(16, 0, 16);
        lemma_wrap_entry(46, 0, 46);
        lemma_entry(46, 1, 16);
        lemma_wrap_entry(17, 0, 17);
        lemma_entry(17, 0, 17);
        lemma_wrap_entry(47, 0, 47);
        lemma_entry(47, 1, 17);
    } else if s == 17 {
        lemma_entry(17, 0, 17);
        lemma_wrap_entry(47, 0, 47);
        lemma_entry(47, 1, 17);
        lemma_wrap_entry(18, 0, 18);
        lemma_entry(18, 0, 18);
        lemma_wrap_entry(48, 0, 48);
        lemma_entry(48, 1, 18);
    } else if s == 18 {
        lemma_entry(18, 0, 18);
        lemma_wrap_entry(48, 0, 48);
        lemma_entry(48, 1, 18);
        lemma_wrap_entry(19, 0, 19);
        lemma_entry(19, 0, 19);
        lemma_wrap_entry(49, 0, 49);
        lemma_entry(49, 1, 19);
    } else if s == 19 {
        lemma_entry(19, 0, 19);
        lemma_wrap_entry(49, 0, 49);
        lemma_entry(49, 1, 19);
        lemma_wrap_entry(20, 0, 20);
        lemma_entry(20, 0, 20);
        lemma_wrap_entry(50, 0, 50);
        lemma_entry(50, 1, 20);
    } else if s == 20 {
        lemma_entry(20, 0, 20);
        lemma_wrap_entry(50, 0, 50);
        lemma_entry(50, 1, 20);
        lemma_wrap_entry(21, 0, 21);
        lemma_entry(21, 0, 21);
        lemma_wrap_entry(51, 0, 51);
        lemma_entry(51, 1, 21);
    } else if s == 21 {
        lemma_entry(21, 0, 21);
        lemma_wrap_entry(51, 0, 51);
        lemma_entry(51, 1, 21);
        lemma_wrap_entry(22, 0, 22);
        lemma_entry(22, 0, 22);
        lemma_wrap_entry(52, 0, 52);
        lemma_entry(52, 1, 22);
    } else if s == 22 {
        lemma_entry(22, 0, 22);
        lemma_wrap_entry(52, 0, 52);
        lemma_entry(52, 1, 22);
        lemma_wrap_entry(23, 0, 23);
        lemma_entry(23, 0, 23);
        lemma_wrap_entry(53, 0, 53);
        lemma_entry(53, 1, 23);
    } else if s == 23 {
        lemma_entry(23, 0, 23);
        lemma_wrap_entry(53, 0, 53);
        lemma_entry(53, 1, 23);
        lemma_wrap_entry(24, 0, 24);
        lemma_entry(24, 0, 24);
        lemma_wrap_entry(54, 0, 54);
        lemma_entry(54, 1, 24);
    } else if s == 24 {
        lemma_entry(24, 0, 24);
        lemma_wrap_entry(54, 0, 54);
        lemma_entry(54, 1, 24);
        lemma_wrap_entry(25, 0, 25);
        lemma_entry(25, 0, 25);
        lemma_wrap_entry(55, 0, 55);
        lemma_entry(55, 1, 25);
    } else if s == 25 {
        lemma_entry(25, 0, 25);
        lemma_wrap_entry(55, 0, 55);
        lemma_entry(55, 1, 25);
        lemma_wrap_entry(26, 0, 26);
        lemma_entry(26, 0, 26);
        lemma_wrap_entry(56, 0, 56);
        lemma_entry(56, 1, 26);
    } else if s == 26 {
        lemma_entry(26, 0, 26);
        lemma_wrap_entry(56, 0, 56);
        lemma_entry(56, 1, 26);
        lemma_wrap_entry(27, 0, 27);
        lemma_entry(27, 0, 27);
        lemma_wrap_entry(57, 0, 57);
        lemma_entry(57, 1, 27);
    } else if s == 27 {
        lemma_entry(27, 0, 27);
        lemma_wrap_entry(57, 0, 57);
        lemma_entry(57, 1, 27);
        lemma_wrap_entry(28, 0, 28);
        lemma_entry(28, 0, 28);
        lemma_wrap_entry(58, 0, 58);
        lemma_entry(58, 1, 28);
    } else if s == 28 {
        lemma_entry(28, 0, 28);
        lemma_wrap_entry(58, 0, 58);
        lemma_entry(58, 1, 28);
        lemma_wrap_entry(29, 0, 29);
        lemma_entry(29, 0, 29);
        lemma_wrap_entry(59, 0, 59);
        lemma_entry(59, 1, 29);
    } else if s == 29 {
        lemma_entry(29, 0, 29);
        lemma_wrap_entry(59, 0, 59);
        lemma_entry(59, 1, 29);
        lemma_wrap_entry(30, 0, 30);
        lemma_entry(30, 1, 0);
        lemma_wrap_entry(60, 0, 60);
        lemma_entry(60, 2, 0);
    } else if s == 30 {
        lemma_entry(30, 1, 0);
        lemma_wrap_entry(60, 0, 60);
        lemma_entry(60, 2, 0);
        lemma_wrap_entry(31, 0, 31);
        lemma_entry(31, 1, 1);
        lemma_wrap_entry(61, 0, 61);
        lemma_entry(61, 2, 1);
    } else if s == 31 {
        lemma_entry(31, 1, 1);
        lemma_wrap_entry(61, 0, 61);
        lemma_entry(61, 2, 1);
        lemma_wrap_entry(32, 0, 32);
        lemma_entry(32, 1, 2);
        lemma_wrap_entry(62, 0, 62);
        lemma_entry(62, 2, 2);
    } else if s == 32 {
        lemma_entry(32, 1, 2);
        lemma_wrap_entry(62, 0, 62);
        lemma_entry(62, 2, 2);
        lemma_wrap_entry(33, 0, 33);
        lemma_entry(33, 1, 3);
        lemma_wrap_entry(63, 0, 63);
        lemma_entry(63, 2, 3);
    } else if s == 33 {
        lemma_entry(33, 1, 3);
        lemma_wrap_entry(63, 0, 63);
        lemma_entry(63, 2, 3);
        lemma_wrap_entry(34, 0, 34);
        lemma_entry(34, 1, 4);
        lemma_wrap_entry(64, 0, 64);
        lemma_entry(64, 2, 4);
    } else if s == 34 {
        lemma_entry(34, 1, 4);
        lemma_wrap_entry(64, 0, 64);
        lemma_entry(64, 2, 4);
        lemma_wrap_entry(35, 0, 35);
        lemma_entry(35, 1, 5);
        lemma_wrap_entry(65, 0, 65);
        lemma_entry(65, 2, 5);
    } else if s == 35 {
        lemma_entry(35, 1, 5);
        lemma_wrap_entry(65, 0, 65);
        lemma_entry(65, 2, 5);
        lemma_wrap_entry(36, 0, 36);
        lemma_entry(36, 1, 6);
        lemma_wrap_entry(66, 0, 66);
        lemma_entry(66, 2, 6);
    } else if s == 36 {
        lemma_entry(36, 1, 6);
        lemma_wrap_entry(66, 0, 66);
        lemma_entry(66, 2, 6);
        lemma_wrap_entry(37, 0, 37);
        lemma_entry(37, 1, 7);
        lemma_wrap_entry(67, 0, 67);
        lemma_entry(67, 2, 7);
    } else if s == 37 {
        lemma_entry(37, 1, 7);
        lemma_wrap_entry(67, 0, 67);
        lemma_entry(67, 2, 7);
        lemma_wrap_entry(38, 0, 38);
        lemma_entry(38, 1, 8);
        lemma_wrap_entry(68, 0, 68);
        lemma_entry(68, 2, 8);
    } else if s == 38 {
        lemma_entry(38, 1, 8);
        lemma_wrap_entry(68, 0, 68);
        lemma_entry(68, 2, 8);
        lemma_wrap_entry(39, 0, 39);
        lemma_entry(39, 1, 9);
        lemma_wrap_entry(69, 0, 69);
        lemma_entry(69, 2, 9);
    } else if s == 39 {
        lemma_entry(39, 1, 9);
        lemma_wrap_entry(69, 0, 69);
        lemma_entry(69, 2, 9);
        lemma_wrap_entry(40, 0, 40);
        lemma_entry(40, 1, 10);
        lemma_wrap_entry(70, 0, 70);
        lemma_entry(70, 2, 10);
    } else if s == 40 {
        lemma_entry(40, 1, 10);
        lemma_wrap_entry(70, 0, 70);
        lemma_entry(70, 2, 10);
        lemma_wrap_entry(41, 0, 41);
        lemma_entry(41, 1, 11);
        lemma_wrap_entry(71, 0, 71);
        lemma_entry(71, 2, 11);
    } else if s == 41 {
        lemma_entry(41, 1, 11);
        lemma_wrap_entry(71, 0, 71);
        lemma_entry(71, 2, 11);
        lemma_wrap_entry(42, 0, 42);
        lemma_entry(42, 1, 12);
        lemma_wrap_entry(72, 0, 72);
        lemma_entry(72, 2, 12);
    } else if s == 42 {
        lemma_entry(42, 1, 12);
        lemma_wrap_entry(72, 0, 72);
        lemma_entry(72, 2, 12);
        lemma_wrap_entry(43, 0, 43);
        lemma_entry(43, 1, 13);
        lemma_wrap_entry(73, 0, 73);
        lemma_entry(73, 2, 13);
    } else if s == 43 {
        lemma_entry(43, 1, 13);
        lemma_wrap_entry(73, 0, 73);
        lemma_entry(73, 2, 13);
        lemma_wrap_entry(44, 0, 44);
        lemma_entry(44, 1, 14);
        lemma_wrap_entry(74, 0, 74);
        lemma_entry(74, 2, 14);
    } else if s == 44 {
        lemma_entry(44, 1, 14);
        lemma_wrap_entry(74, 0, 74);
        lemma_entry(74, 2, 14);
        lemma_wrap_entry(45, 0, 45);
        lemma_entry(45, 1, 15);
        lemma_wrap_entry(75, 0, 75);
        lemma_entry(75, 2, 15);
    } else if s == 45 {
        lemma_entry(45, 1, 15);
        lemma_wrap_entry(75, 0, 75);
        lemma_entry(75, 2, 15);
        lemma_wrap_entry(46, 0, 46);
        lemma_entry(46, 1, 16);
        lemma_wrap_entry(76, 0, 76);
        lemma_entry(76, 2, 16);
    } else if s == 46 {
        lemma_entry(46, 1, 16);
        lemma_wrap_entry(76, 0, 76);
        lemma_entry(76, 2, 16);
        lemma_wrap_entry(47, 0, 47);
        lemma_entry(47, 1, 17);
        lemma_wrap_entry(77, 0, 77);
        lemma_entry(77, 2, 17);
    } else if s == 47 {
        lemma_entry(47, 1, 17);
        lemma_wrap_entry(77, 0, 77);
        lemma_entry(77, 2, 17);
        lemma_wrap_entry(48, 0, 48);
        lemma_entry(48, 1, 18);
        lemma_wrap_entry(78, 0, 78);
        lemma_entry(78, 2, 18);
    } else if s == 48 {
        lemma_entry(48, 1, 18);
        lemma_wrap_entry(78, 0, 78);
        lemma_entry(78, 2, 18);
        lemma_wrap_entry(49, 0, 49);
        lemma_entry(49, 1, 19);
        lemma_wrap_entry(79, 0, 79);
        lemma_entry(79, 2, 19);
    } else if s == 49 {
        lemma_entry(49, 1, 19);
        lemma_wrap_entry(79, 0, 79);
        lemma_entry(79, 2, 19);
        lemma_wrap_entry(50, 0, 50);
        lemma_entry(50, 1, 20);
        lemma_wrap_entry(80, 0, 80);
        lemma_entry(80, 2, 20);
    } else if s == 50 {
        lemma_entry(50, 1, 20);
        lemma_wrap_entry(80, 0, 80);
        lemma_entry(80, 2, 20);
        lemma_wrap_entry(51, 0, 51);
        lemma_entry(51, 1, 21);
        lemma_wrap_entry(81, 0, 81);
        lemma_entry(81, 2, 21);
    } else if s == 51 {
        lemma_entry(51, 1, 21);
        lemma_wrap_entry(81, 0, 81);
        lemma_entry(81, 2, 21);
        lemma_wrap_entry(52, 0, 52);
        lemma_entry(52, 1, 22);
        lemma_wrap_entry(82, 0, 82);
        lemma_entry(82, 2, 22);
    } else if s == 52 {
        lemma_entry(52, 1, 22);
        lemma_wrap_entry(82, 0, 82);
        lemma_entry(82, 2, 22);
        lemma_wrap_entry(53, 0, 53);
        lemma_entry(53, 1, 23);
        lemma_wrap_entry(83, 0, 83);
        lemma_entry(83, 2, 23);
    } else if s == 53 {
        lemma_entry(53, 1, 23);
        lemma_wrap_entry(83, 0, 83);
        lemma_entry(83, 2, 23);
        lemma_wrap_entry(54, 0, 54);
        lemma_entry(54, 1, 24);
        lemma_wrap_entry(84, 0, 84);
        lemma_entry(84, 2, 24);
    } else if s == 54 {
        lemma_entry(54, 1, 24);
        lemma_wrap_entry(84, 0, 84);
        lemma_entry(84, 2, 24);
        lemma_wrap_entry(55, 0, 55);
        lemma_entry(55, 1, 25);
        lemma_wrap_entry(85, 0, 85);
        lemma_entry(85, 2, 25);
    } else if s == 55 {
        lemma_entry(55, 1, 25);
        lemma_wrap_entry(85, 0, 85);
        lemma_entry(85, 2, 25);
        lemma_wrap_entry(56, 0, 56);
        lemma_entry(56, 1, 26);
        lemma_wrap_entry(86, 0, 86);
        lemma_entry(86, 2, 26);
    } else if s == 56 {
        lemma_entry(56, 1, 26);
        lemma_wrap_entry(86, 0, 86);
        lemma_entry(86, 2, 26);
        lemma_wrap_entry(57, 0, 57);
        lemma_entry(57, 1, 27);
        lemma_wrap_entry(87, 0, 87);
        lemma_entry(87, 2, 27);
    } else if s == 57 {
        lemma_entry(57, 1, 27);
        lemma_wrap_entry(87, 0, 87);
        lemma_entry(87, 2, 27);
        lemma_wrap_entry(58, 0, 58);
        lemma_entry(58, 1, 28);
        lemma_wrap_entry(88, 0, 88);
        lemma_entry(88, 2, 28);
    } else if s == 58 {
        lemma_entry(58, 1, 28);
        lemma_wrap_entry(88, 0, 88);
        lemma_entry(88, 2, 28);
        lemma_wrap_entry(59, 0, 59);
        lemma_entry(59, 1, 29);
        lemma_wrap_entry(89, 0, 89);
        lemma_entry(89, 2, 29);
    } else if s == 59 {
        lemma_entry(59, 1, 29);
        lemma_wrap_entry(89, 0, 89);
        lemma_entry(89, 2, 29);
        lemma_wrap_entry(60, 0, 60);
        lemma_entry(60, 2, 0);
        lemma_wrap_entry(90, 0, 90);
        lemma_entry(90, 3, 0);
    } else if s == 60 {
        lemma_entry(60, 2, 0);
        lemma_wrap_entry(90, 0, 90);
        lemma_entry(90, 3, 0);
        lemma_wrap_entry(61, 0, 61);
        lemma_entry(61, 2, 1);
        lemma_wrap_entry(91, 0, 91);
        lemma_entry(91, 3, 1);
    } else if s == 61 {
        lemma_entry(61, 2, 1);
        lemma_wrap_entry(91, 0, 91);
        lemma_entry(91, 3, 1);
        lemma_wrap_entry(62, 0, 62);
        lemma_entry(62, 2, 2);
        lemma_wrap_entry(92, 0, 92);
        lemma_entry(92, 3, 2);
    } else if s == 62 {
        lemma_entry(62, 2, 2);
        lemma_wrap_entry(92, 0, 92);
        lemma_entry(92, 3, 2);
        lemma_wrap_entry(63, 0, 63);
        lemma_entry(63, 2, 3);
        lemma_wrap_entry(93, 0, 93);
        lemma_entry(93, 3, 3);
    } else if s == 63 {
        lemma_entry(63, 2, 3);
        lemma_wrap_entry(93, 0, 93);
        lemma_entry(93, 3, 3);
        lemma_wrap_entry(64, 0, 64);
        lemma_entry(64, 2, 4);
        lemma_wrap_entry(94, 0, 94);
        lemma_entry(94, 3, 4);
    } else if s == 64 {
        lemma_entry(64, 2, 4);
        lemma_wrap_entry(94, 0, 94);
        lemma_entry(94, 3, 4);
        lemma_wrap_entry(65, 0, 65);
        lemma_entry(65, 2, 5);
        lemma_wrap_entry(95, 0, 95);
        lemma_entry(95, 3, 5);
    } else if s == 65 {
        lemma_entry(65, 2, 5);
        lemma_wrap_entry(95, 0, 95);
        lemma_entry(95, 3, 5);
        lemma_wrap_entry(66, 0, 66);
        lemma_entry(66, 2, 6);
        lemma_wrap_entry(96, 0, 96);
        lemma_entry(96, 3, 6);
    } else if s == 66 {
        lemma_entry(66, 2, 6);
        lemma_wrap_entry(96, 0, 96);
        lemma_entry(96, 3, 6);
        lemma_wrap_entry(67, 0, 67);
        lemma_entry(67, 2, 7);
        lemma_wrap_entry(97, 0, 97);
        lemma_entry(97, 3, 7);
    } else if s == 67 {
        lemma_entry(67, 2, 7);
        lemma_wrap_entry(97, 0, 97);
        lemma_entry(97, 3, 7);
        lemma_wrap_entry(68, 0, 68);
        lemma_entry(68, 2, 8);
        lemma_wrap_entry(98, 0, 98);
        lemma_entry(98, 3, 8);
    } else if s == 68 {
        lemma_entry(68, 2, 8);
        lemma_wrap_entry(98, 0, 98);
        lemma_entry(98, 3, 8);
        lemma_wrap_entry(69, 0, 69);
        lemma_entry(69, 2, 9);
        lemma_wrap_entry(99, 0, 99);
        lemma_entry(99, 3, 9);
    } else if s == 69 {
        lemma_entry(69, 2, 9);
        lemma_wrap_entry(99, 0, 99);
        lemma_entry(99, 3, 9);
        lemma_wrap_entry(70, 0, 70);
        lemma_entry(70, 2, 10);
        lemma_wrap_entry(100, 0, 100);
        lemma_entry(100, 3, 10);
    } else if s == 70 {
        lemma_entry(70, 2, 10);
        lemma_wrap_entry(100, 0, 100);
        lemma_entry(100, 3, 10);
        lemma_wrap_entry(71, 0, 71);
        lemma_entry(71, 2, 11);
        lemma_wrap_entry(101, 0, 101);
        lemma_entry(101, 3, 11);
    } else if s == 71 {
        lemma_entry(71, 2, 11);
        lemma_wrap_entry(101, 0, 101);
        lemma_entry(101, 3, 11);
        lemma_wrap_entry(72, 0, 72);
        lemma_entry(72, 2, 12);
        lemma_wrap_entry(102, 0, 102);
        lemma_entry(102, 3, 12);
    } else if s == 72 {
        lemma_entry(72, 2, 12);
        lemma_wrap_entry(102, 0, 102);
        lemma_entry(102, 3, 12);
        lemma_wrap_entry(73, 0, 73);
        lemma_entry(73, 2, 13);
        lemma_wrap_entry(103, 0, 103);
        lemma_entry(103, 3, 13);
    } else if s == 73 {
        lemma_entry(73, 2, 13);
        lemma_wrap_entry(103, 0, 103);
        lemma_entry(103, 3, 13);
        lemma_wrap_entry(74, 0, 74);
        lemma_entry(74, 2, 14);
        lemma_wrap_entry(104, 0, 104);
        lemma_entry(104, 3, 14);
    } else if s == 74 {
        lemma_entry(74, 2, 14);
        lemma_wrap_entry(104, 0, 104);
        lemma_entry(104, 3, 14);
        lemma_wrap_entry(75, 0, 75);
        lemma_entry(75, 2, 15);
        lemma_wrap_entry(105, 0, 105);
        lemma_entry(105, 3, 15);
    } else if s == 75 {
        lemma_entry(75, 2, 15);
        lemma_wrap_entry(105, 0, 105);
        lemma_entry(105, 3, 15);
        lemma_wrap_entry(76, 0, 76);
        lemma_entry(76, 2, 16);
        lemma_wrap_entry(106, 0, 106);
        lemma_entry(106, 3, 16);
    } else if s == 76 {
        lemma_entry(76, 2, 16);
        lemma_wrap_entry(106, 0, 106);
        lemma_entry(106, 3, 16);
        lemma_wrap_entry(77, 0, 77);
        lemma_entry(77, 2, 17);
        lemma_wrap_entry(107, 0, 107);
        lemma_entry(107, 3, 17);
    } else if s == 77 {
        lemma_entry(77, 2, 17);
        lemma_wrap_entry(107, 0, 107);
        lemma_entry(107, 3, 17);
        lemma_wrap_entry(78, 0, 78);
        lemma_entry(78, 2, 18);
        lemma_wrap_entry(108, 0, 108);
        lemma_entry(108, 3, 18);
    } else if s == 78 {
        lemma_entry(78, 2, 18);
        lemma_wrap_entry(108, 0, 108);
        lemma_entry(108, 3, 18);
        lemma_wrap_entry(79, 0, 79);
        lemma_entry(79, 2, 19);
        lemma_wrap_entry(109, 0, 109);
        lemma_entry(109, 3, 19);
    } else if s == 79 {
        lemma_entry(79, 2, 19);
        lemma_wrap_entry(109, 0, 109);
        lemma_entry(109, 3, 19);
        lemma_wrap_entry(80, 0, 80);
        lemma_entry(80, 2, 20);
        lemma_wrap_entry(110, 0, 110);
        lemma_entry(110, 3, 20);
    } else if s == 80 {
        lemma_entry(80, 2, 20);
        lemma_wrap_entry(110, 0, 110);
        lemma_entry(110, 3, 20);
        lemma_wrap_entry(81, 0, 81);
        lemma_entry(81, 2, 21);
        lemma_wrap_entry(111, 0, 111);
        lemma_entry(111, 3, 21);
    } else if s == 81 {
        lemma_entry(81, 2, 21);
        lemma_wrap_entry(111, 0, 111);
        lemma_entry(111, 3, 21);
        lemma_wrap_entry(82, 0, 82);
        lemma_entry(82, 2, 22);
        lemma_wrap_entry(112, 0, 112);
        lemma_entry(112, 3, 22);
    } else if s == 82 {
        lemma_entry(82, 2, 22);
        lemma_wrap_entry(112, 0, 112);
        lemma_entry(112, 3, 22);
        lemma_wrap_entry(83, 0, 83);
        lemma_entry(83, 2, 23);
        lemma_wrap_entry(113, 0, 113);
        lemma_entry(113, 3, 23);
    } else if s == 83 {
        lemma_entry(83, 2, 23);
        lemma_wrap_entry(113, 0, 113);
        lemma_entry(113, 3, 23);
        lemma_wrap_entry(84, 0, 84);
        lemma_entry(84, 2, 24);
        lemma_wrap_entry(114, 0, 114);
        lemma_entry(114, 3, 24);
    } else if s == 84 {
        lemma_entry(84, 2, 24);
        lemma_wrap_entry(114, 0, 114);
        lemma_entry(114, 3, 24);
        lemma_wrap_entry(85, 0, 85);
        lemma_entry(85, 2, 25);
        lemma_wrap_entry(115, 0, 115);
        lemma_entry(115, 3, 25);
    } else if s == 85 {
        lemma_entry(85, 2, 25);
        lemma_wrap_entry(115, 0, 115);
        lemma_entry(115, 3, 25);
        lemma_wrap_entry(86, 0, 86);
        lemma_entry(86, 2, 26);
        lemma_wrap_entry(116, 0, 116);
        lemma_entry(116, 3, 26);
    } else if s == 86 {
        lemma_entry(86, 2, 26);
        lemma_wrap_entry(116, 0, 116);
        lemma_entry(116, 3, 26);
        lemma_wrap_entry(87, 0, 87);
        lemma_entry(87, 2, 27);
        lemma_wrap_entry(117, 0, 117);
        lemma_entry(117, 3, 27);
    } else if s == 87 {
        lemma_entry(87, 2, 27);
        lemma_wrap_entry(117, 0, 117);
        lemma_entry(117, 3, 27);
        lemma_wrap_entry(88, 0, 88);
        lemma_entry(88, 2, 28);
        lemma_wrap_entry(118, 0, 118);
        lemma_entry(118, 3, 28);
    } else if s == 88 {
        lemma_entry(88, 2, 28);
        lemma_wrap_entry(118, 0, 118);
        lemma_entry(118, 3, 28);
        lemma_wrap_entry(89, 0, 89);
        lemma_entry(89, 2, 29);
        lemma_wrap_entry(119, 0, 119);
        lemma_entry(119, 3, 29);
    } else if s == 89 {
        lemma_entry(89, 2, 29);
        lemma_wrap_entry(119, 0, 119);
        lemma_entry(119, 3, 29);
        lemma_wrap_entry(90, 0, 90);
        lemma_entry(90, 3, 0);
        lemma_wrap_entry(120, 1, 0);
        lemma_entry(0, 0, 0);
    } else if s == 90 {
        lemma_entry(90, 3, 0);
        lemma_wrap_entry(120, 1, 0);
        lemma_entry(0, 0, 0);
        lemma_wrap_entry(91, 0, 91);
        lemma_entry(91, 3, 1);
        lemma_wrap_entry(1, 0, 1);
        lemma_entry(1, 0, 1);
    } else if s == 91 {
        lemma_entry(91, 3, 1);
        lemma_wrap_entry(121, 1, 1);
        lemma_entry(1, 0, 1);
        lemma_wrap_entry(92, 0, 92);
        lemma_entry(92, 3, 2);
        lemma_wrap_entry(2, 0, 2);
        lemma_entry(2, 0, 2);
    } else if s == 92 {
        lemma_entry(92, 3, 2);
        lemma_wrap_entry(122, 1, 2);
        lemma_entry(2, 0, 2);
        lemma_wrap_entry(93, 0, 93);
        lemma_entry(93, 3, 3);
        lemma_wrap_entry(3, 0, 3);
        lemma_entry(3, 0, 3);
    } else if s == 93 {
        lemma_entry(93, 3, 3);
        lemma_wrap_entry(123, 1, 3);
        lemma_entry(3, 0, 3);
        lemma_wrap_entry(94, 0, 94);
        lemma_entry(94, 3, 4);
        lemma_wrap_entry(4, 0, 4);
        lemma_entry(4, 0, 4);
    } else if s == 94 {
        lemma_entry(94, 3, 4);
        lemma_wrap_entry(124, 1, 4);
        lemma_entry(4, 0, 4);
        lemma_wrap_entry(95, 0, 95);
        lemma_entry(95, 3, 5);
        lemma_wrap_entry(5, 0, 5);
        lemma_entry(5, 0, 5);
    } else if s == 95 {
        lemma_entry(95, 3, 5);
        lemma_wrap_entry(125, 1, 5);
        lemma_entry(5, 0, 5);
        lemma_wrap_entry(96, 0, 96);
        lemma_entry(96, 3, 6);
        lemma_wrap_entry(6, 0, 6);
        lemma_entry(6, 0, 6);
    } else if s == 96 {
        lemma_entry(96, 3, 6);
        lemma_wrap_entry(126, 1, 6);
        lemma_entry(6, 0, 6);
        lemma_wrap_entry(97, 0, 97);
        lemma_entry(97, 3, 7);
        lemma_wrap_entry(7, 0, 7);
        lemma_entry(7, 0, 7);
    } else if s == 97 {
        lemma_entry(97, 3, 7);
        lemma_wrap_entry(127, 1, 7);
        lemma_entry(7, 0, 7);
        lemma_wrap_entry(98, 0, 98);
        lemma_entry(98, 3, 8);
        lemma_wrap_entry(8, 0, 8);
        lemma_entry(8, 0, 8);
    } else if s == 98 {
        lemma_entry(98, 3, 8);
        lemma_wrap_entry(128, 1, 8);
        lemma_entry(8, 0, 8);
        lemma_wrap_entry(99, 0, 99);
        lemma_entry(99, 3, 9);
        lemma_wrap_entry(9, 0, 9);
        lemma_entry(9, 0, 9);
    } else if s == 99 {
        lemma_entry(99, 3, 9);
        lemma_wrap_entry(129, 1, 9);
        lemma_entry(9, 0, 9);
        lemma_wrap_entry(100, 0, 100);
        lemma_entry(100, 3, 10);
        lemma_wrap_entry(10, 0, 10);
        lemma_entry(10, 0, 10);
    } else if s == 100 {
        lemma_entry(100, 3, 10);
        lemma_wrap_entry(130, 1, 10);
        lemma_entry(10, 0, 10);
        lemma_wrap_entry(101, 0, 101);
        lemma_entry(101, 3, 11);
        lemma_wrap_entry(11, 0, 11);
        lemma_entry(11, 0, 11);
    } else if s == 101 {
        lemma_entry(101, 3, 11);
        lemma_wrap_entry(131, 1, 11);
        lemma_entry(11, 0, 11);
        lemma_wrap_entry(102, 0, 102);
        lemma_entry(102, 3, 12);
        lemma_wrap_entry(12, 0, 12);
        lemma_entry(12, 0, 12);
    } else if s == 102 {
        lemma_entry(102, 3, 12);
        lemma_wrap_entry(132, 1, 12);
        lemma_entry(12, 0, 12);
        lemma_wrap_entry(103, 0, 103);
        lemma_entry(103, 3, 13);
        lemma_wrap_entry(13, 0, 13);
        lemma_entry(13, 0, 13);
    } else if s == 103 {
        lemma_entry(103, 3, 13);
        lemma_wrap_entry(133, 1, 13);
        lemma_entry(13, 0, 13);
        lemma_wrap_entry(104, 0, 104);
        lemma_entry(104, 3, 14);
        lemma_wrap_entry(14, 0, 14);
        lemma_entry(14, 0, 14);
    } else if s == 104 {
        lemma_entry(104, 3, 14);
        lemma_wrap_entry(134, 1, 14);
        lemma_entry(14, 0, 14);
        lemma_wrap_entry(105, 0, 105);
        lemma_entry(105, 3, 15);
        lemma_wrap_entry(15, 0, 15);
        lemma_entry(15, 0, 15);
    } else if s == 105 {
        lemma_entry(105, 3, 15);
        lemma_wrap_entry(135, 1, 15);
        lemma_entry(15, 0, 15);
        lemma_wrap_entry(106, 0, 106);
        lemma_entry(106, 3, 16);
        lemma_wrap_entry(16, 0, 16);
        lemma_entry(16, 0, 16);
    } else if s == 106 {
        lemma_entry(106, 3, 16);
        lemma_wrap_entry(136, 1, 16);
        lemma_entry(16, 0, 16);
        lemma_wrap_entry(107, 0, 107);
        lemma_entry(107, 3, 17);
        lemma_wrap_entry(17, 0, 17);
        lemma_entry(17, 0, 17);
    } else if s == 107 {
        lemma_entry(107, 3, 17);
        lemma_wrap_entry(137, 1, 17);
        lemma_entry(17, 0, 17);
        lemma_wrap_entry(108, 0, 108);
        lemma_entry(108, 3, 18);
        lemma_wrap_entry(18, 0, 18);
        lemma_entry(18, 0, 18);
    } else if s == 108 {
        lemma_entry(108, 3, 18);
        lemma_wrap_entry(138, 1, 18);
        lemma_entry(18, 0, 18);
        lemma_wrap_entry(109, 0, 109);
        lemma_entry(109, 3, 19);
        lemma_wrap_entry(19, 0, 19);
        lemma_entry(19, 0, 19);
    } else if s == 109 {
        lemma_entry(109, 3, 19);
        lemma_wrap_entry(139, 1, 19);
        lemma_entry(19, 0, 19);
        lemma_wrap_entry(110, 0, 110);
        lemma_entry(110, 3, 20);
        lemma_wrap_entry(20, 0, 20);
        lemma_entry(20, 0, 20);
    } else if s == 110 {
        lemma_entry(110, 3, 20);
        lemma_wrap_entry(140, 1, 20);
        lemma_entry(20, 0, 20);
        lemma_wrap_entry(111, 0, 111);
        lemma_entry(111, 3, 21);
        lemma_wrap_entry(21, 0, 21);
        lemma_entry(21, 0, 21);
    } else if s == 111 {
        lemma_entry(111, 3, 21);
        lemma_wrap_entry(141, 1, 21);
        lemma_entry(21, 0, 21);
        lemma_wrap_entry(112, 0, 112);
        lemma_entry(112, 3, 22);
        lemma_wrap_entry(22, 0, 22);
        lemma_entry(22, 0, 22);
    } else if s == 112 {
        lemma_entry(112, 3, 22);
        lemma_wrap_entry(142, 1, 22);
        lemma_entry(22, 0, 22);
        lemma_wrap_entry(113, 0, 113);
        lemma_entry(113, 3, 23);
        lemma_wrap_entry(23, 0, 23);
        lemma_entry(23, 0, 23);
    } else if s == 113 {
        lemma_entry(113, 3, 23);
        lemma_wrap_entry(143, 1, 23);
        lemma_entry(23, 0, 23);
        lemma_wrap_entry(114, 0, 114);
        lemma_entry(114, 3, 24);
        lemma_wrap_entry(24, 0, 24);
        lemma_entry(24, 0, 24);
    } else if s == 114 {
        lemma_entry(114, 3, 24);
        lemma_wrap_entry(144, 1, 24);
        lemma_entry(24, 0, 24);
        lemma_wrap_entry(115, 0, 115);
        lemma_entry(115, 3, 25);
        lemma_wrap_entry(25, 0, 25);
        lemma_entry(25, 0, 25);
    } else if s == 115 {
        lemma_entry(115, 3, 25);
        lemma_wrap_entry(145, 1, 25);
        lemma_entry(25, 0, 25);
        lemma_wrap_entry(116, 0, 116);
        lemma_entry(116, 3, 26);
        lemma_wrap_entry(26, 0, 26);
        lemma_entry(26, 0, 26);
    } else if s == 116 {
        lemma_entry(116, 3, 26);
        lemma_wrap_entry(146, 1, 26);
        lemma_entry(26, 0, 26);
        lemma_wrap_entry(117, 0, 117);
        lemma_entry(117, 3, 27);
        lemma_wrap_entry(27, 0, 27);
        lemma_entry(27, 0, 27);
    } else if s == 117 {
        lemma_entry(117, 3, 27);
        lemma_wrap_entry(147, 1, 27);
        lemma_entry(27, 0, 27);
        lemma_wrap_entry(118, 0, 118);
        lemma_entry(118, 3, 28);
        lemma_wrap_entry(28, 0, 28);
        lemma_entry(28, 0, 28);
    } else if s == 118 {
        lemma_entry(118, 3, 28);
        lemma_wrap_entry(148, 1, 28);
        lemma_entry(28, 0, 28);
        lemma_wrap_entry(119, 0, 119);
        lemma_entry(119, 3, 29);
        lemma_wrap_entry(29, 0, 29);
        lemma_entry(29, 0, 29);
    } else {
        lemma_entry(119, 3, 29);
        lemma_wrap_entry(149, 1, 29);
        lemma_entry(29, 0, 29);
        lemma_wrap_entry(120, 1, 0);
        lemma_entry(0, 0, 0);
        lemma_wrap_entry(30, 0, 30);
        lemma_entry(30, 1, 0);
    }
}

/// Table intervals 40 entries apart are set apart at both ends.
#[verifier::rlimit(100)]
#[verifier::spinoff_prover]
pub proof fn lemma_table_apart_40(s: int)
    requires
        0 <= s < 4 * QUARTER_STEPS,
    ensures
        table_apart(s, 40),
{
    if s == 0 {
        lemma_entry(0, 0, 0);
        lemma_wrap_entry(40, 0, 40);
        lemma_entry(40, 1, 10);
        lemma_wrap_entry(1, 0, 1);
        lemma_entry(1, 0, 1);
        lemma_wrap_entry(41, 0, 41);
        lemma_entry(41, 1, 11);
    } else if s == 1 {
        lemma_entry(1, 0, 1);
        lemma_wrap_entry(41, 0, 41);
        lemma_entry(41, 1, 11);
        lemma_wrap_entry(2, 0, 2);
        lemma_entry(2, 0, 2);
        lemma_wrap_entry(42, 0, 42);
        lemma_entry(42, 1, 12);
    } else if s == 2 {
        lemma_entry(2, 0, 2);
        lemma_wrap_entry(42, 0, 42);
        lemma_entry(42, 1, 12);
        lemma_wrap_entry(3, 0, 3);
        lemma_entry(3, 0, 3);
        lemma_wrap_entry(43, 0, 43);
        lemma_entry(43, 1, 13);
    } else if s == 3 {
        lemma_entry(3, 0, 3);
        lemma_wrap_entry(43, 0, 43);
        lemma_entry(43, 1, 13);
        lemma_wrap_entry(4, 0, 4);
        lemma_entry(4, 0, 4);
        lemma_wrap_entry(44, 0, 44);
        lemma_entry(44, 1, 14);
    } else if s == 4 {
        lemma_entry(4, 0, 4);
        lemma_wrap_entry(44, 0, 44);
        lemma_entry(44, 1, 14);
        lemma_wrap_entry(5, 0, 5);
        lemma_entry(5, 0, 5);
        lemma_wrap_entry(45, 0, 45);
        lemma_entry(45, 1, 15);
    } else if s == 5 {
        lemma_entry(5, 0, 5);
        lemma_wrap_entry(45, 0, 45);
        lemma_entry(45, 1, 15);
        lemma_wrap_entry(6, 0, 6);
        lemma_entry(6, 0, 6);
        lemma_wrap_entry(46, 0, 46);
        lemma_entry(46, 1, 16);
    } else if s == 6 {
        lemma_entry(6, 0, 6);
        lemma_wrap_entry(46, 0, 46);
        lemma_entry(46, 1, 16);
        lemma_wrap_entry(7, 0, 7);
        lemma_entry(7, 0, 7);
        lemma_wrap_entry(47, 0, 47);
        lemma_entry(47, 1, 17);
    } else if s == 7 {
        lemma_entry(7, 0, 7);
        lemma_wrap_entry(47, 0, 47);
        lemma_entry(47, 1, 17);
        lemma_wrap_entry(8, 0, 8);
        lemma_entry(8, 0, 8);
        lemma_wrap_entry(48, 0, 48);
        lemma_entry(48, 1, 18);
    } else if s == 8 {
        lemma_entry(8, 0, 8);
        lemma_wrap_entry(48, 0, 48);
        lemma_entry(48, 1, 18);
        lemma_wrap_entry(9, 0, 9);
        lemma_entry(9, 0, 9);
        lemma_wrap_entry(49, 0, 49);
        lemma_entry(49, 1, 19);
    } else if s == 9 {
        lemma_entry(9, 0, 9);
        lemma_wrap_entry(49, 0, 49);
        lemma_entry(49, 1, 19);
        lemma_wrap_entry(10, 0, 10);
        lemma_entry(10, 0, 10);
        lemma_wrap_entry(50, 0, 50);
        lemma_entry(50, 1, 20);
    } else if s == 10 {
        lemma_entry(10, 0, 10);
        lemma_wrap_entry(50, 0, 50);
        lemma_entry(50, 1, 20);
        lemma_wrap_entry(11, 0, 11);
        lemma_entry(11, 0, 11);
        lemma_wrap_entry(51, 0, 51);
        lemma_entry(51, 1, 21);
    } else if s == 11 {
        lemma_entry(11, 0, 11);
        lemma_wrap_entry(51, 0, 51);
        lemma_entry(51, 1, 21);
        lemma_wrap_entry(12, 0, 12);
        lemma_entry(12, 0, 12);
        lemma_wrap_entry(52, 0, 52);
        lemma_entry(52, 1, 22);
    } else if s == 12 {
        lemma_entry(12, 0, 12);
        lemma_wrap_entry(52, 0, 52);
        lemma_entry(52, 1, 22);
        lemma_wrap_entry(13, 0, 13);
        lemma_entry(13, 0, 13);
        lemma_wrap_entry(53, 0, 53);
        lemma_entry(53, 1, 23);
    } else if s == 13 {
        lemma_entry(13, 0, 13);
        lemma_wrap_entry(53, 0, 53);
        lemma_entry(53, 1, 23);
        lemma_wrap_entry(14, 0, 14);
        lemma_entry(14, 0, 14);
        lemma_wrap_entry(54, 0, 54);
        lemma_entry(54, 1, 24);
    } else if s == 14 {
        lemma_entry(14, 0, 14);
        lemma_wrap_entry(54, 0, 54);
        lemma_entry(54, 1, 24);
        lemma_wrap_entry(15, 0, 15);
        lemma_entry(15, 0, 15);
        lemma_wrap_entry(55, 0, 55);
        lemma_entry(55, 1, 25);
    } else if s == 15 {
        lemma_entry(15, 0, 15);
        lemma_wrap_entry(55, 0, 55);
        lemma_entry(55, 1, 25);
        lemma_wrap_entry(16, 0, 16);
        lemma_entry(16, 0, 16);
        lemma_wrap_entry(56, 0, 56);
        lemma_entry(56, 1, 26);
    } else if s == 16 {
        lemma_entry(16, 0, 16);
        lemma_wrap_entry(56, 0, 56);
        lemma_entry(56, 1, 26);
        lemma_wrap_entry(17, 0, 17);
        lemma_entry(17, 0, 17);
        lemma_wrap_entry(57, 0, 57);
        lemma_entry(57, 1, 27);
    } else if s == 17 {
        lemma_entry(17, 0, 17);
        lemma_wrap_entry(57, 0, 57);
        lemma_entry(57, 1, 27);
        lemma_wrap_entry(18, 0, 18);
        lemma_entry(18, 0, 18);
        lemma_wrap_entry(58, 0, 58);
        lemma_entry(58, 1, 28);
    } else if s == 18 {
        lemma_entry(18, 0, 18);
        lemma_wrap_entry(58, 0, 58);
        lemma_entry(58, 1, 28);
        lemma_wrap_entry(19, 0, 19);
        lemma_entry(19, 0, 19);
        lemma_wrap_entry(59, 0, 59);
        lemma_entry(59, 1, 29);
    } else if s == 19 {
        lemma_entry(19, 0, 19);
        lemma_wrap_entry(59, 0, 59);
        lemma_entry(59, 1, 29);
        lemma_wrap_entry(20, 0, 20);
        lemma_entry(20, 0, 20);
        lemma_wrap_entry(60, 0, 60);
        lemma_entry(60, 2, 0);
    } else if s == 20 {
        lemma_entry(20, 0, 20);
        lemma_wrap_entry(60, 0, 60);
        lemma_entry(60, 2, 0);
        lemma_wrap_entry(21, 0, 21);
        lemma_entry(21, 0, 21);
        lemma_wrap_entry(61, 0, 61);
        lemma_entry(61, 2, 1);
    } else if s == 21 {
        lemma_entry(21, 0, 21);
        lemma_wrap_entry(61, 0, 61);
        lemma_entry(61, 2, 1);
        lemma_wrap_entry(22, 0, 22);
        lemma_entry(22, 0, 22);
        lemma_wrap_entry(62, 0, 62);
        lemma_entry(62, 2, 2);
    } else if s == 22 {
        lemma_entry(22, 0, 22);
        lemma_wrap_entry(62, 0, 62);
        lemma_entry(62, 2, 2);
        lemma_wrap_entry(23, 0, 23);
        lemma_entry(23, 0, 23);
        lemma_wrap_entry(63, 0, 63);
        lemma_entry(63, 2, 3);
    } else if s == 23 {
        lemma_entry(23, 0, 23);
        lemma_wrap_entry(63, 0, 63);
        lemma_entry(63, 2, 3);
        lemma_wrap_entry(24, 0, 24);
        lemma_entry(24, 0, 24);
        lemma_wrap_entry(64, 0, 64);
        lemma_entry(64, 2, 4);
    } else if s == 24 {
        lemma_entry(24, 0, 24);
        lemma_wrap_entry(64, 0, 64);
        lemma_entry(64, 2, 4);
        lemma_wrap_entry(25, 0, 25);
        lemma_entry(25, 0, 25);
        lemma_wrap_entry(65, 0, 65);
        lemma_entry(65, 2, 5);
    } else if s == 25 {
        lemma_entry(25, 0, 25);
        lemma_wrap_entry(65, 0, 65);
        lemma_entry(65, 2, 5);
        lemma_wrap_entry(26, 0, 26);
        lemma_entry(26, 0, 26);
        lemma_wrap_entry(66, 0, 66);
        lemma_entry(66, 2, 6);
    } else if s == 26 {
        lemma_entry(26, 0, 26);
        lemma_wrap_entry(66, 0, 66);
        lemma_entry(66, 2, 6);
        lemma_wrap_entry(27, 0, 27);
        lemma_entry(27, 0, 27);
        lemma_wrap_entry(67, 0, 67);
        lemma_entry(67, 2, 7);
    } else if s == 27 {
        lemma_entry(27, 0, 27);
        lemma_wrap_entry(67, 0, 67);
        lemma_entry(67, 2, 7);
        lemma_wrap_entry(28, 0, 28);
        lemma_entry(28, 0, 28);
        lemma_wrap_entry(68, 0, 68);
        lemma_entry(68, 2, 8);
    } else if s == 28 {
        lemma_entry(28, 0, 28);
        lemma_wrap_entry(68, 0, 68);
        lemma_entry(68, 2, 8);
        lemma_wrap_entry(29, 0, 29);
        lemma_entry(29, 0, 29);
        lemma_wrap_entry(69, 0, 69);
        lemma_entry(69, 2, 9);
    } else if s == 29 {
        lemma_entry(29, 0, 29);
        lemma_wrap_entry(69, 0, 69);
        lemma_entry(69, 2, 9);
        lemma_wrap_entry(30, 0, 30);
        lemma_entry(30, 1, 0);
        lemma_wrap_entry(70, 0, 70);
        lemma_entry(70, 2, 10);
    } else if s == 30 {
        lemma_entry(30, 1, 0);
        lemma_wrap_entry(70, 0, 70);
        lemma_entry(70, 2, 10);
        lemma_wrap_entry(31, 0, 31);
        lemma_entry(31, 1, 1);
        lemma_wrap_entry(71, 0, 71);
        lemma_entry(71, 2, 11);
    } else if s == 31 {
        lemma_entry(31, 1, 1);
        lemma_wrap_entry(71, 0, 71);
        lemma_entry(71, 2, 11);
        lemma_wrap_entry(32, 0, 32);
        lemma_entry(32, 1, 2);
        lemma_wrap_entry(72, 0, 72);
        lemma_entry(72, 2, 12);
    } else if s == 32 {
        lemma_entry(32, 1, 2);
        lemma_wrap_entry(72, 0, 72);
        lemma_entry(72, 2, 12);
        lemma_wrap_entry(33, 0, 33);
        lemma_entry(33, 1, 3);
        lemma_wrap_entry(73, 0, 73);
        lemma_entry(73, 2, 13);
    } else if s == 33 {
        lemma_entry(33, 1, 3);
        lemma_wrap_entry(73, 0, 73);
        lemma_entry(73, 2, 13);
        lemma_wrap_entry(34, 0, 34);
        lemma_entry(34, 1, 4);
        lemma_wrap_entry(74, 0, 74);
        lemma_entry(74, 2, 14);
    } else if s == 34 {
        lemma_entry(34, 1, 4);
        lemma_wrap_entry(74, 0, 74);
        lemma_entry(74, 2, 14);
        lemma_wrap_entry(35, 0, 35);
        lemma_entry(35, 1, 5);
        lemma_wrap_entry(75, 0, 75);
        lemma_entry(75, 2, 15);
    } else if s == 35 {
        lemma_entry(35, 1, 5);
        lemma_wrap_entry(75, 0, 75);
        lemma_entry(75, 2, 15);
        lemma_wrap_entry(36, 0, 36);
        lemma_entry(36, 1, 6);
        lemma_wrap_entry(76, 0, 76);
        lemma_entry(76, 2, 16);
    } else if s == 36 {
        lemma_entry(36, 1, 6);
        lemma_wrap_entry(76, 0, 76);
        lemma_entry(76, 2, 16);
        lemma_wrap_entry(37, 0, 37);
        lemma_entry(37, 1, 7);
        lemma_wrap_entry(77, 0, 77);
        lemma_entry(77, 2, 17);
    } else if s == 37 {
        lemma_entry(37, 1, 7);
        lemma_wrap_entry(77, 0, 77);
        lemma_entry(77, 2, 17);
        lemma_wrap_entry(38, 0, 38);
        lemma_entry(38, 1, 8);
        lemma_wrap_entry(78, 0, 78);
        lemma_entry(78, 2, 18);
    } else if s == 38 {
        lemma_entry(38, 1, 8);
        lemma_wrap_entry(78, 0, 78);
        lemma_entry(78, 2, 18);
        lemma_wrap_entry(39, 0, 39);
        lemma_entry(39, 1, 9);
        lemma_wrap_entry(79, 0, 79);
        lemma_entry(79, 2, 19);
    } else if s == 39 {
        lemma_entry(39, 1, 9);
        lemma_wrap_entry(79, 0, 79);
        lemma_entry(79, 2, 19);
        lemma_wrap_entry(40, 0, 40);
        lemma_entry(40, 1, 10);
        lemma_wrap_entry(80, 0, 80);
        lemma_entry(80, 2, 20);
    } else if s == 40 {
        lemma_entry(40, 1, 10);
        lemma_wrap_entry(80, 0, 80);
        lemma_entry(80, 2, 20);
        lemma_wrap_entry(41, 0, 41);
        lemma_entry(41, 1, 11);
        lemma_wrap_entry(81, 0, 81);
        lemma_entry(81, 2, 21);
    } else if s == 41 {
        lemma_entry(41, 1, 11);
        lemma_wrap_entry(81, 0, 81);
        lemma_entry(81, 2, 21);
        lemma_wrap_entry(42, 0, 42);
        lemma_entry(42, 1, 12);
        lemma_wrap_entry(82, 0, 82);
        lemma_entry(82, 2, 22);
    } else if s == 42 {
        lemma_entry(42, 1, 12);
        lemma_wrap_entry(82, 0, 82);
        lemma_entry(82, 2, 22);
        lemma_wrap_entry(43, 0, 43);
        lemma_entry(43, 1, 13);
        lemma_wrap_entry(83, 0, 83);
        lemma_entry(83, 2, 23);
    } else if s == 43 {
        lemma_entry(43, 1, 13);
        lemma_wrap_entry(83, 0, 83);
        lemma_entry(83, 2, 23);
        lemma_wrap_entry(44, 0, 44);
        lemma_entry(44, 1, 14);
        lemma_wrap_entry(84, 0, 84);
        lemma_entry(84, 2, 24);
    } else if s == 44 {
        lemma_entry(44, 1, 14);
        lemma_wrap_entry(84, 0, 84);
        lemma_entry(84, 2, 24);
        lemma_wrap_entry(45, 0, 45);
        lemma_entry(45, 1, 15);
        lemma_wrap_entry(85, 0, 85);
        lemma_entry(85, 2, 25);
    } else if s == 45 {
        lemma_entry(45, 1, 15);
        lemma_wrap_entry(85, 0, 85);
        lemma_entry(85, 2, 25);
        lemma_wrap_entry(46, 0, 46);
        lemma_entry(46, 1, 16);
        lemma_wrap_entry(86, 0, 86);
        lemma_entry(86, 2, 26);
    } else if s == 46 {
        lemma_entry(46, 1, 16);
        lemma_wrap_entry(86, 0, 86);
        lemma_entry(86, 2, 26);
        lemma_wrap_entry(47, 0, 47);
        lemma_entry(47, 1, 17);
        lemma_wrap_entry(87, 0, 87);
        lemma_entry(87, 2, 27);
    } else if s == 47 {
        lemma_entry(47, 1, 17);
        lemma_wrap_entry(87, 0, 87);
        lemma_entry(87, 2, 27);
        lemma_wrap_entry(48, 0, 48);
        lemma_entry(48, 1, 18);
        lemma_wrap_entry(88, 0, 88);
        lemma_entry(88, 2, 28);
    } else if s == 48 {
        lemma_entry(48, 1, 18);
        lemma_wrap_entry(88, 0, 88);
        lemma_entry(88, 2, 28);
        lemma_wrap_entry(49, 0, 49);
        lemma_entry(49, 1, 19);
        lemma_wrap_entry(89, 0, 89);
        lemma_entry(89, 2, 29);
    } else if s == 49 {
        lemma_entry(49, 1, 19);
        lemma_wrap_entry(89, 0, 89);
        lemma_entry(89, 2, 29);
        lemma_wrap_entry(50, 0, 50);
        lemma_entry(50, 1, 20);
        lemma_wrap_entry(90, 0, 90);
        lemma_entry(90, 3, 0);
    } else if s == 50 {
        lemma_entry(50, 1, 20);
        lemma_wrap_entry(90, 0, 90);
        lemma_entry(90, 3, 0);
        lemma_wrap_entry(51, 0, 51);
        lemma_entry(51, 1, 21);
        lemma_wrap_entry(91, 0, 91);
        lemma_entry(91, 3, 1);
    } else if s == 51 {
        lemma_entry(51, 1, 21);
        lemma_wrap_entry(91, 0, 91);
        lemma_entry(91, 3, 1);
        lemma_wrap_entry(52, 0, 52);
        lemma_entry(52, 1, 22);
        lemma_wrap_entry(92, 0, 92);
        lemma_entry(92, 3, 2);
    } else if s == 52 {
        lemma_entry(52, 1, 22);
        lemma_wrap_entry(92, 0, 92);
        lemma_entry(92, 3, 2);
        lemma_wrap_entry(53, 0, 53);
        lemma_entry(53, 1, 23);
        lemma_wrap_entry(93, 0, 93);
        lemma_entry(93, 3, 3);
    } else if s == 53 {
        lemma_entry(53, 1, 23);
        lemma_wrap_entry(93, 0, 93);
        lemma_entry(93, 3, 3);
        lemma_wrap_entry(54, 0, 54);
        lemma_entry(54, 1, 24);
        lemma_wrap_entry(94, 0, 94);
        lemma_entry(94, 3, 4);
    } else if s == 54 {
        lemma_entry(54, 1, 24);
        lemma_wrap_entry(94, 0, 94);
        lemma_entry(94, 3, 4);
        lemma_wrap_entry(55, 0, 55);
        lemma_entry(55, 1, 25);
        lemma_wrap_entry(95, 0, 95);
        lemma_entry(95, 3, 5);
    } else if s == 55 {
        lemma_entry(55, 1, 25);
        lemma_wrap_entry(95, 0, 95);
        lemma_entry(95, 3, 5);
        lemma_wrap_entry(56, 0, 56);
        lemma_entry(56, 1, 26);
        lemma_wrap_entry(96, 0, 96);
        lemma_entry(96, 3, 6);
    } else if s == 56 {
        lemma_entry(56, 1, 26);
        lemma_wrap_entry(96, 0, 96);
        lemma_entry(96, 3, 6);
        lemma_wrap_entry(57, 0, 57);
        lemma_entry(57, 1, 27);
        lemma_wrap_entry(97, 0, 97);
        lemma_entry(97, 3, 7);
    } else if s == 57 {
        lemma_entry(57, 1, 27);
        lemma_wrap_entry(97, 0, 97);
        lemma_entry(97, 3, 7);
        lemma_wrap_entry(58, 0, 58);
        lemma_entry(58, 1, 28);
        lemma_wrap_entry(98, 0, 98);
        lemma_entry(98, 3, 8);
    } else if s == 58 {
        lemma_entry(58, 1, 28);
        lemma_wrap_entry(98, 0, 98);
        lemma_entry(98, 3, 8);
        lemma_wrap_entry(59, 0, 59);
        lemma_entry(59, 1, 29);
        lemma_wrap_entry(99, 0, 99);
        lemma_entry(99, 3, 9);
    } else if s == 59 {
        lemma_entry(59, 1, 29);
        lemma_wrap_entry(99, 0, 99);
        lemma_entry(99, 3, 9);
        lemma_wrap_entry(60, 0, 60);
        lemma_entry(60, 2, 0);
        lemma_wrap_entry(100, 0, 100);
        lemma_entry(100, 3, 10);
    } else if s == 60 {
        lemma_entry(60, 2, 0);
        lemma_wrap_entry(100, 0, 100);
        lemma_entry(100, 3, 10);
        lemma_wrap_entry(61, 0, 61);
        lemma_entry(61, 2, 1);
        lemma_wrap_entry(101, 0, 101);
        lemma_entry(101, 3, 11);
    } else if s == 61 {
        lemma_entry(61, 2, 1);
        lemma_wrap_entry(101, 0, 101);
        lemma_entry(101, 3, 11);
        lemma_wrap_entry(62, 0, 62);
        lemma_entry(62, 2, 2);
        lemma_wrap_entry(102, 0, 102);
        lemma_entry(102, 3, 12);
    } else if s == 62 {
        lemma_entry(62, 2, 2);
        lemma_wrap_entry(102, 0, 102);
        lemma_entry(102, 3, 12);
        lemma_wrap_entry(63, 0, 63);
        lemma_entry(63, 2, 3);
        lemma_wrap_entry(103, 0, 103);
        lemma_entry(103, 3, 13);
    } else if s == 63 {
        lemma_entry(63, 2, 3);
        lemma_wrap_entry(103, 0, 103);
        lemma_entry(103, 3, 13);
        lemma_wrap_entry(64, 0, 64);
        lemma_entry(64, 2, 4);
        lemma_wrap_entry(104, 0, 104);
        lemma_entry(104, 3, 14);
    } else if s == 64 {
        lemma_entry(64, 2, 4);
        lemma_wrap_entry(104, 0, 104);
        lemma_entry(104, 3, 14);
        lemma_wrap_entry(65, 0, 65);
        lemma_entry(65, 2, 5);
        lemma_wrap_entry(105, 0, 105);
        lemma_entry(105, 3, 15);
    } else if s == 65 {
        lemma_entry(65, 2, 5);
        lemma_wrap_entry(105, 0, 105);
        lemma_entry(105, 3, 15);
        lemma_wrap_entry(66, 0, 66);
        lemma_entry(66, 2, 6);
        lemma_wrap_entry(106, 0, 106);
        lemma_entry(106, 3, 16);
    } else if s == 66 {
        lemma_entry(66, 2, 6);
        lemma_wrap_entry(106, 0, 106);
        lemma_entry(106, 3, 16);
        lemma_wrap_entry(67, 0, 67);
        lemma_entry(67, 2, 7);
        lemma_wrap_entry(107, 0, 107);
        lemma_entry(107, 3, 17);
    } else if s == 67 {
        lemma_entry(67, 2, 7);
        lemma_wrap_entry(107, 0, 107);
        lemma_entry(107, 3, 17);
        lemma_wrap_entry(68, 0, 68);
        lemma_entry(68, 2, 8);
        lemma_wrap_entry(108, 0, 108);
        lemma_entry(108, 3, 18);
    } else if s == 68 {
        lemma_entry(68, 2, 8);
        lemma_wrap_entry(108, 0, 108);
        lemma_entry(108, 3, 18);
        lemma_wrap_entry(69, 0, 69);
        lemma_entry(69, 2, 9);
        lemma_wrap_entry(109, 0, 109);
        lemma_entry(109, 3, 19);
    } else if s == 69 {
        lemma_entry(69, 2, 9);
        lemma_wrap_entry(109, 0, 109);
        lemma_entry(109, 3, 19);
        lemma_wrap_entry(70, 0, 70);
        lemma_entry(70, 2, 10);
        lemma_wrap_entry(110, 0, 110);
        lemma_entry(110, 3, 20);
    } else if s == 70 {
        lemma_entry(70, 2, 10);
        lemma_wrap_entry(110, 0, 110);
        lemma_entry(110, 3, 20);
        lemma_wrap_entry(71, 0, 71);
        lemma_entry(71, 2, 11);
        lemma_wrap_entry(111, 0, 111);
        lemma_entry(111, 3, 21);
    } else if s == 71 {
        lemma_entry(71, 2, 11);
        lemma_wrap_entry(111, 0, 111);
        lemma_entry(111, 3, 21);
        lemma_wrap_entry(72, 0, 72);
        lemma_entry(72, 2, 12);
        lemma_wrap_entry(112, 0, 112);
        lemma_entry(112, 3, 22);
    } else if s == 72 {
        lemma_entry(72, 2, 12);
        lemma_wrap_entry(112, 0, 112);
        lemma_entry(112, 3, 22);
        lemma_wrap_entry(73, 0, 73);
        lemma_entry(73, 2, 13);
        lemma_wrap_entry(113, 0, 113);
        lemma_entry(113, 3, 23);
    } else if s == 73 {
        lemma_entry(73, 2, 13);
        lemma_wrap_entry(113, 0, 113);
        lemma_entry(113, 3, 23);
        lemma_wrap_entry(74, 0, 74);
        lemma_entry(74, 2, 14);
        lemma_wrap_entry(114, 0, 114);
        lemma_entry(114, 3, 24);
    } else if s == 74 {
        lemma_entry(74, 2, 14);
        lemma_wrap_entry(114, 0, 114);
        lemma_entry(114, 3, 24);
        lemma_wrap_entry(75, 0, 75);
        lemma_entry(75, 2, 15);
        lemma_wrap_entry(115, 0, 115);
        lemma_entry(115, 3, 25);
    } else if s == 75 {
        lemma_entry(75, 2, 15);
        lemma_wrap_entry(115, 0, 115);
        lemma_entry(115, 3, 25);
        lemma_wrap_entry(76, 0, 76);
        lemma_entry(76, 2, 16);
        lemma_wrap_entry(116, 0, 116);
        lemma_entry(116, 3, 26);
    } else if s == 76 {
        lemma_entry(76, 2, 16);
        lemma_wrap_entry(116, 0, 116);
        lemma_entry(116, 3, 26);
        lemma_wrap_entry(77, 0, 77);
        lemma_entry(77, 2, 17);
        lemma_wrap_entry(117, 0, 117);
        lemma_entry(117, 3, 27);
    } else if s == 77 {
        lemma_entry(77, 2, 17);
        lemma_wrap_entry(117, 0, 117);
        lemma_entry(117, 3, 27);
        lemma_wrap_entry(78, 0, 78);
        lemma_entry(78, 2, 18);
        lemma_wrap_entry(118, 0, 118);
        lemma_entry(118, 3, 28);
    } else if s == 78 {
        lemma_entry(78, 2, 18);
        lemma_wrap_entry(118, 0, 118);
        lemma_entry(118, 3, 28);
        lemma_wrap_entry(79, 0, 79);
        lemma_entry(79, 2, 19);
        lemma_wrap_entry(119, 0, 119);
        lemma_entry(119, 3, 29);
    } else if s == 79 {
        lemma_entry(79, 2, 19);
        lemma_wrap_entry(119, 0, 119);
        lemma_entry(119, 3, 29);
        lemma_wrap_entry(80, 0, 80);
        lemma_entry(80, 2, 20);
        lemma_wrap_entry(120, 1, 0);
        lemma_entry(0, 0, 0);
    } else if s == 80 {
        lemma_entry(80, 2, 20);
        lemma_wrap_entry(120, 1, 0);
        lemma_entry(0, 0, 0);
        lemma_wrap_entry(81, 0, 81);
        lemma_entry(81, 2, 21);
        lemma_wrap_entry(1, 0, 1);
        lemma_entry(1, 0, 1);
    } else if s == 81 {
        lemma_entry(81, 2, 21);
        lemma_wrap_entry(121, 1, 1);
        lemma_entry(1, 0, 1);
        lemma_wrap_entry(82, 0, 82);
        lemma_entry(82, 2, 22);
        lemma_wrap_entry(2, 0, 2);
        lemma_entry(2, 0, 2);
    } else if s == 82 {
        lemma_entry(82, 2, 22);
        lemma_wrap_entry(122, 1, 2);
        lemma_entry(2, 0, 2);
        lemma_wrap_entry(83, 0, 83);
        lemma_entry(83, 2, 23);
        lemma_wrap_entry(3, 0, 3);
        lemma_entry(3, 0, 3);
    } else if s == 83 {
        lemma_entry(83, 2, 23);
        lemma_wrap_entry(123, 1, 3);
        lemma_entry(3, 0, 3);
        lemma_wrap_entry(84, 0, 84);
        lemma_entry(84, 2, 24);
        lemma_wrap_entry(4, 0, 4);
        lemma_entry(4, 0, 4);
    } else if s == 84 {
        lemma_entry(84, 2, 24);
        lemma_wrap_entry(124, 1, 4);
        lemma_entry(4, 0, 4);
        lemma_wrap_entry(85, 0, 85);
        lemma_entry(85, 2, 25);
        lemma_wrap_entry(5, 0, 5);
        lemma_entry(5, 0, 5);
    } else if s == 85 {
        lemma_entry(85, 2, 25);
        lemma_wrap_entry(125, 1, 5);
        lemma_entry(5, 0, 5);
        lemma_wrap_entry(86, 0, 86);
        lemma_entry(86, 2, 26);
        lemma_wrap_entry(6, 0, 6);
        lemma_entry(6, 0, 6);
    } else if s == 86 {
        lemma_entry(86, 2, 26);
        lemma_wrap_entry(126, 1, 6);
        lemma_entry(6, 0, 6);
        lemma_wrap_entry(87, 0, 87);
        lemma_entry(87, 2, 27);
        lemma_wrap_entry(7, 0, 7);
        lemma_entry(7, 0, 7);
    } else if s == 87 {
        lemma_entry(87, 2, 27);
        lemma_wrap_entry(127, 1, 7);
        lemma_entry(7, 0, 7);
        lemma_wrap_entry(88, 0, 88);
        lemma_entry(88, 2, 28);
        lemma_wrap_entry(8, 0, 8);
        lemma_entry(8, 0, 8);
    } else if s == 88 {
        lemma_entry(88, 2, 28);
        lemma_wrap_entry(128, 1, 8);
        lemma_entry(8, 0, 8);
        lemma_wrap_entry(89, 0, 89);
        lemma_entry(89, 2, 29);
        lemma_wrap_entry(9, 0, 9);
        lemma_entry(9, 0, 9);
    } else if s == 89 {
        lemma_entry(89, 2, 29);
        lemma_wrap_entry(129, 1, 9);
        lemma_entry(9, 0, 9);
        lemma_wrap_entry(90, 0, 90);
        lemma_entry(90, 3, 0);
        lemma_wrap_entry(10, 0, 10);
        lemma_entry(10, 0, 10);
    } else if s == 90 {
        lemma_entry(90, 3, 0);
        lemma_wrap_entry(130, 1, 10);
        lemma_entry(10, 0, 10);
        lemma_wrap_entry(91, 0, 91);
        lemma_entry(91, 3, 1);
        lemma_wrap_entry(11, 0, 11);
        lemma_entry(11, 0, 11);
    } else if s == 91 {
        lemma_entry(91, 3, 1);
        lemma_wrap_entry(131, 1, 11);
        lemma_entry(11, 0, 11);
        lemma_wrap_entry(92, 0, 92);
        lemma_entry(92, 3, 2);
        lemma_wrap_entry(12, 0, 12);
        lemma_entry(12, 0, 12);
    } else if s == 92 {
        lemma_entry(92, 3, 2);
        lemma_wrap_entry(132, 1, 12);
        lemma_entry(12, 0, 12);
        lemma_wrap_entry(93, 0, 93);
        lemma_entry(93, 3, 3);
        lemma_wrap_entry(13, 0, 13);
        lemma_entry(13, 0, 13);
    } else if s == 93 {
        lemma_entry(93, 3, 3);
        lemma_wrap_entry(133, 1, 13);
        lemma_entry(13, 0, 13);
        lemma_wrap_entry(94, 0, 94);
        lemma_entry(94, 3, 4);
        lemma_wrap_entry(14, 0, 14);
        lemma_entry(14, 0, 14);
    } else if s == 94 {
        lemma_entry(94, 3, 4);
        lemma_wrap_entry(134, 1, 14);
        lemma_entry(14, 0, 14);
        lemma_wrap_entry(95, 0, 95);
        lemma_entry(95, 3, 5);
        lemma_wrap_entry(15, 0, 15);
        lemma_entry(15, 0, 15);
    } else if s == 95 {
        lemma_entry(95, 3, 5);
        lemma_wrap_entry(135, 1, 15);
        lemma_entry(15, 0, 15);
        lemma_wrap_entry(96, 0, 96);
        lemma_entry(96, 3, 6);
        lemma_wrap_entry(16, 0, 16);
        lemma_entry(16, 0, 16);
    } else if s == 96 {
        lemma_entry(96, 3, 6);
        lemma_wrap_entry(136, 1, 16);
        lemma_entry(16, 0, 16);
        lemma_wrap_entry(97, 0, 97);
        lemma_entry(97, 3, 7);
        lemma_wrap_entry(17, 0, 17);
        lemma_entry(17, 0, 17);
    } else if s == 97 {
        lemma_entry(97, 3, 7);
        lemma_wrap_entry(137, 1, 17);
        lemma_entry(17, 0, 17);
        lemma_wrap_entry(98, 0, 98);
        lemma_entry(98, 3, 8);
        lemma_wrap_entry(18, 0, 18);
        lemma_entry(18, 0, 18);
    } else if s == 98 {
        lemma_entry(98, 3, 8);
        lemma_wrap_entry(138, 1, 18);
        lemma_entry(18, 0, 18);
        lemma_wrap_entry(99, 0, 99);
        lemma_entry(99, 3, 9);
        lemma_wrap_entry(19, 0, 19);
        lemma_entry(19, 0, 19);
    } else if s == 99 {
        lemma_entry(99, 3, 9);
        lemma_wrap_entry(139, 1, 19);
        lemma_entry(19, 0, 19);
        lemma_wrap_entry(100, 0, 100);
        lemma_entry(100, 3, 10);
        lemma_wrap_entry(20, 0, 20);
        lemma_entry(20, 0, 20);
    } else if s == 100 {
        lemma_entry(100, 3, 10);
        lemma_wrap_entry(140, 1, 20);
        lemma_entry(20, 0, 20);
        lemma_wrap_entry(101, 0, 101);
        lemma_entry(101, 3, 11);
        lemma_wrap_entry(21, 0, 21);
        lemma_entry(21, 0, 21);
    } else if s == 101 {
        lemma_entry(101, 3, 11);
        lemma_wrap_entry(141, 1, 21);
        lemma_entry(21, 0, 21);
        lemma_wrap_entry(102, 0, 102);
        lemma_entry(102, 3, 12);
        lemma_wrap_entry(22, 0, 22);
        lemma_entry(22, 0, 22);
    } else if s == 102 {
        lemma_entry(102, 3, 12);
        lemma_wrap_entry(142, 1, 22);
        lemma_entry(22, 0, 22);
        lemma_wrap_entry(103, 0, 103);
        lemma_entry(103, 3, 13);
        lemma_wrap_entry(23, 0, 23);
        lemma_entry(23, 0, 23);
    } else if s == 103 {
        lemma_entry(103, 3, 13);
        lemma_wrap_entry(143, 1, 23);
        lemma_entry(23, 0, 23);
        lemma_wrap_entry(104, 0, 104);
        lemma_entry(104, 3, 14);
        lemma_wrap_entry(24, 0, 24);
        lemma_entry(24, 0, 24);
    } else if s == 104 {
        lemma_entry(104, 3, 14);
        lemma_wrap_entry(144, 1, 24);
        lemma_entry(24, 0, 24);
        lemma_wrap_entry(105, 0, 105);
        lemma_entry(105, 3, 15);
        lemma_wrap_entry(25, 0, 25);
        lemma_entry(25, 0, 25);
    } else if s == 105 {
        lemma_entry(105, 3, 15);
        lemma_wrap_entry(145, 1, 25);
        lemma_entry(25, 0, 25);
        lemma_wrap_entry(106, 0, 106);
        lemma_entry(106, 3, 16);
        lemma_wrap_entry(26, 0, 26);
        lemma_entry(26, 0, 26);
    } else if s == 106 {
        lemma_entry(106, 3, 16);
        lemma_wrap_entry(146, 1, 26);
        lemma_entry(26, 0, 26);
        lemma_wrap_entry(107, 0, 107);
        lemma_entry(107, 3, 17);
        lemma_wrap_entry(27, 0, 27);
        lemma_entry(27, 0, 27);
    } else if s == 107 {
        lemma_entry(107, 3, 17);
        lemma_wrap_entry(147, 1, 27);
        lemma_entry(27, 0, 27);
        lemma_wrap_entry(108, 0, 108);
        lemma_entry(108, 3, 18);
        lemma_wrap_entry(28, 0, 28);
        lemma_entry(28, 0, 28);
    } else if s == 108 {
        lemma_entry(108, 3, 18);
        lemma_wrap_entry(148, 1, 28);
        lemma_entry(28, 0, 28);
        lemma_wrap_entry(109, 0, 109);
        lemma_entry(109, 3, 19);
        lemma_wrap_entry(29, 0, 29);
        lemma_entry(29, 0, 29);
    } else if s == 109 {
        lemma_entry(109, 3, 19);
        lemma_wrap_entry(149, 1, 29);
        lemma_entry(29, 0, 29);
        lemma_wrap_entry(110, 0, 110);
        lemma_entry(110, 3, 20);
        lemma_wrap_entry(30, 0, 30);
        lemma_entry(30, 1, 0);
    } else if s == 110 {
        lemma_entry(110, 3, 20);
        lemma_wrap_entry(150, 1, 30);
        lemma_entry(30, 1, 0);
        lemma_wrap_entry(111, 0, 111);
        lemma_entry(111, 3, 21);
        lemma_wrap_entry(31, 0, 31);
        lemma_entry(31, 1, 1);
    } else if s == 111 {
        lemma_entry(111, 3, 21);
        lemma_wrap_entry(151, 1, 31);
        lemma_entry(31, 1, 1);
        lemma_wrap_entry(112, 0, 112);
        lemma_entry(112, 3, 22);
        lemma_wrap_entry(32, 0, 32);
        lemma_entry(32, 1, 2);
    } else if s == 112 {
        lemma_entry(112, 3, 22);
        lemma_wrap_entry(152, 1, 32);
        lemma_entry(32, 1, 2);
        lemma_wrap_entry(113, 0, 113);
        lemma_entry(113, 3, 23);
        lemma_wrap_entry(33, 0, 33);
        lemma_entry(33, 1, 3);
    } else if s == 113 {
        lemma_entry(113, 3, 23);
        lemma_wrap_entry(153, 1, 33);
        lemma_entry(33, 1, 3);
        lemma_wrap_entry(114, 0, 114);
        lemma_entry(114, 3, 24);
        lemma_wrap_entry(34, 0, 34);
        lemma_entry(34, 1, 4);
    } else if s == 114 {
        lemma_entry(114, 3, 24);
        lemma_wrap_entry(154, 1, 34);
        lemma_entry(34, 1, 4);
        lemma_wrap_entry(115, 0, 115);
        lemma_entry(115, 3, 25);
        lemma_wrap_entry(35, 0, 35);
        lemma_entry(35, 1, 5);
    } else if s == 115 {
        lemma_entry(115, 3, 25);
        lemma_wrap_entry(155, 1, 35);
        lemma_entry(35, 1, 5);
        lemma_wrap_entry(116, 0, 116);
        lemma_entry(116, 3, 26);
        lemma_wrap_entry(36, 0, 36);
        lemma_entry(36, 1, 6);
    } else if s == 116 {
        lemma_entry(116, 3, 26);
        lemma_wrap_entry(156, 1, 36);
        lemma_entry(36, 1, 6);
        lemma_wrap_entry(117, 0, 117);
        lemma_entry(117, 3, 27);
        lemma_wrap_entry(37, 0, 37);
        lemma_entry(37, 1, 7);
    } else if s == 117 {
        lemma_entry(117, 3, 27);
        lemma_wrap_entry(157, 1, 37);
        lemma_entry(37, 1, 7);
        lemma_wrap_entry(118, 0, 118);
        lemma_entry(118, 3, 28);
        lemma_wrap_entry(38, 0, 38);
        lemma_entry(38, 1, 8);
    } else if s == 118 {
        lemma_entry(118, 3, 28);
        lemma_wrap_entry(158, 1, 38);
        lemma_entry(38, 1, 8);
        lemma_wrap_entry(119, 0, 119);
        lemma_entry(119, 3, 29);
        lemma_wrap_entry(39, 0, 39);
        lemma_entry(39, 1, 9);
    } else {
        lemma_entry(119, 3, 29);
        lemma_wrap_entry(159, 1, 39);
        lemma_entry(39, 1, 9);
        lemma_wrap_entry(120, 1, 0);
        lemma_entry(0, 0, 0);
        lemma_wrap_entry(40, 0, 40);
        lemma_entry(40, 1, 10);
    }
}

/// `v - u` reaches nearly `DIR_SCALE / 2` on some axis.
pub open spec fn dirs_apart(u: Vec2, v: Vec2) -> bool {
    v.x - u.x >= 4998 || u.x - v.x >= 4998 || v.y - u.y >= 4998 || u.y - v.y >= 4998
}

proof fn lemma_interpolated_apart(d1: int, e1: int, d2: int, e2: int, f: int)
    requires
        d2 - d1 >= 5000,
        e2 - e1 >= 5000,
        0 <= f < 3000,
    ensures
        (d2 + trunc_div((e2 - d2) * f, 3000)) - (d1 + trunc_div((e1 - d1) * f, 3000)) >= 4998,
{
    lemma_trunc_div_close((e1 - d1) * f, 3000);
    lemma_trunc_div_close((e2 - d2) * f, 3000);
    let t1 = trunc_div((e1 - d1) * f, 3000);
    let t2 = trunc_div((e2 - d2) * f, 3000);
    assert((3000 - f) * (d2 - d1) + f * (e2 - e1) >= 15000000) by (nonlinear_arith)
        requires
            d2 - d1 >= 5000,
            e2 - e1 >= 5000,
            0 <= f < 3000,
    ;
    assert(3000 * t2 - 3000 * t1 > (e2 - d2) * f - (e1 - d1) * f - 6000);
    assert((e2 - d2) * f - (e1 - d1) * f == f * (e2 - e1) - f * (d2 - d1)) by (nonlinear_arith);
    assert(3000 * (d2 - d1 + t2 - t1) > 15000000 - 6000) by (nonlinear_arith)
        requires
            3000 * t2 - 3000 * t1 > f * (e2 - e1) - f * (d2 - d1) - 6000,
            (3000 - f) * (d2 - d1) + f * (e2 - e1) >= 15000000,
    ;
}

/// Directions at the same fraction past table entries `m` apart, whose
/// intervals the table sets apart, differ by nearly `DIR_SCALE / 2` on an axis.
pub proof fn lemma_directions_apart(a1: int, a2: int, m: int)
    requires
        table_apart(step_index(a1), m),
        step_index(a2) == (step_index(a1) + m) % (4 * QUARTER_STEPS),
        step_fraction(a2) == step_fraction(a1),
    ensures
        dirs_apart(spec_direction(a1), spec_direction(a2)),
{
    reveal(spec_direction);
    let n = 4 * QUARTER_STEPS;
    let s1 = step_index(a1);
    let s2 = step_index(a2);
    let f = step_fraction(a1);
    lemma_mod_pos_bound(a1 % (TURN as int), TABLE_STEP as int);
    let d1 = step_direction(s1);
    let e1 = step_direction((s1 + 1) % n);
    let d2 = step_direction(s2);
    let e2 = step_direction((s2 + 1) % n);
    lemma_direction_bounded(a1);
    lemma_direction_bounded(a2);
    lemma_step_direction_bounded(s1);
    lemma_step_direction_bounded(s2);
    lemma_step_direction_bounded((s1 + 1) % n);
    lemma_step_direction_bounded((s2 + 1) % n);
    lemma_between(d1.x as int, e1.x as int, f);
    lemma_between(d1.y as int, e1.y as int, f);
    lemma_between(d2.x as int, e2.x as int, f);
    lemma_between(d2.y as int, e2.y as int, f);
    if d2.x - d1.x >= 5000 && e2.x - e1.x >= 5000 {
        lemma_interpolated_apart(d1.x as int, e1.x as int, d2.x as int, e2.x as int, f);
    } else if d1.x - d2.x >= 5000 && e1.x - e2.x >= 5000 {
        lemma_interpolated_apart(d2.x as int, e2.x as int, d1.x as int, e1.x as int, f);
    } else if d2.y - d1.y >= 5000 && e2.y - e1.y >= 5000 {
        lemma_interpolated_apart(d1.y as int, e1.y as int, d2.y as int, e2.y as int, f);
    } else {
        lemma_interpolated_apart(d2.y as int, e2.y as int, d1.y as int, e1.y as int, f);
    }
}

} // verus!
