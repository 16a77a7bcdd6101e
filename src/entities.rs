use vstd::prelude::*;
use crate::body::{abs, lemma_step_bounds, Body, ACC_LIMIT, ANGLE_LIMIT, MAX_DT, MOTION_LIMIT, SPEED_LIMIT};
use crate::geometry::{
    ceil_sqrt, direction, dirs_apart, is_ceil_sqrt, lemma_direction_bounded, lemma_directions_apart,
    lemma_step_index_shift, lemma_table_apart_20, lemma_table_apart_24, lemma_table_apart_30,
    lemma_table_apart_40, lemma_trunc_div_apart, lemma_trunc_div_bounded, mul_div, spec_direction,
    square_root_ceil, step_fraction, step_index, trunc_div, Vec2, DIR_SCALE, QUARTER_STEPS,
    TABLE_STEP, TURN,
};
use crate::collisions::{edge_axis, lemma_nonzero_length, well_formed};
use crate::shapes::Shape;

verus! {

/// Distance from the ship's centre to its nose (30 px).
pub const SHIP_RADIUS: i64 = 1920;

/// Distance from the ship's centre to each rear corner (20 px).
pub const SHIP_REAR: i64 = 1280;

/// Acceleration of the ship under thrust (4000 px/s^2).
pub const SHIP_THRUST: i64 = 256000;

/// Braking gain, per second, applied to the ship's velocity without thrust.
pub const SHIP_BRAKE: i64 = 10;

/// Angular acceleration of the ship while turning (50 rad/s^2).
pub const SHIP_TURN: i64 = 2864789;

/// Braking gain, per second, applied to the ship's spin when not turning.
pub const SHIP_SPIN_BRAKE: i64 = 15;

/// Top linear speed of the ship (1000 px/s).
pub const SHIP_MAX_SPEED: i64 = 64000;

/// The square of `SHIP_MAX_SPEED`.
pub const SHIP_MAX_SPEED_SQ: i128 = 4096000000;

/// Top angular speed of the ship (3 rad/s).
pub const SHIP_MAX_SPIN: i64 = 171887;

/// Half the width of a bullet's box (10 px wide).
pub const BULLET_HALF_WIDTH: i64 = 320;

/// Half the height of a bullet's box (5 px tall).
pub const BULLET_HALF_HEIGHT: i64 = 160;

/// Age, in milliseconds, at which smoke disappears.
pub const SMOKE_LIFETIME: i64 = 3000;

/// The point at distance `len` from `p` in the direction of `angle`
/// (a negative `len` goes the other way).
pub open spec fn spec_toward(p: Vec2, angle: int, len: int) -> Vec2 {
    let d = spec_direction(angle);
    Vec2 {
        x: (p.x + trunc_div(len * d.x, DIR_SCALE as int)) as i64,
        y: (p.y + trunc_div(len * d.y, DIR_SCALE as int)) as i64,
    }
}

/// Every vertex lies within `r` of `c` on each axis.
pub open spec fn near(poly: Seq<Vec2>, c: Vec2, r: int) -> bool {
    forall|i: int|
        0 <= i < poly.len() ==> c.x - r <= (#[trigger] poly[i]).x <= c.x + r && c.y - r
            <= poly[i].y <= c.y + r
}

proof fn lemma_toward_near(p: Vec2, angle: int, len: int)
    requires
        p.fits(MOTION_LIMIT as int),
        abs(len) <= MOTION_LIMIT,
    ensures
        p.x - abs(len) <= p.x + trunc_div(len * spec_direction(angle).x, DIR_SCALE as int)
            <= p.x + abs(len),
        p.y - abs(len) <= p.y + trunc_div(len * spec_direction(angle).y, DIR_SCALE as int)
            <= p.y + abs(len),
        p.x - abs(len) <= spec_toward(p, angle, len).x <= p.x + abs(len),
        p.y - abs(len) <= spec_toward(p, angle, len).y <= p.y + abs(len),
{
    let d = spec_direction(angle);
    lemma_direction_bounded(angle);
    let a = abs(len);
    assert(-a * 10000 <= len * d.x <= a * 10000) by (nonlinear_arith)
        requires
            a == abs(len),
            -10000 <= d.x <= 10000,
    ;
    assert(-a * 10000 <= len * d.y <= a * 10000) by (nonlinear_arith)
        requires
            a == abs(len),
            -10000 <= d.y <= 10000,
    ;
    lemma_trunc_div_bounded(len * d.x, DIR_SCALE as int, a);
    lemma_trunc_div_bounded(len * d.y, DIR_SCALE as int, a);
}

/// The point at distance `len` from `p` in the direction of `angle`.
pub fn toward(p: Vec2, angle: i64, len: i64) -> (r: Vec2)
    requires
        p.fits(MOTION_LIMIT as int),
        abs(len as int) <= MOTION_LIMIT,
    ensures
        r == spec_toward(p, angle as int, len as int),
        p.x - abs(len as int) <= r.x <= p.x + abs(len as int),
        p.y - abs(len as int) <= r.y <= p.y + abs(len as int),
{
    let d = direction(angle);
    proof {
        lemma_toward_near(p, angle as int, len as int);
    }
    Vec2 { x: p.x + mul_div(len, d.x, DIR_SCALE), y: p.y + mul_div(len, d.y, DIR_SCALE) }
}

/// The player's controls for one frame.
#[derive(Clone, Copy, Debug, PartialEq, Eq, Structural)]
pub struct Controls {
    pub thrust: bool,
    pub left: bool,
    pub right: bool,
    pub fire: bool,
}

/// The player's ship: a triangle whose nose points against its heading.
#[derive(Clone, Copy, Debug, PartialEq, Eq, Structural)]
pub struct Ship {
    pub body: Body,
}

/// An asteroid: a regular polygon of `sides` vertices at distance `size`
/// from its centre.
#[derive(Clone, Copy, Debug, PartialEq, Eq, Structural)]
pub struct Asteroid {
    pub body: Body,
    pub sides: u8,
    pub size: i64,
}

/// A bullet: a small box round its position.
#[derive(Clone, Copy, Debug, PartialEq, Eq, Structural)]
pub struct Bullet {
    pub body: Body,
}

/// A puff of smoke left where an asteroid was destroyed; `timer` is its age
/// in milliseconds.
#[derive(Clone, Copy, Debug, PartialEq, Eq, Structural)]
pub struct Smoke {
    pub body: Body,
    pub size: i64,
    pub timer: i64,
}

impl Shape for Ship {
    /// The nose, ahead against the heading, then the two rear corners a third
    /// of a turn either side of it.
    open spec fn spec_shape(&self) -> Seq<Vec2> {
        let p = self.body.lin_pos;
        let a = self.body.ang_pos as int;
        seq![
            spec_toward(p, a, -SHIP_RADIUS),
            spec_toward(p, a + TURN / 3, -SHIP_REAR),
            spec_toward(p, a + 2 * TURN / 3, -SHIP_REAR),
        ]
    }

    open spec fn shape_fits(&self) -> bool {
        self.body.lin_pos.fits(MOTION_LIMIT as int) && abs(self.body.ang_pos as int)
            <= ANGLE_LIMIT
    }

    fn shape(&self) -> (r: Vec<Vec2>) {
        let p = self.body.lin_pos;
        let a = self.body.ang_pos;
        let mut vertices: Vec<Vec2> = Vec::new();
        vertices.push(toward(p, a, -SHIP_RADIUS));
        vertices.push(toward(p, a + TURN / 3, -SHIP_REAR));
        vertices.push(toward(p, a + 2 * TURN / 3, -SHIP_REAR));
        assert(vertices@ =~= self.spec_shape());
        vertices
    }
}

impl Shape for Asteroid {
    /// Vertex `k` lies at distance `size` in the direction of the body's angle
    /// plus `k` parts of a turn cut into `sides` equal parts.
    open spec fn spec_shape(&self) -> Seq<Vec2> {
        Seq::new(
            self.sides as nat,
            |k: int|
                spec_toward(
                    self.body.lin_pos,
                    self.body.ang_pos + k * (TURN as int / self.sides as int),
                    self.size as int,
                ),
        )
    }

    open spec fn shape_fits(&self) -> bool {
        &&& self.sides >= 1
        &&& self.body.lin_pos.fits(MOTION_LIMIT as int)
        &&& abs(self.body.ang_pos as int) <= ANGLE_LIMIT
        &&& 0 <= self.size <= MOTION_LIMIT
    }

    fn shape(&self) -> (r: Vec<Vec2>) {
        let center = self.body.lin_pos;
        let step: i64 = TURN / (self.sides as i64);
        let mut vertices: Vec<Vec2> = Vec::new();
        let mut k: u8 = 0;
        while k < self.sides
            invariant
                self.shape_fits(),
                center == self.body.lin_pos,
                step == TURN as int / self.sides as int,
                k <= self.sides,
                vertices@ =~= self.spec_shape().take(k as int),
            decreases self.sides - k,
        {
            assert(0 <= (k as i64) * step <= 255 * TURN) by (nonlinear_arith)
                requires
                    0 <= k <= 255,
                    0 <= step <= TURN,
            ;
            let angle = self.body.ang_pos + (k as i64) * step;
            vertices.push(toward(center, angle, self.size));
            k = k + 1;
        }
        vertices
    }
}

impl Shape for Bullet {
    /// The corners of its box, going round from the top left.
    open spec fn spec_shape(&self) -> Seq<Vec2> {
        let p = self.body.lin_pos;
        seq![
            Vec2 { x: (p.x - BULLET_HALF_WIDTH) as i64, y: (p.y - BULLET_HALF_HEIGHT) as i64 },
            Vec2 { x: (p.x + BULLET_HALF_WIDTH) as i64, y: (p.y - BULLET_HALF_HEIGHT) as i64 },
            Vec2 { x: (p.x + BULLET_HALF_WIDTH) as i64, y: (p.y + BULLET_HALF_HEIGHT) as i64 },
            Vec2 { x: (p.x - BULLET_HALF_WIDTH) as i64, y: (p.y + BULLET_HALF_HEIGHT) as i64 },
        ]
    }

    open spec fn shape_fits(&self) -> bool {
        self.body.lin_pos.fits(MOTION_LIMIT as int)
    }

    fn shape(&self) -> (r: Vec<Vec2>) {
        let p = self.body.lin_pos;
        let left = p.x - BULLET_HALF_WIDTH;
        let right = p.x + BULLET_HALF_WIDTH;
        let top = p.y - BULLET_HALF_HEIGHT;
        let bottom = p.y + BULLET_HALF_HEIGHT;
        let mut vertices: Vec<Vec2> = Vec::new();
        vertices.push(Vec2 { x: left, y: top });
        vertices.push(Vec2 { x: right, y: top });
        vertices.push(Vec2 { x: right, y: bottom });
        vertices.push(Vec2 { x: left, y: bottom });
        assert(vertices@ =~= self.spec_shape());
        vertices
    }
}

/// The ship's outline lies within `SHIP_RADIUS` of its position.
pub proof fn lemma_ship_shape_near(s: Ship)
    requires
        s.shape_fits(),
    ensures
        near(s.spec_shape(), s.body.lin_pos, SHIP_RADIUS as int),
{
    let p = s.body.lin_pos;
    let a = s.body.ang_pos as int;
    lemma_toward_near(p, a, -SHIP_RADIUS);
    lemma_toward_near(p, a + TURN / 3, -SHIP_REAR);
    lemma_toward_near(p, a + 2 * TURN / 3, -SHIP_REAR);
}

/// An asteroid's outline lies within `size` of its position.
pub proof fn lemma_asteroid_shape_near(a: Asteroid)
    requires
        a.shape_fits(),
    ensures
        near(a.spec_shape(), a.body.lin_pos, a.size as int),
{
    assert forall|k: int| 0 <= k < a.spec_shape().len() implies {
        let v = #[trigger] a.spec_shape()[k];
        a.body.lin_pos.x - a.size <= v.x <= a.body.lin_pos.x + a.size && a.body.lin_pos.y
            - a.size <= v.y <= a.body.lin_pos.y + a.size
    } by {
        lemma_toward_near(
            a.body.lin_pos,
            a.body.ang_pos + k * (TURN as int / a.sides as int),
            a.size as int,
        );
    }
}

/// A bullet's outline lies within `BULLET_HALF_WIDTH` of its position.
pub proof fn lemma_bullet_shape_near(b: Bullet)
    requires
        b.shape_fits(),
    ensures
        near(b.spec_shape(), b.body.lin_pos, BULLET_HALF_WIDTH as int),
{
}

/// Two ships in the same pose have the same outline, whatever their motion.
pub proof fn lemma_ship_shape_determined(s1: Ship, s2: Ship)
    requires
        s1.body.lin_pos == s2.body.lin_pos,
        s1.body.ang_pos == s2.body.ang_pos,
    ensures
        s1.spec_shape() == s2.spec_shape(),
{
}

/// Two asteroids in the same pose, with the same sides and size, have the
/// same outline, whatever their motion.
pub proof fn lemma_asteroid_shape_determined(a1: Asteroid, a2: Asteroid)
    requires
        a1.body.lin_pos == a2.body.lin_pos,
        a1.body.ang_pos == a2.body.ang_pos,
        a1.sides == a2.sides,
        a1.size == a2.size,
    ensures
        a1.spec_shape() == a2.spec_shape(),
{
    assert(a1.spec_shape() =~= a2.spec_shape());
}

/// Two bullets at the same position have the same outline.
pub proof fn lemma_bullet_shape_determined(b1: Bullet, b2: Bullet)
    requires
        b1.body.lin_pos == b2.body.lin_pos,
    ensures
        b1.spec_shape() == b2.spec_shape(),
{
}

/// A velocity brought down to length `max` when it is longer, each
/// coordinate scaled by `max / ceil_sqrt(|vel|^2)` and rounded toward zero.
pub open spec fn clamp_speed(vel: Vec2, max: int) -> Vec2 {
    if vel.length_sq() > max * max {
        let len = ceil_sqrt(vel.length_sq());
        Vec2 { x: trunc_div(vel.x * max, len) as i64, y: trunc_div(vel.y * max, len) as i64 }
    } else {
        vel
    }
}

/// A spin brought down to `max` in magnitude, keeping its sign.
pub open spec fn clamp_spin(w: int, max: int) -> int {
    if w > max {
        max
    } else if w < -max {
        -max
    } else {
        w
    }
}

/// The ship's angular acceleration from the turning controls: left wins over
/// right; with neither, a brake against the spin.
pub open spec fn turn_input(c: Controls, ang_vel: int) -> int {
    if c.left {
        -SHIP_TURN
    } else if c.right {
        SHIP_TURN as int
    } else {
        -SHIP_SPIN_BRAKE * ang_vel
    }
}

/// The vector that a bullet's velocity adds to one split fragment and takes
/// from the other: a fifth of it, turned a quarter turn clockwise.
pub open spec fn deflection(bullet_vel: Vec2) -> Vec2 {
    Vec2 { x: trunc_div(bullet_vel.y as int, 5) as i64, y: trunc_div(-bullet_vel.x, 5) as i64 }
}

proof fn lemma_clamp_speed_bounded(vel: Vec2, max: int)
    requires
        vel.fits(MOTION_LIMIT as int),
        max > 0,
    ensures
        clamp_speed(vel, max).fits(if max > MOTION_LIMIT { max } else { MOTION_LIMIT as int }),
        vel.length_sq() > max * max ==> clamp_speed(vel, max).fits(max),
        vel.length_sq() > max * max ==> ceil_sqrt(vel.length_sq()) > 0,
{
    let n = vel.length_sq();
    if n > max * max {
        let len = ceil_sqrt(n);
        assert(max * max > 0) by (nonlinear_arith)
            requires
                max > 0,
        ;
        assert(exists|r: int| is_ceil_sqrt(n, r)) by {
            lemma_ceil_sqrt_exists(n);
        }
        assert(is_ceil_sqrt(n, len));
        assert(-len <= vel.x <= len && -len <= vel.y <= len) by (nonlinear_arith)
            requires
                n == vel.x * vel.x + vel.y * vel.y,
                len >= 0,
                len * len >= n,
        ;
        assert(len > 0) by (nonlinear_arith)
            requires
                len >= 0,
                len * len >= n,
                n > 0,
        ;
        assert(-max * len <= vel.x * max <= max * len) by (nonlinear_arith)
            requires
                -len <= vel.x <= len,
                max > 0,
        ;
        assert(-max * len <= vel.y * max <= max * len) by (nonlinear_arith)
            requires
                -len <= vel.y <= len,
                max > 0,
        ;
        lemma_trunc_div_bounded(vel.x * max, len, max);
        lemma_trunc_div_bounded(vel.y * max, len, max);
    }
}

proof fn lemma_ceil_sqrt_exists(n: int)
    requires
        n > 0,
    ensures
        exists|r: int| is_ceil_sqrt(n, r),
    decreases n,
{
    if n == 1 {
        assert(is_ceil_sqrt(1, 1));
    } else {
        lemma_ceil_sqrt_exists(n - 1);
        let r = choose|r: int| #[trigger] is_ceil_sqrt(n - 1, r);
        if r * r >= n {
            assert(is_ceil_sqrt(n, r));
        } else {
            assert(r * r == n - 1);
            assert((r + 1) * (r + 1) >= n) by (nonlinear_arith)
                requires
                    r >= 0,
                    r * r == n - 1,
            ;
            assert(is_ceil_sqrt(n, r + 1));
        }
    }
}

proof fn lemma_brake_bounded(k: int, v: int)
    requires
        0 <= k <= 15,
        -MOTION_LIMIT <= v <= MOTION_LIMIT,
    ensures
        -15 * MOTION_LIMIT <= -k * v <= 15 * MOTION_LIMIT,
{
    assert(-15 * 1099511627776 <= -k * v <= 15 * 1099511627776) by (nonlinear_arith)
        requires
            0 <= k <= 15,
            -1099511627776 <= v <= 1099511627776,
    ;
}

impl Ship {
    /// The body once the frame's controls are applied: thrust against the
    /// heading or a brake against the velocity, turning or a brake against the
    /// spin, then both speeds clamped to the ship's top speeds.
    pub open spec fn spec_controlled(self, c: Controls) -> Body {
        let b = self.body;
        Body {
            lin_acc: if c.thrust {
                spec_toward(Vec2 { x: 0, y: 0 }, b.ang_pos as int, -SHIP_THRUST)
            } else {
                Vec2 {
                    x: (-SHIP_BRAKE * b.lin_vel.x) as i64,
                    y: (-SHIP_BRAKE * b.lin_vel.y) as i64,
                }
            },
            ang_acc: turn_input(c, b.ang_vel as int) as i64,
            lin_vel: clamp_speed(b.lin_vel, SHIP_MAX_SPEED as int),
            ang_vel: clamp_spin(b.ang_vel as int, SHIP_MAX_SPIN as int) as i64,
            ..b
        }
    }

    /// Applies the frame's controls, then advances the ship by `dt`
    /// milliseconds on a screen of size `extent`.
    pub fn update(&mut self, controls: Controls, dt: i64, extent: Vec2)
        requires
            old(self).body.state_within_limits(),
            0 <= dt <= MAX_DT,
            extent.x >= 0,
            extent.y >= 0,
        ensures
            final(self).body == old(self).spec_controlled(controls).spec_step(dt as int, extent),
            0 <= final(self).body.lin_pos.x <= extent.x,
            0 <= final(self).body.lin_pos.y <= extent.y,
            final(self).body.lin_vel.fits(SPEED_LIMIT as int),
            abs(final(self).body.ang_pos as int) <= ANGLE_LIMIT,
    {
        let ghost start = *self;
        let b = self.body;
        proof {
            lemma_brake_bounded(SHIP_BRAKE as int, b.lin_vel.x as int);
            lemma_brake_bounded(SHIP_BRAKE as int, b.lin_vel.y as int);
            lemma_brake_bounded(SHIP_SPIN_BRAKE as int, b.ang_vel as int);
        }
        let lin_boost = if controls.thrust {
            toward(Vec2 { x: 0, y: 0 }, b.ang_pos, -SHIP_THRUST)
        } else {
            Vec2 { x: -SHIP_BRAKE * b.lin_vel.x, y: -SHIP_BRAKE * b.lin_vel.y }
        };
        let ang_boost: i64 = if controls.left {
            -SHIP_TURN
        } else if controls.right {
            SHIP_TURN
        } else {
            -SHIP_SPIN_BRAKE * b.ang_vel
        };
        self.body.lin_acc = lin_boost;
        self.body.ang_acc = ang_boost;
        proof {
            lemma_clamp_speed_bounded(b.lin_vel, SHIP_MAX_SPEED as int);
        }
        let speed_sq = b.lin_vel.len_sq();
        if speed_sq > SHIP_MAX_SPEED_SQ {
            assert(speed_sq <= 0x10_0000_0000_0000_0000_0000_0000) by (nonlinear_arith)
                requires
                    speed_sq == b.lin_vel.x * b.lin_vel.x + b.lin_vel.y * b.lin_vel.y,
                    b.lin_vel.fits(MOTION_LIMIT as int),
            ;
            let len = square_root_ceil(speed_sq as u128) as i64;
            self.body.lin_vel = Vec2 {
                x: mul_div(b.lin_vel.x, SHIP_MAX_SPEED, len),
                y: mul_div(b.lin_vel.y, SHIP_MAX_SPEED, len),
            };
        }
        if b.ang_vel > SHIP_MAX_SPIN {
            self.body.ang_vel = SHIP_MAX_SPIN;
        } else if b.ang_vel < -SHIP_MAX_SPIN {
            self.body.ang_vel = -SHIP_MAX_SPIN;
        }
        assert(self.body == start.spec_controlled(controls));
        assert(self.body.lin_acc.fits(ACC_LIMIT as int));
        assert(abs(self.body.ang_acc as int) <= ACC_LIMIT);
        assert(self.body.state_within_limits());
        proof {
            lemma_step_bounds(self.body, dt as int, extent);
        }
        self.body.update(dt, extent);
    }
}

impl Default for Ship {
    /// Near the top of the screen, at rest, its nose pointing up.
    fn default() -> (r: Ship)
        ensures
            r == (Ship {
                body: Body {
                    lin_pos: Vec2 { x: 34240, y: 3520 },
                    lin_vel: Vec2 { x: 0, y: 0 },
                    lin_acc: Vec2 { x: 0, y: 0 },
                    ang_pos: 270000,
                    ang_vel: 0,
                    ang_acc: 0,
                },
            }),
    {
        Ship { body: Body::at_rest(Vec2 { x: 34240, y: 3520 }, 270000) }
    }
}

impl Asteroid {
    /// A fragment of this asteroid moving at `vel`: same position, angle and
    /// spin, one side fewer, two thirds of the size.
    pub open spec fn spec_fragment(self, vel: Vec2) -> Asteroid {
        Asteroid {
            body: Body {
                lin_pos: self.body.lin_pos,
                lin_vel: vel,
                lin_acc: Vec2 { x: 0, y: 0 },
                ang_pos: self.body.ang_pos,
                ang_vel: self.body.ang_vel,
                ang_acc: 0,
            },
            sides: (self.sides - 1) as u8,
            size: (2 * self.size / 3) as i64,
        }
    }

    /// What a hit by a bullet moving at `bullet_vel` leaves: two fragments,
    /// their velocities the asteroid's less and plus the deflection, when the
    /// asteroid has more than three sides; nothing otherwise.
    pub open spec fn spec_split(self, bullet_vel: Vec2) -> Seq<Asteroid> {
        if self.sides > 3 {
            let v = self.body.lin_vel;
            let d = deflection(bullet_vel);
            seq![
                self.spec_fragment(Vec2 { x: (v.x - d.x) as i64, y: (v.y - d.y) as i64 }),
                self.spec_fragment(Vec2 { x: (v.x + d.x) as i64, y: (v.y + d.y) as i64 }),
            ]
        } else {
            seq![]
        }
    }

    /// The fragments left when a bullet moving at `bullet_vel` hits this asteroid.
    pub fn split(&self, bullet_vel: Vec2) -> (r: Vec<Asteroid>)
        requires
            self.body.lin_vel.fits(0x1000_0000_0000_0000),
            bullet_vel.fits(0x1000_0000_0000_0000),
            0 <= self.size <= MOTION_LIMIT,
        ensures
            r@ == self.spec_split(bullet_vel),
    {
        let mut fragments: Vec<Asteroid> = Vec::new();
        if self.sides > 3 {
            let d = Vec2 { x: bullet_vel.y / 5, y: -bullet_vel.x / 5 };
            let v = self.body.lin_vel;
            let sides = self.sides - 1;
            let size = 2 * self.size / 3;
            fragments.push(
                Asteroid {
                    body: Body {
                        lin_pos: self.body.lin_pos,
                        lin_vel: Vec2 { x: v.x - d.x, y: v.y - d.y },
                        lin_acc: Vec2 { x: 0, y: 0 },
                        ang_pos: self.body.ang_pos,
                        ang_vel: self.body.ang_vel,
                        ang_acc: 0,
                    },
                    sides,
                    size,
                },
            );
            fragments.push(
                Asteroid {
                    body: Body {
                        lin_pos: self.body.lin_pos,
                        lin_vel: Vec2 { x: v.x + d.x, y: v.y + d.y },
                        lin_acc: Vec2 { x: 0, y: 0 },
                        ang_pos: self.body.ang_pos,
                        ang_vel: self.body.ang_vel,
                        ang_acc: 0,
                    },
                    sides,
                    size,
                },
            );
        }
        assert(fragments@ =~= self.spec_split(bullet_vel));
        fragments
    }

    /// Drifts the asteroid, with no acceleration, by `dt` milliseconds.
    pub fn update(&mut self, dt: i64, extent: Vec2)
        requires
            old(self).body.state_within_limits(),
            0 <= dt <= MAX_DT,
            extent.x >= 0,
            extent.y >= 0,
        ensures
            *final(self) == (Asteroid {
                body: old(self).body.coasting().spec_step(dt as int, extent),
                ..*old(self)
            }),
    {
        self.body.ang_acc = 0;
        self.body.lin_acc = Vec2 { x: 0, y: 0 };
        self.body.update(dt, extent);
    }
}

/// Destroying an asteroid of four sides leaves two of three sides and two
/// thirds of its size at its position; one of three sides leaves nothing.
pub proof fn lemma_split_fragments(a: Asteroid, bullet_vel: Vec2)
    ensures
        a.sides == 4 ==> {
            let s = a.spec_split(bullet_vel);
            &&& s.len() == 2
            &&& forall|i: int|
                0 <= i < 2 ==> (#[trigger] s[i]).sides == 3 && s[i].size == 2 * a.size / 3
                    && s[i].body.lin_pos == a.body.lin_pos
        },
        a.sides == 3 ==> a.spec_split(bullet_vel).len() == 0,
{
}

impl Bullet {
    /// Moves the bullet, with no acceleration, by `dt` milliseconds.
    pub fn update(&mut self, dt: i64, extent: Vec2)
        requires
            old(self).body.state_within_limits(),
            0 <= dt <= MAX_DT,
            extent.x >= 0,
            extent.y >= 0,
        ensures
            final(self).body == old(self).body.coasting().spec_step(dt as int, extent),
    {
        self.body.ang_acc = 0;
        self.body.lin_acc = Vec2 { x: 0, y: 0 };
        self.body.update(dt, extent);
    }
}

impl Smoke {
    /// Fresh smoke of the given size at `pos`.
    pub fn new(pos: Vec2, size: i64) -> (r: Smoke)
        ensures
            r == (Smoke { body: Body { lin_pos: pos, ..Body::spec_default() }, size, timer: 0 }),
    {
        Smoke { body: Body::at_rest(pos, 180000), size, timer: 0 }
    }

    /// Ages the smoke by `dt` milliseconds.
    pub fn update(&mut self, dt: i64)
        requires
            old(self).timer + dt <= i64::MAX,
            old(self).timer + dt >= i64::MIN,
        ensures
            *final(self) == (Smoke { timer: (old(self).timer + dt) as i64, ..*old(self) }),
    {
        self.timer = self.timer + dt;
    }
}

/// A bullet's outline is well formed.
pub proof fn lemma_bullet_well_formed(b: Bullet)
    requires
        b.shape_fits(),
    ensures
        well_formed(b.spec_shape()),
{
    let s = b.spec_shape();
    assert forall|i: int| 0 <= i < s.len() implies (#[trigger] edge_axis(s, i)).length_sq() > 0 by {
        lemma_nonzero_length(edge_axis(s, i));
    }
}

/// Points at the same distance, at least 5 subpixels, in directions nearly
/// half the table's scale apart on some axis, are different points.
proof fn lemma_apart_points(p: Vec2, a1: int, a2: int, len: int)
    requires
        p.fits(MOTION_LIMIT as int),
        5 <= len <= MOTION_LIMIT,
        dirs_apart(spec_direction(a1), spec_direction(a2)),
    ensures
        spec_toward(p, a1, len) != spec_toward(p, a2, len),
{
    let d1 = spec_direction(a1);
    let d2 = spec_direction(a2);
    lemma_toward_near(p, a1, len);
    lemma_toward_near(p, a2, len);
    if d2.x - d1.x >= 4998 {
        assert(len * d1.x + 2 * 10000 <= len * d2.x) by (nonlinear_arith)
            requires
                d2.x - d1.x >= 4998,
                len >= 5,
        ;
        lemma_trunc_div_apart(len * d1.x, len * d2.x, DIR_SCALE as int);
    } else if d1.x - d2.x >= 4998 {
        assert(len * d2.x + 2 * 10000 <= len * d1.x) by (nonlinear_arith)
            requires
                d1.x - d2.x >= 4998,
                len >= 5,
        ;
        lemma_trunc_div_apart(len * d2.x, len * d1.x, DIR_SCALE as int);
    } else if d2.y - d1.y >= 4998 {
        assert(len * d1.y + 2 * 10000 <= len * d2.y) by (nonlinear_arith)
            requires
                d2.y - d1.y >= 4998,
                len >= 5,
        ;
        lemma_trunc_div_apart(len * d1.y, len * d2.y, DIR_SCALE as int);
    } else {
        assert(len * d2.y + 2 * 10000 <= len * d1.y) by (nonlinear_arith)
            requires
                d1.y - d2.y >= 4998,
                len >= 5,
        ;
        lemma_trunc_div_apart(len * d2.y, len * d1.y, DIR_SCALE as int);
    }
}

/// Neighbouring vertex angles of a regular outline of `n` sides lie `m` table
/// entries apart at the same fraction past them.
proof fn lemma_neighbour_angles(ang: int, k: int, n: int, m: int, step: int)
    requires
        n * m == 120,
        m > 0,
        step == m * TABLE_STEP,
        0 <= k < n,
    ensures
        ({
            let ak = ang + k * step;
            let an = ang + (if k + 1 == n { 0 } else { k + 1 }) * step;
            &&& step_index(an) == (step_index(ak) + m) % (4 * QUARTER_STEPS)
            &&& step_fraction(an) == step_fraction(ak)
            &&& 0 <= step_index(ak) < 4 * QUARTER_STEPS
        }),
{
    let ak = ang + k * step;
    let next = if k + 1 == n {
        0
    } else {
        k + 1
    };
    let an = ang + next * step;
    assert(ak + m * TABLE_STEP == ang + (k + 1) * step) by (nonlinear_arith)
        requires
            ak == ang + k * step,
            step == m * 3000,
    ;
    lemma_step_index_shift(ak, m);
    if k + 1 == n {
        assert(ang + (k + 1) * step == ang + 120 * TABLE_STEP) by (nonlinear_arith)
            requires
                k + 1 == n,
                step == m * 3000,
                n * m == 120,
        ;
        assert(an == ang) by (nonlinear_arith)
            requires
                an == ang + next * step,
                next == 0,
        ;
        lemma_step_index_shift(ang, 120);
        lemma_step_index_shift(ang, 0);
        vstd::arithmetic::div_mod::lemma_fundamental_div_mod_converse(
            step_index(ang) + 120,
            120,
            1,
            step_index(ang),
        );
    }
}

#[verifier::rlimit(100)]
proof fn lemma_asteroid_vertices_differ(a: Asteroid, k: int, m: int, step: int)
    requires
        a.shape_fits(),
        a.size >= 5,
        a.sides * m == 120,
        m == 20 || m == 24 || m == 30 || m == 40,
        step == TURN as int / a.sides as int,
        step == m * TABLE_STEP,
        0 <= k < a.sides,
    ensures
        a.spec_shape()[k] != a.spec_shape()[if k + 1 == a.sides { 0 } else { k + 1 }],
{
    let n = a.sides as int;
    let p = a.body.lin_pos;
    let ang = a.body.ang_pos as int;
    let ak = ang + k * step;
    let next = if k + 1 == n {
        0
    } else {
        k + 1
    };
    let an = ang + next * step;
    lemma_neighbour_angles(ang, k, n, m, step);
    if m == 40 {
        lemma_table_apart_40(step_index(ak));
    } else if m == 30 {
        lemma_table_apart_30(step_index(ak));
    } else if m == 24 {
        lemma_table_apart_24(step_index(ak));
    } else {
        lemma_table_apart_20(step_index(ak));
    }
    lemma_directions_apart(ak, an, m);
    lemma_apart_points(p, ak, an, a.size as int);
}

/// An edge between two different points within the detector's range has a
/// nonzero normal.
proof fn lemma_distinct_edge(poly: Seq<Vec2>, k: int)
    requires
        0 <= k < poly.len(),
        poly[k] != poly[if k + 1 == poly.len() { 0 } else { k + 1 }],
        poly[k].fits(0x1000_0000_0000_0000),
        poly[if k + 1 == poly.len() { 0 } else { k + 1 }].fits(0x1000_0000_0000_0000),
    ensures
        edge_axis(poly, k).length_sq() > 0,
{
    lemma_nonzero_length(edge_axis(poly, k));
}

/// An asteroid of three to six sides and a size of at least 5 subpixels has a
/// well-formed outline: no two neighbouring vertices coincide.
pub proof fn lemma_asteroid_well_formed(a: Asteroid)
    requires
        a.shape_fits(),
        3 <= a.sides <= 6,
        a.size >= 5,
    ensures
        well_formed(a.spec_shape()),
{
    let n = a.sides as int;
    let m: int = if n == 3 {
        40
    } else if n == 4 {
        30
    } else if n == 5 {
        24
    } else {
        20
    };
    if n == 3 {
        vstd::arithmetic::div_mod::lemma_fundamental_div_mod_converse(360000, 3, 120000, 0);
    } else if n == 4 {
        vstd::arithmetic::div_mod::lemma_fundamental_div_mod_converse(360000, 4, 90000, 0);
    } else if n == 5 {
        vstd::arithmetic::div_mod::lemma_fundamental_div_mod_converse(360000, 5, 72000, 0);
    } else {
        vstd::arithmetic::div_mod::lemma_fundamental_div_mod_converse(360000, 6, 60000, 0);
    }
    let step = TURN as int / n;
    assert(step == m * TABLE_STEP);
    assert(n * m == 120);
    let poly = a.spec_shape();
    lemma_asteroid_shape_near(a);
    assert forall|k: int| 0 <= k < poly.len() implies (#[trigger] edge_axis(poly, k)).length_sq()
        > 0 by {
        lemma_asteroid_vertices_differ(a, k, m, step);
        let next = if k + 1 == poly.len() {
            0
        } else {
            k + 1
        };
        assert(poly[k].fits(0x1000_0000_0000_0000) && poly[next].fits(0x1000_0000_0000_0000))
            by {
            assert(near(poly, a.body.lin_pos, a.size as int));
            assert(a.body.lin_pos.x - a.size <= poly[k].x);
            assert(a.body.lin_pos.x - a.size <= poly[next].x);
        }
        lemma_distinct_edge(poly, k);
    }
}

/// Integers whose values are far enough apart have different quotients.
proof fn lemma_quotients_differ(u: int, v: int)
    requires
        u + 2 * DIR_SCALE <= v || v + 2 * DIR_SCALE <= u,
    ensures
        trunc_div(u, DIR_SCALE as int) != trunc_div(v, DIR_SCALE as int),
{
    if u + 2 * DIR_SCALE <= v {
        lemma_trunc_div_apart(u, v, DIR_SCALE as int);
    } else {
        lemma_trunc_div_apart(v, u, DIR_SCALE as int);
    }
}

/// Two corners of the ship, at the given distances against directions that the
/// table sets apart, are different points.
proof fn lemma_ship_corners_differ(p: Vec2, a1: int, l1: int, a2: int, l2: int)
    requires
        p.fits(MOTION_LIMIT as int),
        (l1 == -SHIP_RADIUS && l2 == -SHIP_REAR) || (l1 == -SHIP_REAR && l2 == -SHIP_REAR) || (l1
            == -SHIP_REAR && l2 == -SHIP_RADIUS),
        dirs_apart(spec_direction(a1), spec_direction(a2)),
    ensures
        spec_toward(p, a1, l1) != spec_toward(p, a2, l2),
{
    let d1 = spec_direction(a1);
    let d2 = spec_direction(a2);
    lemma_direction_bounded(a1);
    lemma_direction_bounded(a2);
    lemma_toward_near(p, a1, l1);
    lemma_toward_near(p, a2, l2);
    if d2.x - d1.x >= 4998 || d1.x - d2.x >= 4998 {
        assert(l1 * d1.x + 20000 <= l2 * d2.x || l2 * d2.x + 20000 <= l1 * d1.x)
            by (nonlinear_arith)
            requires
                d2.x - d1.x >= 4998 || d1.x - d2.x >= 4998,
                -10000 <= d1.x <= 10000,
                -10000 <= d2.x <= 10000,
                (l1 == -1920 && l2 == -1280) || (l1 == -1280 && l2 == -1280) || (l1 == -1280 && l2
                    == -1920),
        ;
        lemma_quotients_differ(l1 * d1.x, l2 * d2.x);
    } else {
        assert(l1 * d1.y + 20000 <= l2 * d2.y || l2 * d2.y + 20000 <= l1 * d1.y)
            by (nonlinear_arith)
            requires
                d2.y - d1.y >= 4998 || d1.y - d2.y >= 4998,
                -10000 <= d1.y <= 10000,
                -10000 <= d2.y <= 10000,
                (l1 == -1920 && l2 == -1280) || (l1 == -1280 && l2 == -1280) || (l1 == -1280 && l2
                    == -1920),
        ;
        lemma_quotients_differ(l1 * d1.y, l2 * d2.y);
    }
}

proof fn lemma_ship_indices(a: int)
    ensures
        step_index(a + TURN / 3) == (step_index(a) + 40) % (4 * QUARTER_STEPS),
        step_index(a + 2 * TURN / 3) == (step_index(a + TURN / 3) + 40) % (4 * QUARTER_STEPS),
        step_index(a) == (step_index(a + 2 * TURN / 3) + 40) % (4 * QUARTER_STEPS),
        step_fraction(a + TURN / 3) == step_fraction(a),
        step_fraction(a + 2 * TURN / 3) == step_fraction(a),
{
    let a1 = a + TURN / 3;
    let a2 = a + 2 * TURN / 3;
    lemma_step_index_shift(a, 40);
    lemma_step_index_shift(a1, 40);
    lemma_step_index_shift(a2, 40);
    lemma_step_index_shift(a, 120);
    vstd::arithmetic::div_mod::lemma_fundamental_div_mod_converse(
        step_index(a) + 120,
        120,
        1,
        step_index(a),
    );
    assert(a2 + 40 * TABLE_STEP == a + 120 * TABLE_STEP);
}

/// The ship's outline is well formed: its three corners are distinct.
#[verifier::rlimit(100)]
pub proof fn lemma_ship_well_formed(s: Ship)
    requires
        s.shape_fits(),
    ensures
        well_formed(s.spec_shape()),
{
    let p = s.body.lin_pos;
    let a = s.body.ang_pos as int;
    let a1 = a + TURN / 3;
    let a2 = a + 2 * TURN / 3;
    let poly = s.spec_shape();
    lemma_ship_indices(a);
    lemma_step_index_shift(a, 0);
    lemma_step_index_shift(a1, 0);
    lemma_step_index_shift(a2, 0);
    lemma_table_apart_40(step_index(a));
    lemma_table_apart_40(step_index(a1));
    lemma_table_apart_40(step_index(a2));
    lemma_directions_apart(a, a1, 40);
    lemma_directions_apart(a1, a2, 40);
    lemma_directions_apart(a2, a, 40);
    let v0 = spec_toward(p, a, -SHIP_RADIUS);
    let v1 = spec_toward(p, a1, -SHIP_REAR);
    let v2 = spec_toward(p, a2, -SHIP_REAR);
    lemma_ship_corners_differ(p, a, -SHIP_RADIUS, a1, -SHIP_REAR);
    lemma_ship_corners_differ(p, a1, -SHIP_REAR, a2, -SHIP_REAR);
    lemma_ship_corners_differ(p, a2, -SHIP_REAR, a, -SHIP_RADIUS);
    lemma_toward_near(p, a, -SHIP_RADIUS);
    lemma_toward_near(p, a1, -SHIP_REAR);
    lemma_toward_near(p, a2, -SHIP_REAR);
    assert(poly[0] == v0 && poly[1] == v1 && poly[2] == v2);
    lemma_nonzero_length(edge_axis(poly, 0));
    lemma_nonzero_length(edge_axis(poly, 1));
    lemma_nonzero_length(edge_axis(poly, 2));
    assert forall|k: int| 0 <= k < poly.len() implies (#[trigger] edge_axis(poly, k)).length_sq()
        > 0 by {
        assert(k == 0 || k == 1 || k == 2);
    }
}

} // verus!
