use vstd::prelude::*;
use crate::geometry::{lemma_trunc_div_bounded, mul_div, trunc_div, Vec2};

verus! {

/// Milliseconds per second: a time step counts milliseconds, rates are per second.
pub const MILLIS: i64 = 1000;

/// The longest time step, in milliseconds, that one update accepts.
pub const MAX_DT: i64 = 60000;

/// Bound on every coordinate, rate and angle of a body that may be updated.
pub const MOTION_LIMIT: i64 = 1099511627776;

/// Bound on the accelerations of a body that may be updated.
pub const ACC_LIMIT: i64 = 17592186044416;

/// Bound on the velocities of a body after one update from within the limits.
pub const SPEED_LIMIT: i64 = 2251799813685248;

/// Bound on the angle of a body after one update from within the limits.
pub const ANGLE_LIMIT: i64 = 1152921504606846976;

/// Linear speed, in subpixels per second, above which drag applies (1000 px/s).
pub const LINEAR_DRAG_THRESHOLD: i64 = 64000;

/// The square of `LINEAR_DRAG_THRESHOLD`.
pub const LINEAR_DRAG_THRESHOLD_SQ: i128 = 4096000000;

/// Angular speed, in angle units per second, above which drag applies (15 rad/s).
pub const ANGULAR_DRAG_THRESHOLD: i64 = 859437;

/// Angular deceleration, in angle units per second squared, that drag applies
/// above the threshold (15 rad/s^2).
pub const ANGULAR_DRAG: i64 = 859437;

/// Kinematic state: position, velocity and acceleration, linear and angular.
/// Lengths are in subpixels, angles in angle units, rates per second.
#[derive(Clone, Copy, Debug, PartialEq, Eq, Structural)]
pub struct Body {
    pub lin_pos: Vec2,
    pub lin_vel: Vec2,
    pub lin_acc: Vec2,
    pub ang_pos: i64,
    pub ang_vel: i64,
    pub ang_acc: i64,
}

pub open spec fn abs(x: int) -> int {
    if x < 0 {
        -x
    } else {
        x
    }
}

/// Drag on a body moving at `vel`: none up to the threshold speed, above it a
/// deceleration equal and opposite to the velocity.
pub open spec fn linear_drag(vel: Vec2) -> Vec2 {
    if vel.length_sq() > LINEAR_DRAG_THRESHOLD * LINEAR_DRAG_THRESHOLD {
        Vec2 { x: (-vel.x) as i64, y: (-vel.y) as i64 }
    } else {
        Vec2 { x: 0, y: 0 }
    }
}

/// Drag on a body spinning at `w`: none up to the threshold, above it a fixed
/// deceleration `ANGULAR_DRAG` against the spin.
pub open spec fn angular_drag(w: int) -> int {
    if w > ANGULAR_DRAG_THRESHOLD {
        -ANGULAR_DRAG
    } else if w < -ANGULAR_DRAG_THRESHOLD {
        ANGULAR_DRAG as int
    } else {
        0
    }
}

/// `v` after `dt` milliseconds of change at `rate` per second.
pub open spec fn advance(v: int, rate: int, dt: int) -> int {
    v + trunc_div(rate * dt, MILLIS as int)
}

/// A coordinate brought back onto the screen: below zero it jumps to the far
/// edge, beyond the far edge it jumps to zero.
pub open spec fn wrap_coord(c: int, extent: int) -> int {
    if c < 0 {
        extent
    } else if c > extent {
        0
    } else {
        c
    }
}

/// Bound on the change of a rate over one time step.
pub proof fn lemma_advance_bounded(rate: int, dt: int, bound: int)
    requires
        0 <= bound,
        -bound <= rate <= bound,
        0 <= dt <= MAX_DT,
    ensures
        -bound * 60 <= trunc_div(rate * dt, MILLIS as int) <= bound * 60,
{
    assert(-(bound * 60) * 1000 <= rate * dt <= (bound * 60) * 1000) by (nonlinear_arith)
        requires
            0 <= bound,
            -bound <= rate <= bound,
            0 <= dt <= 60000,
    ;
    lemma_trunc_div_bounded(rate * dt, MILLIS as int, bound * 60);
}

impl Body {
    /// Positions, angles and velocities lie within `MOTION_LIMIT`.
    pub open spec fn state_within_limits(self) -> bool {
        &&& self.lin_pos.fits(MOTION_LIMIT as int)
        &&& self.lin_vel.fits(MOTION_LIMIT as int)
        &&& abs(self.ang_pos as int) <= MOTION_LIMIT
        &&& abs(self.ang_vel as int) <= MOTION_LIMIT
    }

    /// The state lies within `MOTION_LIMIT`, the accelerations within `ACC_LIMIT`.
    pub open spec fn within_limits(self) -> bool {
        &&& self.state_within_limits()
        &&& self.lin_acc.fits(ACC_LIMIT as int)
        &&& abs(self.ang_acc as int) <= ACC_LIMIT
    }

    /// At rest at the origin, facing half a turn round.
    pub open spec fn spec_default() -> Body {
        Body {
            lin_pos: Vec2 { x: 0, y: 0 },
            lin_vel: Vec2 { x: 0, y: 0 },
            lin_acc: Vec2 { x: 0, y: 0 },
            ang_pos: 180000,
            ang_vel: 0,
            ang_acc: 0,
        }
    }

    /// The body with both accelerations set to zero.
    pub open spec fn coasting(self) -> Body {
        Body { lin_acc: Vec2 { x: 0, y: 0 }, ang_acc: 0, ..self }
    }

    /// One integration step of `dt` milliseconds on a screen of size `extent`:
    /// drag is added to the acceleration, the acceleration moves the velocity,
    /// the new velocity moves the position, and the position is wrapped.
    pub open spec fn spec_step(self, dt: int, extent: Vec2) -> Body {
        let drag = linear_drag(self.lin_vel);
        let acc_x = self.lin_acc.x + drag.x;
        let acc_y = self.lin_acc.y + drag.y;
        let vel_x = advance(self.lin_vel.x as int, acc_x, dt);
        let vel_y = advance(self.lin_vel.y as int, acc_y, dt);
        let pos_x = advance(self.lin_pos.x as int, vel_x, dt);
        let pos_y = advance(self.lin_pos.y as int, vel_y, dt);
        let ang_acc = self.ang_acc + angular_drag(self.ang_vel as int);
        let ang_vel = advance(self.ang_vel as int, ang_acc, dt);
        let ang_pos = advance(self.ang_pos as int, ang_vel, dt);
        Body {
            lin_pos: Vec2 {
                x: wrap_coord(pos_x, extent.x as int) as i64,
                y: wrap_coord(pos_y, extent.y as int) as i64,
            },
            lin_vel: Vec2 { x: vel_x as i64, y: vel_y as i64 },
            lin_acc: Vec2 { x: acc_x as i64, y: acc_y as i64 },
            ang_pos: ang_pos as i64,
            ang_vel: ang_vel as i64,
            ang_acc: ang_acc as i64,
        }
    }

    /// The body at rest at `pos`, facing angle `ang_pos`.
    pub fn at_rest(pos: Vec2, ang_pos: i64) -> (r: Body)
        ensures
            r == (Body {
                lin_pos: pos,
                lin_vel: Vec2 { x: 0, y: 0 },
                lin_acc: Vec2 { x: 0, y: 0 },
                ang_pos,
                ang_vel: 0,
                ang_acc: 0,
            }),
    {
        Body {
            lin_pos: pos,
            lin_vel: Vec2 { x: 0, y: 0 },
            lin_acc: Vec2 { x: 0, y: 0 },
            ang_pos,
            ang_vel: 0,
            ang_acc: 0,
        }
    }

    /// Advances the body by `dt` milliseconds on a screen of size `extent`.
    pub fn update(&mut self, dt: i64, extent: Vec2)
        requires
            old(self).within_limits(),
            0 <= dt <= MAX_DT,
            extent.x >= 0,
            extent.y >= 0,
        ensures
            *final(self) == old(self).spec_step(dt as int, extent),
    {
        let speed_sq = self.lin_vel.len_sq();
        let drag = if speed_sq > LINEAR_DRAG_THRESHOLD_SQ {
            Vec2 { x: -self.lin_vel.x, y: -self.lin_vel.y }
        } else {
            Vec2 { x: 0, y: 0 }
        };
        let ang_drag: i64 = if self.ang_vel > ANGULAR_DRAG_THRESHOLD {
            -ANGULAR_DRAG
        } else if self.ang_vel < -ANGULAR_DRAG_THRESHOLD {
            ANGULAR_DRAG
        } else {
            0
        };
        let ghost acc_bound: int = ACC_LIMIT + MOTION_LIMIT;
        let ghost vel_bound: int = MOTION_LIMIT + acc_bound * 60;
        proof {
            lemma_advance_bounded(self.lin_acc.x + drag.x, dt as int, acc_bound);
            lemma_advance_bounded(self.lin_acc.y + drag.y, dt as int, acc_bound);
            lemma_advance_bounded(self.ang_acc + ang_drag, dt as int, acc_bound);
        }
        self.lin_acc = Vec2 { x: self.lin_acc.x + drag.x, y: self.lin_acc.y + drag.y };
        self.lin_vel = Vec2 {
            x: self.lin_vel.x + mul_div(self.lin_acc.x, dt, MILLIS),
            y: self.lin_vel.y + mul_div(self.lin_acc.y, dt, MILLIS),
        };
        proof {
            lemma_advance_bounded(self.lin_vel.x as int, dt as int, vel_bound);
            lemma_advance_bounded(self.lin_vel.y as int, dt as int, vel_bound);
        }
        self.lin_pos = Vec2 {
            x: self.lin_pos.x + mul_div(self.lin_vel.x, dt, MILLIS),
            y: self.lin_pos.y + mul_div(self.lin_vel.y, dt, MILLIS),
        };
        self.ang_acc = self.ang_acc + ang_drag;
        self.ang_vel = self.ang_vel + mul_div(self.ang_acc, dt, MILLIS);
        proof {
            lemma_advance_bounded(self.ang_vel as int, dt as int, vel_bound);
        }
        self.ang_pos = self.ang_pos + mul_div(self.ang_vel, dt, MILLIS);
        if self.lin_pos.x < 0 {
            self.lin_pos.x = extent.x;
        } else if self.lin_pos.x > extent.x {
            self.lin_pos.x = 0;
        }
        if self.lin_pos.y < 0 {
            self.lin_pos.y = extent.y;
        } else if self.lin_pos.y > extent.y {
            self.lin_pos.y = 0;
        }
    }
}

impl Default for Body {
    /// At rest at the origin, facing half a turn round.
    fn default() -> (r: Body)
        ensures
            r == Body::spec_default(),
    {
        Body::at_rest(Vec2 { x: 0, y: 0 }, 180000)
    }
}

/// A body with no velocity and no acceleration, on the screen, keeps its
/// position and its angle through an update of any length.
pub proof fn lemma_at_rest_stays(b: Body, dt: int, extent: Vec2)
    requires
        b.lin_vel == (Vec2 { x: 0, y: 0 }),
        b.lin_acc == (Vec2 { x: 0, y: 0 }),
        b.ang_vel == 0,
        b.ang_acc == 0,
        0 <= b.lin_pos.x <= extent.x,
        0 <= b.lin_pos.y <= extent.y,
    ensures
        b.spec_step(dt, extent).lin_pos == b.lin_pos,
        b.spec_step(dt, extent).ang_pos == b.ang_pos,
{
    assert(b.lin_vel.length_sq() == 0);
    assert(0int * dt == 0);
}

/// Drag switches on strictly above the threshold speed: exactly at it there
/// is none, above it the drag opposes the velocity.
pub proof fn lemma_drag_threshold(vel: Vec2)
    requires
        vel.fits(MOTION_LIMIT as int),
    ensures
        vel.length_sq() <= LINEAR_DRAG_THRESHOLD * LINEAR_DRAG_THRESHOLD ==> linear_drag(vel) == (
        Vec2 { x: 0, y: 0 }),
        vel.length_sq() > LINEAR_DRAG_THRESHOLD * LINEAR_DRAG_THRESHOLD ==> linear_drag(
            vel,
        ).spec_dot(vel) == -vel.length_sq() < 0,
{
    if vel.length_sq() > LINEAR_DRAG_THRESHOLD * LINEAR_DRAG_THRESHOLD {
        let d = linear_drag(vel);
        assert(d.x == -vel.x && d.y == -vel.y);
        assert(d.spec_dot(vel) == -vel.length_sq()) by (nonlinear_arith)
            requires
                d.x == -vel.x && d.y == -vel.y,
        ;
    }
}

/// Wrapping moves a coordinate only when it lies strictly outside `[0, extent]`:
/// just past the far edge it goes to zero, exactly on an edge it stays.
pub proof fn lemma_wrap_boundary(c: int, extent: int)
    requires
        extent >= 0,
    ensures
        c > extent ==> wrap_coord(c, extent) == 0,
        c < 0 ==> wrap_coord(c, extent) == extent,
        0 <= c <= extent ==> wrap_coord(c, extent) == c,
        0 <= wrap_coord(c, extent) <= extent,
{
}

/// After one update from within the limits, the position lies on the screen,
/// the velocities within `SPEED_LIMIT` and the angle within `ANGLE_LIMIT`.
pub proof fn lemma_step_bounds(b: Body, dt: int, extent: Vec2)
    requires
        b.within_limits(),
        0 <= dt <= MAX_DT,
        extent.x >= 0,
        extent.y >= 0,
    ensures
        0 <= b.spec_step(dt, extent).lin_pos.x <= extent.x,
        0 <= b.spec_step(dt, extent).lin_pos.y <= extent.y,
        b.spec_step(dt, extent).lin_vel.fits(SPEED_LIMIT as int),
        abs(b.spec_step(dt, extent).ang_vel as int) <= SPEED_LIMIT,
        abs(b.spec_step(dt, extent).ang_pos as int) <= ANGLE_LIMIT,
{
    let acc_bound: int = ACC_LIMIT + MOTION_LIMIT;
    let vel_bound: int = MOTION_LIMIT + acc_bound * 60;
    let drag = linear_drag(b.lin_vel);
    lemma_advance_bounded(b.lin_acc.x + drag.x, dt, acc_bound);
    lemma_advance_bounded(b.lin_acc.y + drag.y, dt, acc_bound);
    let ang_acc = b.ang_acc + angular_drag(b.ang_vel as int);
    lemma_advance_bounded(ang_acc, dt, acc_bound);
    let ang_vel = advance(b.ang_vel as int, ang_acc, dt);
    lemma_advance_bounded(ang_vel, dt, vel_bound);
}

/// A body carried past the far edge by an update lands at zero on that axis;
/// one that ends the step exactly at zero stays there.
pub proof fn lemma_step_wraps(b: Body, dt: int, extent: Vec2)
    requires
        extent.x >= 0,
        extent.y >= 0,
    ensures
        ({
            let drag = linear_drag(b.lin_vel);
            let vel_x = advance(b.lin_vel.x as int, b.lin_acc.x + drag.x, dt);
            let pos_x = advance(b.lin_pos.x as int, vel_x, dt);
            &&& pos_x > extent.x ==> b.spec_step(dt, extent).lin_pos.x == 0
            &&& pos_x == 0 ==> b.spec_step(dt, extent).lin_pos.x == 0
            &&& pos_x < 0 ==> b.spec_step(dt, extent).lin_pos.x == extent.x
        }),
        ({
            let drag = linear_drag(b.lin_vel);
            let vel_y = advance(b.lin_vel.y as int, b.lin_acc.y + drag.y, dt);
            let pos_y = advance(b.lin_pos.y as int, vel_y, dt);
            &&& pos_y > extent.y ==> b.spec_step(dt, extent).lin_pos.y == 0
            &&& pos_y == 0 ==> b.spec_step(dt, extent).lin_pos.y == 0
            &&& pos_y < 0 ==> b.spec_step(dt, extent).lin_pos.y == extent.y
        }),
{
}

/// Angular drag switches on strictly above the threshold spin, and then
/// opposes the spin with the fixed deceleration `ANGULAR_DRAG`.
pub proof fn lemma_angular_drag_opposes(w: int)
    ensures
        abs(w) <= ANGULAR_DRAG_THRESHOLD ==> angular_drag(w) == 0,
        abs(w) > ANGULAR_DRAG_THRESHOLD ==> abs(angular_drag(w)) == ANGULAR_DRAG,
        abs(w) > ANGULAR_DRAG_THRESHOLD ==> angular_drag(w) * w < 0,
{
    if w > ANGULAR_DRAG_THRESHOLD {
        assert(angular_drag(w) * w < 0) by (nonlinear_arith)
            requires
                angular_drag(w) == -859437,
                w > 0,
        ;
    } else if w < -ANGULAR_DRAG_THRESHOLD {
        assert(angular_drag(w) * w < 0) by (nonlinear_arith)
            requires
                angular_drag(w) == 859437,
                w < 0,
        ;
    }
}

/// A body without acceleration moving faster than the drag threshold gets a
/// drag equal and opposite to its velocity, and for a step of at most a second
/// each coordinate of its velocity shrinks toward zero.
pub proof fn lemma_drag_slows(b: Body, dt: int, extent: Vec2)
    requires
        b.within_limits(),
        b.lin_acc == (Vec2 { x: 0, y: 0 }),
        b.lin_vel.length_sq() > LINEAR_DRAG_THRESHOLD * LINEAR_DRAG_THRESHOLD,
        0 <= dt <= MILLIS,
    ensures
        b.spec_step(dt, extent).lin_acc == (Vec2 { x: (-b.lin_vel.x) as i64, y: (-b.lin_vel.y) as i64 }),
        abs(b.spec_step(dt, extent).lin_vel.x as int) <= abs(b.lin_vel.x as int),
        abs(b.spec_step(dt, extent).lin_vel.y as int) <= abs(b.lin_vel.y as int),
{
    lemma_shrink(b.lin_vel.x as int, dt);
    lemma_shrink(b.lin_vel.y as int, dt);
    lemma_advance_bounded(-b.lin_vel.x, dt, MOTION_LIMIT as int);
    lemma_advance_bounded(-b.lin_vel.y, dt, MOTION_LIMIT as int);
}

proof fn lemma_shrink(v: int, dt: int)
    requires
        0 <= dt <= MILLIS,
    ensures
        abs(advance(v, -v, dt)) <= abs(v),
{
    let n = -v * dt;
    if v >= 0 {
        assert(-(v * 1000) <= n <= 0) by (nonlinear_arith)
            requires
                n == -v * dt,
                v >= 0,
                0 <= dt <= 1000,
        ;
        lemma_trunc_div_bounded(n, 1000, v);
        assert(trunc_div(n, 1000) <= 0) by {
            lemma_trunc_div_bounded(n, 1000, v);
        }
    } else {
        assert(0 <= n <= (-v) * 1000) by (nonlinear_arith)
            requires
                n == -v * dt,
                v < 0,
                0 <= dt <= 1000,
        ;
        lemma_trunc_div_bounded(n, 1000, -v);
    }
}

} // verus!
