use braideroids::body::{Body, LINEAR_DRAG_THRESHOLD};
use braideroids::entities::{Asteroid, Bullet, Controls, Ship, Smoke, SHIP_MAX_SPEED, SHIP_MAX_SPIN};
use braideroids::geometry::{direction, mul_div, square_root_ceil, Vec2, DIR_SCALE, TURN};
use braideroids::shapes::Shape;

const SCREEN: Vec2 = Vec2 { x: 51200, y: 38400 };

#[test]
fn direction_table_quarter_turns() {
    assert_eq!(direction(0), Vec2::new(DIR_SCALE, 0));
    assert_eq!(direction(TURN / 4), Vec2::new(0, DIR_SCALE));
    assert_eq!(direction(TURN / 2), Vec2::new(-DIR_SCALE, 0));
    assert_eq!(direction(-TURN / 4), Vec2::new(0, -DIR_SCALE));
    assert_eq!(direction(30000), Vec2::new(8660, 5000));
    assert_eq!(direction(TURN + 30000), Vec2::new(8660, 5000));
}

#[test]
fn direction_interpolates_between_entries() {
    assert_eq!(direction(1500), Vec2::new(9993, 261));
    assert_eq!(direction(-1500), Vec2::new(9993, -262));
}

#[test]
fn ceiling_square_root() {
    assert_eq!(square_root_ceil(0), 0);
    assert_eq!(square_root_ceil(1), 1);
    assert_eq!(square_root_ceil(10), 4);
    assert_eq!(square_root_ceil(16), 4);
    assert_eq!(square_root_ceil(17), 5);
}

#[test]
fn mul_div_rounds_toward_zero() {
    assert_eq!(mul_div(7, 3, 2), 10);
    assert_eq!(mul_div(-7, 3, 2), -10);
}

#[test]
fn body_at_rest_stays_put() {
    let mut b = Body::at_rest(Vec2::new(1000, 2000), 12345);
    b.update(1000, SCREEN);
    assert_eq!(b.lin_pos, Vec2::new(1000, 2000));
    assert_eq!(b.ang_pos, 12345);
}

#[test]
fn integration_applies_acceleration_before_position() {
    let mut b = Body::at_rest(Vec2::new(1000, 1000), 0);
    b.lin_acc = Vec2::new(1000, 0);
    b.ang_acc = 2000;
    b.update(1000, SCREEN);
    assert_eq!(b.lin_vel, Vec2::new(1000, 0));
    assert_eq!(b.lin_pos, Vec2::new(2000, 1000));
    assert_eq!(b.ang_vel, 2000);
    assert_eq!(b.ang_pos, 2000);
}

#[test]
fn no_drag_at_threshold_speed() {
    let mut b = Body::at_rest(Vec2::new(1000, 1000), 0);
    b.lin_vel = Vec2::new(LINEAR_DRAG_THRESHOLD, 0);
    b.update(1, SCREEN);
    assert_eq!(b.lin_acc, Vec2::new(0, 0));
    assert_eq!(b.lin_vel, Vec2::new(LINEAR_DRAG_THRESHOLD, 0));
    assert_eq!(b.lin_pos, Vec2::new(1064, 1000));
}

#[test]
fn drag_opposes_velocity_above_threshold() {
    let mut b = Body::at_rest(Vec2::new(1000, 1000), 0);
    b.lin_vel = Vec2::new(LINEAR_DRAG_THRESHOLD + 1, 0);
    b.update(1, SCREEN);
    assert_eq!(b.lin_acc, Vec2::new(-(LINEAR_DRAG_THRESHOLD + 1), 0));
    assert_eq!(b.lin_vel, Vec2::new(63937, 0));
}

#[test]
fn angular_drag_above_threshold() {
    let mut b = Body::at_rest(Vec2::new(1000, 1000), 0);
    b.ang_vel = 1_000_000;
    b.update(10, SCREEN);
    assert_eq!(b.ang_acc, -859437);
    assert_eq!(b.ang_vel, 991_406);
    let mut c = Body::at_rest(Vec2::new(1000, 1000), 0);
    c.ang_vel = -1_000_000;
    c.update(10, SCREEN);
    assert_eq!(c.ang_acc, 859437);
    assert_eq!(c.ang_vel, -991_406);
    let mut d = Body::at_rest(Vec2::new(1000, 1000), 0);
    d.ang_vel = 859437;
    d.update(10, SCREEN);
    assert_eq!(d.ang_acc, 0);
}

#[test]
fn wrap_past_right_edge_goes_to_zero() {
    let mut b = Body::at_rest(Vec2::new(SCREEN.x, 100), 0);
    b.lin_vel = Vec2::new(1000, 0);
    b.update(1, SCREEN);
    assert_eq!(b.lin_pos.x, 0);
    let mut left = Body::at_rest(Vec2::new(0, 100), 0);
    left.update(1, SCREEN);
    assert_eq!(left.lin_pos.x, 0);
    let mut below = Body::at_rest(Vec2::new(100, 0), 0);
    below.lin_vel = Vec2::new(0, -1000);
    below.update(1, SCREEN);
    assert_eq!(below.lin_pos.y, SCREEN.y);
}

#[test]
fn asteroid_shape_is_regular_polygon() {
    let a = Asteroid { body: Body::at_rest(Vec2::new(0, 0), 0), sides: 4, size: 100 };
    assert_eq!(
        a.shape(),
        vec![Vec2::new(100, 0), Vec2::new(0, 100), Vec2::new(-100, 0), Vec2::new(0, -100)]
    );
    assert_eq!(a.shape(), a.shape());
}

#[test]
fn ship_shape_points_against_heading() {
    let ship = Ship { body: Body::at_rest(Vec2::new(10000, 10000), 0) };
    let v = ship.shape();
    assert_eq!(v.len(), 3);
    assert_eq!(v[0], Vec2::new(10000 - 1920, 10000));
    assert_eq!(v[1], Vec2::new(10640, 10000 - 1108));
    assert_eq!(v[2], Vec2::new(10640, 10000 + 1108));
    assert_eq!(ship.shape(), v);
}

#[test]
fn bullet_shape_is_box_round_position() {
    let b = Bullet { body: Body::at_rest(Vec2::new(1000, 1000), 0) };
    assert_eq!(
        b.shape(),
        vec![Vec2::new(680, 840), Vec2::new(1320, 840), Vec2::new(1320, 1160), Vec2::new(680, 1160)]
    );
}

#[test]
fn split_four_sides_gives_two_triangles() {
    let mut parent = Asteroid { body: Body::at_rest(Vec2::new(3000, 4000), 500), sides: 4, size: 300 };
    parent.body.lin_vel = Vec2::new(100, 0);
    let pieces = parent.split(Vec2::new(50, 500));
    assert_eq!(pieces.len(), 2);
    for p in &pieces {
        assert_eq!(p.sides, 3);
        assert_eq!(p.size, 200);
        assert_eq!(p.body.lin_pos, Vec2::new(3000, 4000));
        assert_eq!(p.body.ang_pos, 500);
    }
    assert_eq!(pieces[0].body.lin_vel, Vec2::new(0, 10));
    assert_eq!(pieces[1].body.lin_vel, Vec2::new(200, -10));
}

#[test]
fn split_three_sides_gives_nothing() {
    let parent = Asteroid { body: Body::at_rest(Vec2::new(3000, 4000), 0), sides: 3, size: 300 };
    assert!(parent.split(Vec2::new(50, 500)).is_empty());
}

#[test]
fn ship_thrust_and_speed_clamp() {
    let mut ship = Ship { body: Body::at_rest(Vec2::new(10000, 10000), 0) };
    ship.body.lin_vel = Vec2::new(3 * SHIP_MAX_SPEED, 4 * SHIP_MAX_SPEED);
    ship.body.ang_vel = 10 * SHIP_MAX_SPIN;
    let controls = Controls { thrust: true, left: false, right: false, fire: false };
    ship.update(controls, 0, SCREEN);
    assert_eq!(ship.body.lin_vel, Vec2::new(38400, 51200));
    assert_eq!(ship.body.ang_vel, SHIP_MAX_SPIN);
    assert_eq!(ship.body.lin_acc, Vec2::new(-256000, 0));
    assert_eq!(ship.body.ang_acc, -15 * 10 * SHIP_MAX_SPIN);
}

#[test]
fn ship_brakes_without_input() {
    let mut ship = Ship { body: Body::at_rest(Vec2::new(10000, 10000), 0) };
    ship.body.lin_vel = Vec2::new(1000, 0);
    ship.update(Controls { thrust: false, left: false, right: false, fire: false }, 10, SCREEN);
    assert_eq!(ship.body.lin_acc, Vec2::new(-10000, 0));
    assert_eq!(ship.body.lin_vel, Vec2::new(900, 0));
    assert_eq!(ship.body.lin_pos, Vec2::new(10009, 10000));
}

#[test]
fn ship_turning_left_wins() {
    let mut ship = Ship::default();
    ship.update(Controls { thrust: false, left: true, right: true, fire: false }, 0, SCREEN);
    assert_eq!(ship.body.ang_acc, -2864789);
}

#[test]
fn smoke_ages() {
    let mut s = Smoke::new(Vec2::new(1, 2), 40);
    assert_eq!(s.timer, 0);
    assert_eq!(s.body.ang_pos, 180000);
    s.update(250);
    assert_eq!(s.timer, 250);
    assert_eq!(s.body.lin_pos, Vec2::new(1, 2));
}

#[test]
fn defaults() {
    let b = Body::default();
    assert_eq!(b.lin_pos, Vec2::new(0, 0));
    assert_eq!(b.ang_pos, 180000);
    let ship = Ship::default();
    assert_eq!(ship.body.lin_pos, Vec2::new(34240, 3520));
    assert_eq!(ship.body.ang_pos, 270000);
}
