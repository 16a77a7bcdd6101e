use braideroids::body::Body;
use braideroids::entities::{Asteroid, Bullet, Controls, Ship, Smoke};
use braideroids::geometry::Vec2;
use braideroids::levels::{level1, level2, level3, menu, GameMode, Level};
use braideroids::shapes::Shape;
use braideroids::world::{is_out_of_screen, spawn_bullet, GameObjects};

const SCREEN: Vec2 = Vec2 { x: 51200, y: 38400 };
const IDLE: Controls = Controls { thrust: false, left: false, right: false, fire: false };

fn empty_world() -> GameObjects {
    GameObjects { ship: Ship::default(), asteroids: vec![], bullets: vec![], smokes: vec![] }
}

fn rock(x: i64, y: i64, sides: u8, size: i64) -> Asteroid {
    Asteroid { body: Body::at_rest(Vec2::new(x, y), 0), sides, size }
}

fn bullet_at(x: i64, y: i64, vx: i64, vy: i64) -> Bullet {
    let mut body = Body::at_rest(Vec2::new(x, y), 0);
    body.lin_vel = Vec2::new(vx, vy);
    Bullet { body }
}

#[test]
fn bullet_leaving_screen_is_removed_same_frame() {
    let mut world = empty_world();
    world.bullets = vec![bullet_at(SCREEN.x - 10, 1000, 64000, 0), bullet_at(1000, 1000, 0, 0)];
    let events = world.update(IDLE, 16, SCREEN);
    assert_eq!(world.bullets.len(), 1);
    assert_eq!(world.bullets[0].body.lin_pos, Vec2::new(1000, 1000));
    assert!(events.cleared);
    assert!(!events.ship_hit);
}

#[test]
fn bullet_exactly_on_edge_is_out() {
    let b = Body::at_rest(Vec2::new(0, 100), 0);
    assert!(is_out_of_screen(&b, SCREEN));
    let b = Body::at_rest(Vec2::new(1, 100), 0);
    assert!(!is_out_of_screen(&b, SCREEN));
    let b = Body::at_rest(Vec2::new(100, SCREEN.y), 0);
    assert!(is_out_of_screen(&b, SCREEN));
}

#[test]
fn hit_splits_asteroid_and_spends_bullet() {
    let mut world = empty_world();
    world.asteroids = vec![rock(20000, 20000, 4, 3000)];
    world.bullets = vec![bullet_at(20000, 20000, 0, 5000)];
    let events = world.update(IDLE, 0, SCREEN);
    assert!(world.bullets.is_empty());
    assert_eq!(world.asteroids.len(), 2);
    for a in &world.asteroids {
        assert_eq!(a.sides, 3);
        assert_eq!(a.size, 2000);
        assert_eq!(a.body.lin_pos, Vec2::new(20000, 20000));
    }
    assert_eq!(world.asteroids[0].body.lin_vel, Vec2::new(-1000, 0));
    assert_eq!(world.asteroids[1].body.lin_vel, Vec2::new(1000, 0));
    assert_eq!(world.smokes.len(), 1);
    assert_eq!(world.smokes[0].size, 6000);
    assert_eq!(world.smokes[0].body.lin_pos, Vec2::new(20000, 20000));
    assert!(!events.cleared);
}

#[test]
fn triangle_hit_leaves_nothing() {
    let mut world = empty_world();
    world.asteroids = vec![rock(20000, 20000, 3, 3000)];
    world.bullets = vec![bullet_at(20000, 20000, 0, 0)];
    let events = world.update(IDLE, 0, SCREEN);
    assert!(world.asteroids.is_empty());
    assert!(world.bullets.is_empty());
    assert_eq!(world.smokes.len(), 1);
    assert!(events.cleared);
}

#[test]
fn one_bullet_per_asteroid_first_in_list_wins() {
    let mut world = empty_world();
    world.asteroids = vec![rock(20000, 20000, 3, 3000)];
    world.bullets = vec![bullet_at(20100, 20000, 0, 0), bullet_at(20000, 20100, 0, 0)];
    world.update(IDLE, 0, SCREEN);
    assert!(world.asteroids.is_empty());
    assert_eq!(world.bullets.len(), 1);
    assert_eq!(world.bullets[0].body.lin_pos, Vec2::new(20000, 20100));
}

#[test]
fn missed_asteroid_survives() {
    let mut world = empty_world();
    world.asteroids = vec![rock(20000, 20000, 5, 1000)];
    world.bullets = vec![bullet_at(40000, 30000, 0, 0)];
    world.update(IDLE, 0, SCREEN);
    assert_eq!(world.asteroids.len(), 1);
    assert_eq!(world.bullets.len(), 1);
    assert!(world.smokes.is_empty());
}

#[test]
fn smoke_expires_after_lifetime() {
    let mut world = empty_world();
    let mut old = Smoke::new(Vec2::new(100, 100), 10);
    old.timer = 2990;
    let young = Smoke::new(Vec2::new(200, 200), 10);
    world.smokes = vec![old, young];
    world.update(IDLE, 10, SCREEN);
    assert_eq!(world.smokes.len(), 1);
    assert_eq!(world.smokes[0].timer, 10);
    assert_eq!(world.smokes[0].body.lin_pos, Vec2::new(200, 200));
}

#[test]
fn firing_spawns_bullet_at_nose() {
    let mut world = empty_world();
    world.ship = Ship { body: Body::at_rest(Vec2::new(20000, 20000), 0) };
    let fire = Controls { thrust: false, left: false, right: false, fire: true };
    world.update(fire, 0, SCREEN);
    assert_eq!(world.bullets.len(), 1);
    let b = world.bullets[0];
    assert_eq!(b.body.lin_pos, world.ship.shape()[0]);
    assert_eq!(b.body.lin_vel, Vec2::new(-64000, 0));
    assert_eq!(b.body.ang_pos, 180000);
    assert_eq!(spawn_bullet(&world.ship), b);
}

#[test]
fn ship_contact_is_reported() {
    let mut world = empty_world();
    world.ship = Ship { body: Body::at_rest(Vec2::new(20000, 20000), 0) };
    world.asteroids = vec![rock(20500, 20000, 6, 3000)];
    let events = world.update(IDLE, 0, SCREEN);
    assert!(events.ship_hit);
    world.asteroids = vec![rock(40000, 30000, 6, 1000)];
    let events = world.update(IDLE, 0, SCREEN);
    assert!(!events.ship_hit);
}

#[test]
fn limits_are_checked() {
    let mut world = empty_world();
    assert!(world.check_limits());
    world.asteroids = vec![rock(100, 100, 2, 10)];
    assert!(!world.check_limits());
    world.asteroids = vec![rock(100, 100, 3, 10)];
    assert!(world.check_limits());
    world.bullets = vec![bullet_at(100, 100, i64::MAX, 0)];
    assert!(!world.check_limits());
    world.bullets = vec![bullet_at(100, 100, 0, 0)];
    assert!(world.bullets_within_screen_limit());
    world.bullets = vec![bullet_at(-400000, 100, 0, 0)];
    assert!(!world.bullets_within_screen_limit());
}

#[test]
fn levels_start_positions() {
    let mut world = empty_world();
    world.bullets = vec![bullet_at(100, 100, 0, 0)];
    level1::init(&mut world);
    assert_eq!(world.asteroids.len(), 1);
    assert_eq!(world.asteroids[0].sides, 3);
    assert_eq!(world.asteroids[0].size, 4480);
    assert_eq!(world.asteroids[0].body.lin_pos, Vec2::new(44800, 32000));
    assert!(world.bullets.is_empty());
    assert_eq!(world.ship.body.lin_pos, Vec2::new(12800, 32000));
    assert_eq!(world.ship.body.ang_pos, 180000);
    level2::init(&mut world);
    assert_eq!(world.asteroids[0].size, 9600);
    assert_eq!(world.asteroids[0].body.lin_vel, Vec2::new(4480, 0));
    assert_eq!(world.asteroids[0].body.ang_vel, 114592);
    level3::init(&mut world);
    assert_eq!(world.asteroids[0].size, 4480);
    menu::init();
    assert_ne!(GameMode::Menu, GameMode::Play(Level::Level1));
}

#[test]
fn wall_stops_bullets() {
    let mut world = empty_world();
    let wall = level3::obstacle();
    world.bullets = vec![bullet_at(26000, 30000, 0, 0), bullet_at(10000, 30000, 0, 0)];
    level3::remove_bullets_hitting(&mut world, &wall);
    assert_eq!(world.bullets.len(), 1);
    assert_eq!(world.bullets[0].body.lin_pos, Vec2::new(10000, 30000));
}
