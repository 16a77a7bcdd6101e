use vstd::prelude::*;
use crate::body::{lemma_step_bounds, Body, MAX_DT, MOTION_LIMIT, SPEED_LIMIT};
use crate::collisions::{collides, in_range, spec_overlap};
use crate::entities::{
    lemma_split_fragments, lemma_asteroid_shape_near, lemma_bullet_shape_near, lemma_ship_shape_near, spec_toward,
    toward, Asteroid, Bullet, Controls, Ship, Smoke, SMOKE_LIFETIME,
};
use crate::geometry::{trunc_div, Vec2, TURN};
use crate::shapes::Shape;

verus! {

/// Bound on the screen's width and height, in subpixels (6144 px).
pub const SCREEN_LIMIT: i64 = 393216;

/// Bound on an asteroid's size, in subpixels (2048 px).
pub const SIZE_LIMIT: i64 = 131072;

/// Speed of a fresh bullet relative to the ship (1000 px/s).
pub const BULLET_SPEED: i64 = 64000;

/// Everything that moves in a level.
pub struct GameObjects {
    pub ship: Ship,
    pub asteroids: Vec<Asteroid>,
    pub bullets: Vec<Bullet>,
    pub smokes: Vec<Smoke>,
}

/// What a frame reports to the game-mode logic around it.
#[derive(Clone, Copy, Debug, PartialEq, Eq, Structural)]
pub struct FrameEvents {
    /// The ship touches an asteroid.
    pub ship_hit: bool,
    /// No asteroid is left.
    pub cleared: bool,
}

/// A screen of positive size within `SCREEN_LIMIT`.
pub open spec fn screen_fits(extent: Vec2) -> bool {
    0 < extent.x <= SCREEN_LIMIT && 0 < extent.y <= SCREEN_LIMIT
}

pub open spec fn asteroid_fits(a: Asteroid) -> bool {
    &&& a.body.state_within_limits()
    &&& 3 <= a.sides
    &&& 0 <= a.size <= SIZE_LIMIT
}

pub open spec fn smoke_fits(s: Smoke) -> bool {
    0 <= s.timer <= MOTION_LIMIT
}

/// The body lies on or beyond an edge of the screen.
pub open spec fn out_of_screen(body: Body, extent: Vec2) -> bool {
    body.lin_pos.x <= 0 || body.lin_pos.y <= 0 || body.lin_pos.x >= extent.x || body.lin_pos.y
        >= extent.y
}

pub open spec fn bullet_on_screen(extent: Vec2) -> spec_fn(Bullet) -> bool {
    |b: Bullet| !out_of_screen(b.body, extent)
}

pub open spec fn smoke_alive() -> spec_fn(Smoke) -> bool {
    |s: Smoke| s.timer < SMOKE_LIFETIME
}

pub open spec fn step_bullet(b: Bullet, dt: int, extent: Vec2) -> Bullet {
    Bullet { body: b.body.coasting().spec_step(dt, extent) }
}

pub open spec fn step_asteroid(a: Asteroid, dt: int, extent: Vec2) -> Asteroid {
    Asteroid { body: a.body.coasting().spec_step(dt, extent), ..a }
}

pub open spec fn age_smoke(s: Smoke, dt: int) -> Smoke {
    Smoke { timer: (s.timer + dt) as i64, ..s }
}

/// The bullet fired from the ship: at its nose, moving against its heading at
/// `BULLET_SPEED` plus a fifth of the ship's velocity, facing the other way.
pub open spec fn spec_spawn(ship: Ship) -> Bullet {
    let a = ship.body.ang_pos as int;
    let t = spec_toward(Vec2 { x: 0, y: 0 }, a, -BULLET_SPEED);
    Bullet {
        body: Body {
            lin_pos: ship.spec_shape()[0],
            lin_vel: Vec2 {
                x: (t.x + trunc_div(ship.body.lin_vel.x as int, 5)) as i64,
                y: (t.y + trunc_div(ship.body.lin_vel.y as int, 5)) as i64,
            },
            lin_acc: Vec2 { x: 0, y: 0 },
            ang_pos: (a + TURN / 2) as i64,
            ang_vel: 0,
            ang_acc: 0,
        },
    }
}

/// The bullet and the asteroid overlap.
#[verifier::opaque]
pub open spec fn hits(b: Bullet, a: Asteroid) -> bool {
    spec_overlap(b.spec_shape(), a.spec_shape())
}

/// The ship and the asteroid overlap.
#[verifier::opaque]
pub open spec fn touches(ship: Ship, a: Asteroid) -> bool {
    spec_overlap(ship.spec_shape(), a.spec_shape())
}

/// The first bullet, in list order, that hits the asteroid.
pub open spec fn first_hit(bs: Seq<Bullet>, a: Asteroid) -> Option<int>
    decreases bs.len(),
{
    if bs.len() == 0 {
        None
    } else {
        match first_hit(bs.drop_last(), a) {
            Some(j) => Some(j),
            None => if hits(bs.last(), a) {
                Some(bs.len() - 1)
            } else {
                None
            },
        }
    }
}

/// The smoke left where an asteroid is destroyed: twice its size.
pub open spec fn smoke_of(a: Asteroid) -> Smoke {
    Smoke {
        body: Body { lin_pos: a.body.lin_pos, ..Body::spec_default() },
        size: (2 * a.size) as i64,
        timer: 0,
    }
}

pub open spec fn not_hit(bs: Seq<Bullet>) -> spec_fn(Asteroid) -> bool {
    |a: Asteroid| first_hit(bs, a) is None
}

/// The fragments of the asteroids that the bullets destroy, in order.
pub open spec fn fragments(asts: Seq<Asteroid>, bs: Seq<Bullet>) -> Seq<Asteroid>
    decreases asts.len(),
{
    if asts.len() == 0 {
        seq![]
    } else {
        let prev = fragments(asts.drop_last(), bs);
        match first_hit(bs, asts.last()) {
            Some(j) => prev + asts.last().spec_split(bs[j].body.lin_vel),
            None => prev,
        }
    }
}

/// The smoke of the asteroids that the bullets destroy, in order.
pub open spec fn hit_smokes(asts: Seq<Asteroid>, bs: Seq<Bullet>) -> Seq<Smoke>
    decreases asts.len(),
{
    if asts.len() == 0 {
        seq![]
    } else {
        let prev = hit_smokes(asts.drop_last(), bs);
        match first_hit(bs, asts.last()) {
            Some(_) => prev.push(smoke_of(asts.last())),
            None => prev,
        }
    }
}

/// For each bullet, whether it destroyed one of the asteroids.
pub open spec fn spent_marks(asts: Seq<Asteroid>, bs: Seq<Bullet>) -> Seq<bool>
    decreases asts.len(),
{
    if asts.len() == 0 {
        Seq::new(bs.len(), |k: int| false)
    } else {
        let prev = spent_marks(asts.drop_last(), bs);
        match first_hit(bs, asts.last()) {
            Some(j) => prev.update(j, true),
            None => prev,
        }
    }
}

/// The bullets whose mark is not set, in order.
pub open spec fn unspent(bs: Seq<Bullet>, marks: Seq<bool>) -> Seq<Bullet>
    decreases bs.len(),
{
    if bs.len() == 0 {
        seq![]
    } else {
        let prev = unspent(bs.drop_last(), marks);
        if marks[bs.len() - 1] {
            prev
        } else {
            prev.push(bs.last())
        }
    }
}

proof fn lemma_first_hit(bs: Seq<Bullet>, a: Asteroid)
    ensures
        (first_hit(bs, a) is None) == (forall|k: int| 0 <= k < bs.len() ==> !hits(#[trigger] bs[k], a)),
        first_hit(bs, a) matches Some(j) ==> 0 <= j < bs.len() && hits(bs[j], a) && forall|k: int|
            0 <= k < j ==> !hits(#[trigger] bs[k], a),
    decreases bs.len(),
{
    if bs.len() > 0 {
        let init = bs.drop_last();
        lemma_first_hit(init, a);
        assert forall|k: int| 0 <= k < init.len() implies init[k] == bs[k] by {}
        if first_hit(init, a) is None && !hits(bs.last(), a) {
            assert forall|k: int| 0 <= k < bs.len() implies !hits(#[trigger] bs[k], a) by {
                if k < init.len() {
                    assert(init[k] == bs[k]);
                }
            }
        }
        if first_hit(init, a) is None {
            assert forall|k: int| 0 <= k < bs.len() - 1 implies !hits(#[trigger] bs[k], a) by {
                assert(init[k] == bs[k]);
            }
        }
        if first_hit(init, a) is Some {
            let j = first_hit(init, a)->0;
            assert(init[j] == bs[j]);
            assert forall|k: int| 0 <= k < j implies !hits(#[trigger] bs[k], a) by {
                assert(init[k] == bs[k]);
                assert(!hits(init[k], a));
            }
        }
    }
}

proof fn lemma_unspent_from(bs: Seq<Bullet>, marks: Seq<bool>)
    ensures
        forall|i: int|
            0 <= i < unspent(bs, marks).len() ==> bs.contains(#[trigger] unspent(bs, marks)[i]),
    decreases bs.len(),
{
    if bs.len() > 0 {
        let init = bs.drop_last();
        lemma_unspent_from(init, marks);
        assert forall|i: int| 0 <= i < unspent(bs, marks).len() implies bs.contains(
            #[trigger] unspent(bs, marks)[i],
        ) by {
            let u = unspent(bs, marks);
            if i < unspent(init, marks).len() {
                let e = unspent(init, marks)[i];
                assert(u[i] == e);
                let k = choose|k: int| 0 <= k < init.len() && init[k] == e;
                assert(bs[k] == e);
            } else {
                assert(u[i] == bs.last());
                assert(bs[bs.len() - 1] == bs.last());
            }
        }
    }
}

/// Whether the body lies on or beyond an edge of the screen.
pub fn is_out_of_screen(body: &Body, extent: Vec2) -> (r: bool)
    ensures
        r == out_of_screen(*body, extent),
{
    body.lin_pos.x <= 0 || body.lin_pos.y <= 0 || body.lin_pos.x >= extent.x || body.lin_pos.y
        >= extent.y
}

/// The first bullet, in list order, that hits the asteroid.
fn find_first_hit(bs: &Vec<Bullet>, a: &Asteroid, extent: Vec2) -> (r: Option<usize>)
    requires
        screen_fits(extent),
        forall|k: int| 0 <= k < bs@.len() ==> !out_of_screen(#[trigger] bs@[k].body, extent),
        0 <= a.body.lin_pos.x <= extent.x,
        0 <= a.body.lin_pos.y <= extent.y,
        a.shape_fits(),
        a.size <= SIZE_LIMIT,
    ensures
        match r {
            Some(j) => first_hit(bs@, *a) == Some(j as int),
            None => first_hit(bs@, *a) is None,
        },
{
    proof {
        lemma_first_hit(bs@, *a);
        lemma_asteroid_shape_near(*a);
    }
    let mut j: usize = 0;
    while j < bs.len()
        invariant
            j <= bs@.len(),
            screen_fits(extent),
            forall|k: int| 0 <= k < bs@.len() ==> !out_of_screen(#[trigger] bs@[k].body, extent),
            a.shape_fits(),
            in_range(a.spec_shape()),
            forall|k: int| 0 <= k < j ==> !hits(#[trigger] bs@[k], *a),
        decreases bs@.len() - j,
    {
        let b = &bs[j];
        proof {
            assert(!out_of_screen(bs@[j as int].body, extent));
            lemma_bullet_shape_near(*b);
        }
        let hit = collides(b, a);
        assert(hit == hits(bs@[j as int], *a)) by {
            reveal(hits);
        }
        if hit {
            proof {
                lemma_first_hit(bs@, *a);
                assert(hits(bs@[j as int], *a));
                assert(first_hit(bs@, *a) is Some);
                let j2 = first_hit(bs@, *a)->0;
                if j2 < j {
                    assert(!hits(bs@[j2], *a));
                }
                if j < j2 {
                    assert(!hits(bs@[j as int], *a));
                }
            }
            return Some(j);
        }
        j = j + 1;
    }
    proof {
        lemma_first_hit(bs@, *a);
    }
    None
}

/// The asteroid sits on the screen within the bounds that the detector and
/// the fragmentation rule need.
pub open spec fn placed(a: Asteroid, extent: Vec2) -> bool {
    &&& 0 <= a.body.lin_pos.x <= extent.x
    &&& 0 <= a.body.lin_pos.y <= extent.y
    &&& a.shape_fits()
    &&& 3 <= a.sides
    &&& a.size <= SIZE_LIMIT
}

/// The bullet flies on the screen within the bounds that the detector and
/// the fragmentation rule need.
pub open spec fn in_flight(b: Bullet, extent: Vec2) -> bool {
    &&& !out_of_screen(b.body, extent)
    &&& b.body.lin_vel.fits(0x0100_0000_0000_0000)
}

proof fn lemma_spent_len(asts: Seq<Asteroid>, bs: Seq<Bullet>)
    ensures
        spent_marks(asts, bs).len() == bs.len(),
    decreases asts.len(),
{
    if asts.len() > 0 {
        lemma_spent_len(asts.drop_last(), bs);
        lemma_first_hit(bs, asts.last());
    }
}

/// Plays the bullets against the asteroids, each asteroid taken by the first
/// bullet in list order that hits it: the asteroids left untouched, the
/// fragments and the smoke of those destroyed, and which bullets were spent.
fn resolve_hits(asts: &Vec<Asteroid>, bs: &Vec<Bullet>, extent: Vec2) -> (r: (
    Vec<Asteroid>,
    Vec<Asteroid>,
    Vec<Smoke>,
    Vec<bool>,
))
    requires
        screen_fits(extent),
        forall|k: int| 0 <= k < bs@.len() ==> in_flight(#[trigger] bs@[k], extent),
        forall|k: int| 0 <= k < asts@.len() ==> placed(#[trigger] asts@[k], extent),
        forall|k: int| 0 <= k < asts@.len() ==> (#[trigger] asts@[k]).body.lin_vel.fits(0x0100_0000_0000_0000),
    ensures
        r.0@ == asts@.filter(not_hit(bs@)),
        r.1@ == fragments(asts@, bs@),
        r.2@ == hit_smokes(asts@, bs@),
        r.3@ == spent_marks(asts@, bs@),
        forall|k: int| 0 <= k < r.0@.len() ==> placed(#[trigger] r.0@[k], extent),
        forall|k: int| 0 <= k < r.1@.len() ==> placed(#[trigger] r.1@[k], extent),
{
    let mut survivors: Vec<Asteroid> = Vec::new();
    let mut pieces: Vec<Asteroid> = Vec::new();
    let mut smokes: Vec<Smoke> = Vec::new();
    let mut spent: Vec<bool> = Vec::new();
    let mut k: usize = 0;
    while k < bs.len()
        invariant
            k <= bs@.len(),
            spent@ =~= Seq::new(k as nat, |i: int| false),
        decreases bs@.len() - k,
    {
        spent.push(false);
        k = k + 1;
    }
    proof {
        assert(asts@.take(0) =~= Seq::<Asteroid>::empty());
        reveal(Seq::filter);
    }
    let mut i: usize = 0;
    while i < asts.len()
        invariant
            i <= asts@.len(),
            screen_fits(extent),
            forall|k: int| 0 <= k < bs@.len() ==> in_flight(#[trigger] bs@[k], extent),
            forall|k: int| 0 <= k < asts@.len() ==> placed(#[trigger] asts@[k], extent),
            forall|k: int| 0 <= k < asts@.len() ==> (#[trigger] asts@[k]).body.lin_vel.fits(0x0100_0000_0000_0000),
            survivors@ == asts@.take(i as int).filter(not_hit(bs@)),
            pieces@ == fragments(asts@.take(i as int), bs@),
            smokes@ == hit_smokes(asts@.take(i as int), bs@),
            spent@ == spent_marks(asts@.take(i as int), bs@),
            forall|k: int| 0 <= k < survivors@.len() ==> placed(#[trigger] survivors@[k], extent),
            forall|k: int| 0 <= k < pieces@.len() ==> placed(#[trigger] pieces@[k], extent),
        decreases asts@.len() - i,
    {
        let a = asts[i];
        proof {
            reveal(Seq::filter);
            let pre = asts@.take(i + 1);
            assert(pre.drop_last() =~= asts@.take(i as int));
            assert(pre.last() == a);
            assert(placed(a, extent));
            lemma_spent_len(asts@.take(i as int), bs@);
            assert forall|k: int| 0 <= k < bs@.len() implies !out_of_screen(
                #[trigger] bs@[k].body,
                extent,
            ) by {
                assert(in_flight(bs@[k], extent));
            }
        }
        match find_first_hit(bs, &a, extent) {
            None => {
                survivors.push(a);
            },
            Some(j) => {
                proof {
                    lemma_first_hit(bs@, a);
                    assert(in_flight(bs@[j as int], extent));
                }
                smokes.push(Smoke::new(a.body.lin_pos, 2 * a.size));
                let mut split = a.split(bs[j].body.lin_vel);
                assert(a.body.lin_vel.fits(0x0100_0000_0000_0000));
                let ghost before = pieces@;
                pieces.append(&mut split);
                assert forall|k: int| 0 <= k < pieces@.len() implies placed(
                    #[trigger] pieces@[k],
                    extent,
                ) by {
                    if k >= before.len() {
                        assert(pieces@[k] == asts@[i as int].spec_split(
                            bs@[j as int].body.lin_vel,
                        )[k - before.len()]);
                    } else {
                        assert(pieces@[k] == before[k]);
                    }
                }
                spent.set(j, true);
            },
        }
        i = i + 1;
    }
    proof {
        assert(asts@.take(i as int) =~= asts@);
    }
    (survivors, pieces, smokes, spent)
}

pub open spec fn stepped_bullets(bs: Seq<Bullet>, dt: int, extent: Vec2) -> Seq<Bullet> {
    Seq::new(bs.len(), |k: int| step_bullet(bs[k], dt, extent))
}

pub open spec fn stepped_asteroids(asts: Seq<Asteroid>, dt: int, extent: Vec2) -> Seq<Asteroid> {
    Seq::new(asts.len(), |k: int| step_asteroid(asts[k], dt, extent))
}

pub open spec fn aged_smokes(ss: Seq<Smoke>, dt: int) -> Seq<Smoke> {
    Seq::new(ss.len(), |k: int| age_smoke(ss[k], dt))
}

fn step_bullets(bs: &Vec<Bullet>, dt: i64, extent: Vec2) -> (r: Vec<Bullet>)
    requires
        forall|k: int| 0 <= k < bs@.len() ==> (#[trigger] bs@[k]).body.state_within_limits(),
        0 <= dt <= MAX_DT,
        screen_fits(extent),
    ensures
        r@ == stepped_bullets(bs@, dt as int, extent),
        forall|k: int| 0 <= k < r@.len() ==> (#[trigger] r@[k]).body.lin_vel.fits(SPEED_LIMIT as int),
{
    let mut out: Vec<Bullet> = Vec::new();
    let mut i: usize = 0;
    while i < bs.len()
        invariant
            i <= bs@.len(),
            forall|k: int| 0 <= k < bs@.len() ==> (#[trigger] bs@[k]).body.state_within_limits(),
            0 <= dt <= MAX_DT,
            screen_fits(extent),
            out@ =~= stepped_bullets(bs@, dt as int, extent).take(i as int),
            forall|k: int| 0 <= k < out@.len() ==> (#[trigger] out@[k]).body.lin_vel.fits(SPEED_LIMIT as int),
        decreases bs@.len() - i,
    {
        let mut b = bs[i];
        proof {
            lemma_step_bounds(b.body.coasting(), dt as int, extent);
        }
        b.update(dt, extent);
        out.push(b);
        i = i + 1;
    }
    out
}

fn step_asteroids(asts: &Vec<Asteroid>, dt: i64, extent: Vec2) -> (r: Vec<Asteroid>)
    requires
        forall|k: int| 0 <= k < asts@.len() ==> asteroid_fits(#[trigger] asts@[k]),
        0 <= dt <= MAX_DT,
        screen_fits(extent),
    ensures
        r@ == stepped_asteroids(asts@, dt as int, extent),
        forall|k: int| 0 <= k < r@.len() ==> placed(#[trigger] r@[k], extent),
        forall|k: int| 0 <= k < r@.len() ==> (#[trigger] r@[k]).body.lin_vel.fits(SPEED_LIMIT as int),
{
    let mut out: Vec<Asteroid> = Vec::new();
    let mut i: usize = 0;
    while i < asts.len()
        invariant
            i <= asts@.len(),
            forall|k: int| 0 <= k < asts@.len() ==> asteroid_fits(#[trigger] asts@[k]),
            0 <= dt <= MAX_DT,
            screen_fits(extent),
            out@ =~= stepped_asteroids(asts@, dt as int, extent).take(i as int),
            forall|k: int| 0 <= k < out@.len() ==> placed(#[trigger] out@[k], extent),
            forall|k: int| 0 <= k < out@.len() ==> (#[trigger] out@[k]).body.lin_vel.fits(SPEED_LIMIT as int),
        decreases asts@.len() - i,
    {
        let mut a = asts[i];
        proof {
            assert(asteroid_fits(asts@[i as int]));
            lemma_step_bounds(a.body.coasting(), dt as int, extent);
        }
        a.update(dt, extent);
        out.push(a);
        i = i + 1;
    }
    out
}

fn age_smokes(ss: &Vec<Smoke>, dt: i64) -> (r: Vec<Smoke>)
    requires
        forall|k: int| 0 <= k < ss@.len() ==> smoke_fits(#[trigger] ss@[k]),
        0 <= dt <= MAX_DT,
    ensures
        r@ == aged_smokes(ss@, dt as int),
{
    let mut out: Vec<Smoke> = Vec::new();
    let mut i: usize = 0;
    while i < ss.len()
        invariant
            i <= ss@.len(),
            forall|k: int| 0 <= k < ss@.len() ==> smoke_fits(#[trigger] ss@[k]),
            0 <= dt <= MAX_DT,
            out@ =~= aged_smokes(ss@, dt as int).take(i as int),
        decreases ss@.len() - i,
    {
        let mut s = ss[i];
        assert(smoke_fits(ss@[i as int]));
        s.update(dt);
        out.push(s);
        i = i + 1;
    }
    out
}

/// The bullets still on the screen, in order.
fn keep_on_screen(bs: Vec<Bullet>, extent: Vec2) -> (r: Vec<Bullet>)
    ensures
        r@ == bs@.filter(bullet_on_screen(extent)),
{
    let mut out: Vec<Bullet> = Vec::new();
    let mut i: usize = 0;
    proof {
        reveal(Seq::filter);
        assert(bs@.take(0) =~= Seq::<Bullet>::empty());
    }
    while i < bs.len()
        invariant
            i <= bs@.len(),
            out@ == bs@.take(i as int).filter(bullet_on_screen(extent)),
        decreases bs@.len() - i,
    {
        proof {
            reveal(Seq::filter);
            assert(bs@.take(i + 1).drop_last() =~= bs@.take(i as int));
            assert(bs@.take(i + 1).last() == bs@[i as int]);
        }
        let b = bs[i];
        if !is_out_of_screen(&b.body, extent) {
            out.push(b);
        }
        i = i + 1;
    }
    assert(bs@.take(i as int) =~= bs@);
    out
}

/// The smoke younger than its lifetime, in order.
fn expire_smokes(ss: Vec<Smoke>) -> (r: Vec<Smoke>)
    ensures
        r@ == ss@.filter(smoke_alive()),
{
    let mut out: Vec<Smoke> = Vec::new();
    let mut i: usize = 0;
    proof {
        reveal(Seq::filter);
        assert(ss@.take(0) =~= Seq::<Smoke>::empty());
    }
    while i < ss.len()
        invariant
            i <= ss@.len(),
            out@ == ss@.take(i as int).filter(smoke_alive()),
        decreases ss@.len() - i,
    {
        proof {
            reveal(Seq::filter);
            assert(ss@.take(i + 1).drop_last() =~= ss@.take(i as int));
            assert(ss@.take(i + 1).last() == ss@[i as int]);
        }
        let s = ss[i];
        if s.timer < SMOKE_LIFETIME {
            out.push(s);
        }
        i = i + 1;
    }
    assert(ss@.take(i as int) =~= ss@);
    out
}

/// The bullets not marked as spent, in order.
fn drop_spent(bs: &Vec<Bullet>, marks: &Vec<bool>) -> (r: Vec<Bullet>)
    requires
        marks@.len() == bs@.len(),
    ensures
        r@ == unspent(bs@, marks@),
{
    let mut out: Vec<Bullet> = Vec::new();
    let mut i: usize = 0;
    assert(bs@.take(0) =~= Seq::<Bullet>::empty());
    while i < bs.len()
        invariant
            i <= bs@.len(),
            marks@.len() == bs@.len(),
            out@ == unspent(bs@.take(i as int), marks@),
        decreases bs@.len() - i,
    {
        proof {
            assert(bs@.take(i + 1).drop_last() =~= bs@.take(i as int));
            assert(bs@.take(i + 1).last() == bs@[i as int]);
        }
        if !marks[i] {
            out.push(bs[i]);
        }
        i = i + 1;
    }
    assert(bs@.take(i as int) =~= bs@);
    out
}

/// Whether the ship touches one of the asteroids.
fn touches_any(ship: &Ship, asts: &Vec<Asteroid>, extent: Vec2) -> (r: bool)
    requires
        screen_fits(extent),
        0 <= ship.body.lin_pos.x <= extent.x,
        0 <= ship.body.lin_pos.y <= extent.y,
        ship.shape_fits(),
        forall|k: int| 0 <= k < asts@.len() ==> placed(#[trigger] asts@[k], extent),
    ensures
        r == exists|k: int| 0 <= k < asts@.len() && touches(*ship, #[trigger] asts@[k]),
{
    proof {
        lemma_ship_shape_near(*ship);
    }
    let mut i: usize = 0;
    while i < asts.len()
        invariant
            i <= asts@.len(),
            screen_fits(extent),
            ship.shape_fits(),
            in_range(ship.spec_shape()),
            forall|k: int| 0 <= k < asts@.len() ==> placed(#[trigger] asts@[k], extent),
            forall|k: int| 0 <= k < i ==> !touches(*ship, #[trigger] asts@[k]),
        decreases asts@.len() - i,
    {
        let a = &asts[i];
        proof {
            assert(placed(asts@[i as int], extent));
            lemma_asteroid_shape_near(*a);
        }
        let hit = collides(ship, a);
        assert(hit == touches(*ship, asts@[i as int])) by {
            reveal(touches);
        }
        if hit {
            return true;
        }
        i = i + 1;
    }
    false
}

/// The bullet fired from the ship.
pub fn spawn_bullet(ship: &Ship) -> (r: Bullet)
    requires
        ship.shape_fits(),
        ship.body.lin_vel.fits(SPEED_LIMIT as int),
    ensures
        r == spec_spawn(*ship),
{
    let nose = ship.shape()[0];
    let a = ship.body.ang_pos;
    let t = toward(Vec2 { x: 0, y: 0 }, a, -BULLET_SPEED);
    Bullet {
        body: Body {
            lin_pos: nose,
            lin_vel: Vec2 { x: t.x + ship.body.lin_vel.x / 5, y: t.y + ship.body.lin_vel.y / 5 },
            lin_acc: Vec2 { x: 0, y: 0 },
            ang_pos: a + TURN / 2,
            ang_vel: 0,
            ang_acc: 0,
        },
    }
}

impl GameObjects {
    /// Every body lies within the limits that one update accepts.
    pub open spec fn within_limits(&self) -> bool {
        &&& self.ship.body.state_within_limits()
        &&& forall|k: int| 0 <= k < self.asteroids@.len() ==> asteroid_fits(#[trigger] self.asteroids@[k])
        &&& forall|k: int|
            0 <= k < self.bullets@.len() ==> (#[trigger] self.bullets@[k]).body.state_within_limits()
        &&& forall|k: int| 0 <= k < self.smokes@.len() ==> smoke_fits(#[trigger] self.smokes@[k])
    }

    /// The ship after this frame.
    pub open spec fn next_ship(&self, c: Controls, dt: int, extent: Vec2) -> Ship {
        Ship { body: self.ship.spec_controlled(c).spec_step(dt, extent) }
    }

    /// The asteroids once moved, before any is destroyed.
    pub open spec fn moved_asteroids(&self, dt: int, extent: Vec2) -> Seq<Asteroid> {
        stepped_asteroids(self.asteroids@, dt, extent)
    }

    /// The bullets once moved, with the one fired this frame at the end, less
    /// those that left the screen.
    pub open spec fn flying_bullets(&self, c: Controls, dt: int, extent: Vec2) -> Seq<Bullet> {
        let moved = stepped_bullets(self.bullets@, dt, extent);
        let fired = if c.fire {
            moved.push(spec_spawn(self.next_ship(c, dt, extent)))
        } else {
            moved
        };
        fired.filter(bullet_on_screen(extent))
    }
}

impl GameObjects {
    /// Runs one frame of `dt` milliseconds on a screen of size `extent`: the
    /// ship takes the controls and moves; asteroids, bullets and smoke move
    /// or age; a bullet is fired if asked; bullets that left the screen go;
    /// each asteroid hit by a bullet (the first in list order) is destroyed,
    /// leaving smoke and its fragments, and that bullet is spent; old smoke
    /// goes; and the ship is tested against every asteroid left. All hits are
    /// judged against the bullets as they fly before any is spent, so one
    /// bullet may destroy several asteroids in the same frame.
    pub fn update(&mut self, controls: Controls, dt: i64, extent: Vec2) -> (r: FrameEvents)
        requires
            old(self).within_limits(),
            screen_fits(extent),
            0 <= dt <= MAX_DT,
        ensures
            final(self).ship == old(self).next_ship(controls, dt as int, extent),
            final(self).asteroids@ == old(self).moved_asteroids(dt as int, extent).filter(
                not_hit(old(self).flying_bullets(controls, dt as int, extent)),
            ) + fragments(
                old(self).moved_asteroids(dt as int, extent),
                old(self).flying_bullets(controls, dt as int, extent),
            ),
            final(self).bullets@ == unspent(
                old(self).flying_bullets(controls, dt as int, extent),
                spent_marks(
                    old(self).moved_asteroids(dt as int, extent),
                    old(self).flying_bullets(controls, dt as int, extent),
                ),
            ),
            final(self).smokes@ == aged_smokes(old(self).smokes@, dt as int).filter(smoke_alive())
                + hit_smokes(
                old(self).moved_asteroids(dt as int, extent),
                old(self).flying_bullets(controls, dt as int, extent),
            ),
            r.ship_hit == exists|k: int|
                0 <= k < final(self).asteroids@.len() && touches(
                    final(self).ship,
                    #[trigger] final(self).asteroids@[k],
                ),
            r.cleared == (final(self).asteroids@.len() == 0),
            forall|k: int|
                0 <= k < final(self).bullets@.len() ==> !out_of_screen(
                    #[trigger] final(self).bullets@[k].body,
                    extent,
                ),
    {
        let ghost start = *self;
        self.ship.update(controls, dt, extent);
        let mut moved_bullets = step_bullets(&self.bullets, dt, extent);
        let moved = step_asteroids(&self.asteroids, dt, extent);
        let aged = age_smokes(&self.smokes, dt);
        if controls.fire {
            let b = spawn_bullet(&self.ship);
            moved_bullets.push(b);
        }
        let ghost fired = moved_bullets@;
        let flying = keep_on_screen(moved_bullets, extent);
        proof {
            assert forall|k: int| 0 <= k < flying@.len() implies in_flight(#[trigger] flying@[k], extent) by {
                reveal(Seq::filter);
                fired.lemma_filter_pred(bullet_on_screen(extent), k);
                fired.lemma_filter_contains_rev(bullet_on_screen(extent), flying@[k]);
                let m = choose|m: int| 0 <= m < fired.len() && fired[m] == flying@[k];
                assert(fired[m].body.lin_vel.fits(0x0100_0000_0000_0000));
            }
        }
        let (survivors, mut pieces, mut new_smokes, spent) = resolve_hits(&moved, &flying, extent);
        let ghost surv = survivors@;
        let ghost pcs = pieces@;
        let mut smokes = expire_smokes(aged);
        smokes.append(&mut new_smokes);
        let mut asteroids = survivors;
        asteroids.append(&mut pieces);
        proof {
            lemma_spent_len(moved@, flying@);
        }
        self.bullets = drop_spent(&flying, &spent);
        proof {
            lemma_unspent_from(flying@, spent@);
            assert forall|k: int| 0 <= k < self.bullets@.len() implies !out_of_screen(
                #[trigger] self.bullets@[k].body,
                extent,
            ) by {
                let m = choose|m: int| 0 <= m < flying@.len() && flying@[m] == self.bullets@[k];
                assert(in_flight(flying@[m], extent));
            }
        }
        self.asteroids = asteroids;
        self.smokes = smokes;
        assert forall|k: int| 0 <= k < self.asteroids@.len() implies placed(
            #[trigger] self.asteroids@[k],
            extent,
        ) by {
            if k >= surv.len() {
                assert(self.asteroids@[k] == pcs[k - surv.len()]);
            } else {
                assert(self.asteroids@[k] == surv[k]);
            }
        }
        let ship_hit = touches_any(&self.ship, &self.asteroids, extent);
        FrameEvents { ship_hit, cleared: self.asteroids.len() == 0 }
    }
}

impl GameObjects {
    /// Whether every body lies within the limits that one update accepts.
    pub fn check_limits(&self) -> (r: bool)
        ensures
            r == self.within_limits(),
    {
        if !body_state_fits(&self.ship.body) {
            return false;
        }
        let mut i: usize = 0;
        while i < self.asteroids.len()
            invariant
                i <= self.asteroids@.len(),
                forall|k: int| 0 <= k < i ==> asteroid_fits(#[trigger] self.asteroids@[k]),
            decreases self.asteroids@.len() - i,
        {
            let a = &self.asteroids[i];
            if !body_state_fits(&a.body) || a.sides < 3 || a.size < 0 || a.size > SIZE_LIMIT {
                return false;
            }
            i = i + 1;
        }
        let mut i: usize = 0;
        while i < self.bullets.len()
            invariant
                i <= self.bullets@.len(),
                forall|k: int| 0 <= k < i ==> (#[trigger] self.bullets@[k]).body.state_within_limits(),
            decreases self.bullets@.len() - i,
        {
            if !body_state_fits(&self.bullets[i].body) {
                return false;
            }
            i = i + 1;
        }
        let mut i: usize = 0;
        while i < self.smokes.len()
            invariant
                i <= self.smokes@.len(),
                forall|k: int| 0 <= k < i ==> smoke_fits(#[trigger] self.smokes@[k]),
            decreases self.smokes@.len() - i,
        {
            let t = self.smokes[i].timer;
            if t < 0 || t > MOTION_LIMIT {
                return false;
            }
            i = i + 1;
        }
        true
    }

    /// Whether every bullet's position lies within `SCREEN_LIMIT` of the
    /// origin on each axis, as it does after any update.
    pub fn bullets_within_screen_limit(&self) -> (r: bool)
        ensures
            r == forall|k: int|
                0 <= k < self.bullets@.len() ==> (#[trigger] self.bullets@[k]).body.lin_pos.fits(
                    SCREEN_LIMIT as int,
                ),
    {
        let mut i: usize = 0;
        while i < self.bullets.len()
            invariant
                i <= self.bullets@.len(),
                forall|k: int|
                    0 <= k < i ==> (#[trigger] self.bullets@[k]).body.lin_pos.fits(
                        SCREEN_LIMIT as int,
                    ),
            decreases self.bullets@.len() - i,
        {
            let p = self.bullets[i].body.lin_pos;
            if p.x < -SCREEN_LIMIT || p.x > SCREEN_LIMIT || p.y < -SCREEN_LIMIT || p.y > SCREEN_LIMIT {
                return false;
            }
            i = i + 1;
        }
        true
    }
}

fn coord_fits(v: i64) -> (r: bool)
    ensures
        r == (-MOTION_LIMIT <= v <= MOTION_LIMIT),
{
    -MOTION_LIMIT <= v && v <= MOTION_LIMIT
}

fn body_state_fits(b: &Body) -> (r: bool)
    ensures
        r == b.state_within_limits(),
{
    coord_fits(b.lin_pos.x) && coord_fits(b.lin_pos.y) && coord_fits(b.lin_vel.x) && coord_fits(
        b.lin_vel.y,
    ) && coord_fits(b.ang_pos) && coord_fits(b.ang_vel)
}

proof fn lemma_fragments_concat(a: Seq<Asteroid>, b: Seq<Asteroid>, bs: Seq<Bullet>)
    ensures
        fragments(a + b, bs) == fragments(a, bs) + fragments(b, bs),
    decreases b.len(),
{
    if b.len() == 0 {
        assert(a + b =~= a);
        assert(fragments(a, bs) + fragments(b, bs) =~= fragments(a, bs));
    } else {
        lemma_fragments_concat(a, b.drop_last(), bs);
        assert((a + b).drop_last() =~= a + b.drop_last());
        assert((a + b).last() == b.last());
        match first_hit(bs, b.last()) {
            Some(j) => {
                let s = b.last().spec_split(bs[j].body.lin_vel);
                assert(fragments(a, bs) + fragments(b.drop_last(), bs) + s =~= fragments(a, bs) + (
                fragments(b.drop_last(), bs) + s));
            },
            None => {},
        }
    }
}

/// In a frame, an asteroid that a bullet destroys is dropped from the
/// survivors, and its place in the fragments appended to the asteroids holds
/// exactly its split: two asteroids of three sides, two thirds of its size,
/// at its position, when it had four sides; nothing when it had three.
pub proof fn lemma_frame_destroys(
    go: GameObjects,
    c: Controls,
    dt: int,
    extent: Vec2,
    i: int,
)
    requires
        0 <= i < go.moved_asteroids(dt, extent).len(),
        first_hit(go.flying_bullets(c, dt, extent), go.moved_asteroids(dt, extent)[i]) is Some,
    ensures
        ({
            let asts = go.moved_asteroids(dt, extent);
            let bs = go.flying_bullets(c, dt, extent);
            let a = asts[i];
            let split = a.spec_split(bs[first_hit(bs, a)->0].body.lin_vel);
            &&& !not_hit(bs)(a)
            &&& fragments(asts, bs) == fragments(asts.take(i), bs) + split + fragments(
                asts.skip(i + 1),
                bs,
            )
            &&& a.sides == 4 ==> split.len() == 2 && forall|k: int|
                0 <= k < 2 ==> (#[trigger] split[k]).sides == 3 && split[k].size == 2 * a.size / 3
                    && split[k].body.lin_pos == a.body.lin_pos
            &&& a.sides == 3 ==> split.len() == 0
        }),
{
    let asts = go.moved_asteroids(dt, extent);
    let bs = go.flying_bullets(c, dt, extent);
    let a = asts[i];
    lemma_first_hit(bs, a);
    let split = a.spec_split(bs[first_hit(bs, a)->0].body.lin_vel);
    lemma_split_fragments(a, bs[first_hit(bs, a)->0].body.lin_vel);
    assert(asts =~= asts.take(i) + (seq![a] + asts.skip(i + 1)));
    lemma_fragments_concat(asts.take(i), seq![a] + asts.skip(i + 1), bs);
    lemma_fragments_concat(seq![a], asts.skip(i + 1), bs);
    assert(seq![a].drop_last() =~= Seq::<Asteroid>::empty());
    assert(seq![a].last() == a);
    assert(fragments(Seq::<Asteroid>::empty(), bs) =~= Seq::<Asteroid>::empty());
    assert(Seq::<Asteroid>::empty() + split =~= split);
    assert(fragments(seq![a], bs) =~= split);
    assert(fragments(asts.take(i), bs) + (split + fragments(asts.skip(i + 1), bs)) =~= fragments(
        asts.take(i),
        bs,
    ) + split + fragments(asts.skip(i + 1), bs));
}

} // verus!
