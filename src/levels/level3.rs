use vstd::prelude::*;
use crate::body::Body;
use crate::collisions::{collides, in_range, spec_overlap};
use crate::entities::{lemma_bullet_shape_near, Asteroid, Bullet};
use crate::geometry::Vec2;
use crate::shapes::{Rect, Shape};
use crate::world::{GameObjects, SCREEN_LIMIT};

verus! {

/// The third level: one still triangle, the ship at rest to its left, a wall
/// between them (see `obstacle`).
pub fn init(game_objects: &mut GameObjects)
    ensures
        final(game_objects).asteroids@ == seq![
            Asteroid {
                body: Body { lin_pos: Vec2 { x: 44800, y: 32000 }, ..Body::spec_default() },
                sides: 3,
                size: 4480,
            },
        ],
        final(game_objects).bullets@.len() == 0,
        final(game_objects).smokes@.len() == 0,
        final(game_objects).ship.body == (Body {
            lin_pos: Vec2 { x: 12800, y: 32000 },
            ..Body::spec_default()
        }),
{
    let mut asteroids: Vec<Asteroid> = Vec::new();
    asteroids.push(
        Asteroid { body: Body { lin_pos: Vec2 { x: 44800, y: 32000 }, ..Body::default() }, sides: 3, size: 4480 },
    );
    game_objects.asteroids = asteroids;
    game_objects.bullets = Vec::new();
    game_objects.smokes = Vec::new();
    game_objects.ship.body = Body { lin_pos: Vec2 { x: 12800, y: 32000 }, ..Body::default() };
    assert(game_objects.asteroids@ =~= seq![
        Asteroid {
            body: Body { lin_pos: Vec2 { x: 44800, y: 32000 }, ..Body::spec_default() },
            sides: 3,
            size: 4480,
        },
    ]);
}

/// The wall in the middle of the level: 20 px wide and 150 px tall.
pub fn obstacle() -> (r: Rect)
    ensures
        r == (Rect { x: 25600, y: 27200, w: 1280, h: 9600 }),
        r.shape_fits(),
        in_range(r.spec_shape()),
{
    Rect { x: 25600, y: 27200, w: 1280, h: 9600 }
}

/// The bullet touches the wall.
#[verifier::opaque]
pub open spec fn strikes(b: Bullet, wall: Rect) -> bool {
    spec_overlap(b.spec_shape(), wall.spec_shape())
}

pub open spec fn misses(wall: Rect) -> spec_fn(Bullet) -> bool {
    |b: Bullet| !strikes(b, wall)
}

/// Removes the bullets that touch the wall, keeping the others in order.
pub fn remove_bullets_hitting(game_objects: &mut GameObjects, wall: &Rect)
    requires
        wall.shape_fits(),
        in_range(wall.spec_shape()),
        forall|k: int|
            0 <= k < old(game_objects).bullets@.len() ==> (#[trigger] old(
                game_objects,
            ).bullets@[k]).body.lin_pos.fits(SCREEN_LIMIT as int),
    ensures
        final(game_objects).bullets@ == old(game_objects).bullets@.filter(misses(*wall)),
        final(game_objects).ship == old(game_objects).ship,
        final(game_objects).asteroids@ == old(game_objects).asteroids@,
        final(game_objects).smokes@ == old(game_objects).smokes@,
{
    let ghost bs = game_objects.bullets@;
    let mut kept: Vec<Bullet> = Vec::new();
    let mut i: usize = 0;
    proof {
        reveal(Seq::filter);
        assert(bs.take(0) =~= Seq::<Bullet>::empty());
    }
    while i < game_objects.bullets.len()
        invariant
            bs == game_objects.bullets@,
            i <= bs.len(),
            wall.shape_fits(),
            in_range(wall.spec_shape()),
            forall|k: int| 0 <= k < bs.len() ==> (#[trigger] bs[k]).body.lin_pos.fits(SCREEN_LIMIT as int),
            kept@ == bs.take(i as int).filter(misses(*wall)),
        decreases bs.len() - i,
    {
        proof {
            reveal(Seq::filter);
            assert(bs.take(i + 1).drop_last() =~= bs.take(i as int));
            assert(bs.take(i + 1).last() == bs[i as int]);
        }
        let b = game_objects.bullets[i];
        proof {
            assert(bs[i as int].body.lin_pos.fits(SCREEN_LIMIT as int));
            lemma_bullet_shape_near(b);
        }
        let hit = collides(&b, wall);
        assert(hit == strikes(b, *wall)) by {
            reveal(strikes);
        }
        if !hit {
            kept.push(b);
        }
        i = i + 1;
    }
    assert(bs.take(i as int) =~= bs);
    game_objects.bullets = kept;
}

} // verus!
