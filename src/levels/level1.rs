use vstd::prelude::*;
use crate::body::Body;
use crate::entities::Asteroid;
use crate::geometry::Vec2;
use crate::world::GameObjects;

verus! {

/// The first level: one still triangle, the ship at rest to its left.
pub fn init(game_objects: &mut GameObjects)
    ensures
        final(game_objects).asteroids@ == seq![
            Asteroid {
                body: Body { lin_pos: Vec2 { x: 44800, y: 32000 }, ..Body::spec_default() },
                sides: 3,
                size: 4480,
            },
        ],
        final(game_objects).bullets@.len() == 0,
        final(game_objects).smokes@.len() == 0,
        final(game_objects).ship.body == (Body {
            lin_pos: Vec2 { x: 12800, y: 32000 },
            ..Body::spec_default()
        }),
{
    let mut asteroids: Vec<Asteroid> = Vec::new();
    asteroids.push(
        Asteroid { body: Body { lin_pos: Vec2 { x: 44800, y: 32000 }, ..Body::default() }, sides: 3, size: 4480 },
    );
    game_objects.asteroids = asteroids;
    game_objects.bullets = Vec::new();
    game_objects.smokes = Vec::new();
    game_objects.ship.body = Body { lin_pos: Vec2 { x: 12800, y: 32000 }, ..Body::default() };
    assert(game_objects.asteroids@ =~= seq![
        Asteroid {
            body: Body { lin_pos: Vec2 { x: 44800, y: 32000 }, ..Body::spec_default() },
            sides: 3,
            size: 4480,
        },
    ]);
}

} // verus!
