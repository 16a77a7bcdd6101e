use braideroids::body::Body;
use braideroids::collisions::{collision, collides, contains_point, inside, overlaps};
use braideroids::entities::{Asteroid, Bullet};
use braideroids::geometry::Vec2;
use braideroids::shapes::{Rect, Shape};

fn triangle(x: i64, y: i64, size: i64) -> Asteroid {
    Asteroid { body: Body::at_rest(Vec2::new(x, y), 0), sides: 3, size }
}

#[test]
fn square_contains_centre_not_outside_point() {
    let square = Rect::new(0, 0, 10, 10).shape();
    assert_eq!(
        square,
        vec![Vec2::new(0, 0), Vec2::new(10, 0), Vec2::new(10, 10), Vec2::new(0, 10)]
    );
    assert!(contains_point(&square, Vec2::new(5, 5)));
    assert!(!contains_point(&square, Vec2::new(15, 5)));
    assert!(inside(Vec2::new(5, 5), &square).is_some());
    assert!(inside(Vec2::new(15, 5), &square).is_none());
}

#[test]
fn boundary_point_is_contained() {
    let square = Rect::new(0, 0, 10, 10).shape();
    assert!(contains_point(&square, Vec2::new(10, 5)));
    assert!(contains_point(&square, Vec2::new(0, 0)));
    assert!(!contains_point(&square, Vec2::new(11, 5)));
}

#[test]
fn inside_reports_first_least_deep_edge() {
    let square = Rect::new(0, 0, 10, 10).shape();
    let mtv = inside(Vec2::new(5, 5), &square).unwrap();
    assert_eq!(mtv.min_overlap_direction, Vec2::new(0, 10000));
    assert_eq!(mtv.min_overlap_magnitude, 5);
    // Closer to the right edge: the normal of the second edge wins.
    let mtv = inside(Vec2::new(9, 5), &square).unwrap();
    assert_eq!(mtv.min_overlap_direction, Vec2::new(-10000, 0));
    assert_eq!(mtv.min_overlap_magnitude, 1);
}

#[test]
fn degenerate_polygon_contains_nothing() {
    let line = vec![Vec2::new(0, 0), Vec2::new(10, 0)];
    assert!(!contains_point(&line, Vec2::new(5, 0)));
    let repeated = vec![Vec2::new(0, 0), Vec2::new(0, 0), Vec2::new(10, 10)];
    assert!(!contains_point(&repeated, Vec2::new(0, 0)));
}

#[test]
fn coincident_triangles_collide_distant_ones_do_not() {
    let a = triangle(100, 100, 50);
    let b = triangle(100, 100, 50);
    assert!(collision(&a, &b).is_some());
    assert!(collides(&a, &b));
    let far = triangle(1000, 1000, 50);
    assert!(collision(&a, &far).is_none());
    assert!(!collides(&a, &far));
}

#[test]
fn collision_lists_vertices_on_both_sides() {
    let big = Rect::new(0, 0, 100, 100);
    let small = Rect::new(90, 90, 20, 20);
    let lists = collision(&big, &small).unwrap();
    // The big square's corner (100, 100) lies in the small one.
    assert_eq!(lists[0].len(), 1);
    assert_eq!(lists[0][0].vertice_index, 2);
    // The small square's corner (90, 90) lies in the big one.
    assert_eq!(lists[1].len(), 1);
    assert_eq!(lists[1][0].vertice_index, 0);
}

#[test]
fn separated_rectangles_report_no_vertex() {
    let left = Rect::new(0, 0, 10, 10).shape();
    let right = Rect::new(20, 0, 10, 10).shape();
    assert!(!overlaps(&left, &right));
    assert!(!overlaps(&right, &left));
    let a = Rect::new(0, 0, 10, 10);
    let b = Rect::new(20, 0, 10, 10);
    assert!(collision(&a, &b).is_none());
}

#[test]
fn bullet_inside_asteroid_collides() {
    let asteroid = Asteroid { body: Body::at_rest(Vec2::new(5000, 5000), 0), sides: 4, size: 1000 };
    let bullet = Bullet { body: Body::at_rest(Vec2::new(5000, 5000), 0) };
    assert!(collides(&bullet, &asteroid));
    let lists = collision(&bullet, &asteroid).unwrap();
    assert_eq!(lists[0].len(), 4);
    assert!(lists[1].is_empty());
}

#[test]
fn slanted_edge_translation_is_normalised() {
    let triangle = vec![Vec2::new(0, 0), Vec2::new(300, 0), Vec2::new(0, 400)];
    let mtv = inside(Vec2::new(100, 200), &triangle).unwrap();
    // The slanted edge's normal (400, 300) has length 500; the point is
    // (400 * 100 + 300 * 200 - 120000) / 500 = -40, so 40 from that edge.
    assert_eq!(mtv.min_overlap_direction, Vec2::new(-8000, -6000));
    assert_eq!(mtv.min_overlap_magnitude, 40);
}
