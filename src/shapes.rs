use vstd::prelude::*;
use crate::collisions::{edge_axis, lemma_nonzero_length, well_formed};
use crate::geometry::Vec2;

verus! {

/// Anything that has a polygon outline: an ordered list of vertices, the edge
/// from the last vertex back to the first closing it.
pub trait Shape {
    /// The outline, as a pure function of the pose and the shape parameters.
    spec fn spec_shape(&self) -> Seq<Vec2>;

    /// The arithmetic that builds the outline stays within machine integers.
    spec fn shape_fits(&self) -> bool;

    fn shape(&self) -> (r: Vec<Vec2>)
        requires
            self.shape_fits(),
        ensures
            r@ == self.spec_shape(),
    ;
}

/// An axis-aligned rectangle: its top-left corner, width and height.
#[derive(Clone, Copy, Debug, PartialEq, Eq, Structural)]
pub struct Rect {
    pub x: i64,
    pub y: i64,
    pub w: i64,
    pub h: i64,
}

impl Rect {
    pub fn new(x: i64, y: i64, w: i64, h: i64) -> (r: Rect)
        ensures
            r == (Rect { x, y, w, h }),
    {
        Rect { x, y, w, h }
    }
}

impl Shape for Rect {
    /// The four corners, going round: top-left, top-right, bottom-right, bottom-left.
    open spec fn spec_shape(&self) -> Seq<Vec2> {
        seq![
            Vec2 { x: self.x, y: self.y },
            Vec2 { x: (self.x + self.w) as i64, y: self.y },
            Vec2 { x: (self.x + self.w) as i64, y: (self.y + self.h) as i64 },
            Vec2 { x: self.x, y: (self.y + self.h) as i64 },
        ]
    }

    open spec fn shape_fits(&self) -> bool {
        i64::MIN <= self.x + self.w <= i64::MAX && i64::MIN <= self.y + self.h <= i64::MAX
    }

    fn shape(&self) -> (r: Vec<Vec2>) {
        let mut vertices: Vec<Vec2> = Vec::new();
        vertices.push(Vec2 { x: self.x, y: self.y });
        vertices.push(Vec2 { x: self.x + self.w, y: self.y });
        vertices.push(Vec2 { x: self.x + self.w, y: self.y + self.h });
        vertices.push(Vec2 { x: self.x, y: self.y + self.h });
        proof {
            assert(vertices@ =~= self.spec_shape());
        }
        vertices
    }
}

/// A rectangle of positive width and height has a well-formed outline.
pub proof fn lemma_rect_well_formed(r: Rect)
    requires
        r.shape_fits(),
        r.w > 0,
        r.h > 0,
    ensures
        well_formed(r.spec_shape()),
{
    let s = r.spec_shape();
    assert forall|i: int| 0 <= i < s.len() implies (#[trigger] edge_axis(s, i)).length_sq() > 0 by {
        lemma_nonzero_length(edge_axis(s, i));
    }
}

} // verus!
