use vstd::prelude::*;

verus! {

/// Minimum distance, in layer-local units, between a newly committed point
/// and the previous one for the new pointer position to be adopted.
pub const DRAG_THRESHOLD: u64 = 1;

/// A position with integer coordinates.
#[derive(Clone, Copy, Debug, PartialEq, Eq, Structural)]
pub struct Vec2 {
    pub x: i32,
    pub y: i32,
}

/// The squared Euclidean distance between two positions.
pub open spec fn distance_squared(a: Vec2, b: Vec2) -> int {
    (a.x - b.x) * (a.x - b.x) + (a.y - b.y) * (a.y - b.y)
}

/// Whether `b` lies at least `DRAG_THRESHOLD` away from `a`.
pub open spec fn reaches_threshold(a: Vec2, b: Vec2) -> bool {
    distance_squared(a, b) >= DRAG_THRESHOLD * DRAG_THRESHOLD
}

impl Vec2 {
    pub fn new(x: i32, y: i32) -> (r: Vec2)
        ensures
            r.x == x,
            r.y == y,
    {
        Vec2 { x, y }
    }

    /// Whether `other` lies at least the drag threshold away from `self`.
    pub fn reaches_drag_threshold(&self, other: &Vec2) -> (r: bool)
        ensures
            r == reaches_threshold(*self, *other),
    {
        let dx: i128 = self.x as i128 - other.x as i128;
        let dy: i128 = self.y as i128 - other.y as i128;
        assert(dx * dx <= 0x1_0000_0000_0000_0000) by (nonlinear_arith)
            requires
                -0x1_0000_0000 <= dx <= 0x1_0000_0000,
        ;
        assert(dy * dy <= 0x1_0000_0000_0000_0000) by (nonlinear_arith)
            requires
                -0x1_0000_0000 <= dy <= 0x1_0000_0000,
        ;
        assert(dx * dx >= 0 && dy * dy >= 0) by (nonlinear_arith);
        let threshold: i128 = DRAG_THRESHOLD as i128;
        dx * dx + dy * dy >= threshold * threshold
    }
}

} // verus!
