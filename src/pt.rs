use vstd::prelude::*;

verus! {

/// An integer point or vector in arena pixels.
#[derive(Clone, Copy, Debug, PartialEq, Eq, Structural)]
pub struct Pt {
    pub x: i32,
    pub y: i32,
}

/// Builds the point `(x, y)`.
pub fn pt(x: i32, y: i32) -> (r: Pt)
    ensures
        r.x == x,
        r.y == y,
{
    Pt { x, y }
}

impl Pt {
    /// Componentwise sum.
    pub fn add(self, other: Pt) -> (r: Pt)
        requires
            i32::MIN <= self.x + other.x <= i32::MAX,
            i32::MIN <= self.y + other.y <= i32::MAX,
        ensures
            r.x == self.x + other.x,
            r.y == self.y + other.y,
    {
        Pt { x: self.x + other.x, y: self.y + other.y }
    }

    /// Componentwise difference.
    pub fn sub(self, other: Pt) -> (r: Pt)
        requires
            i32::MIN <= self.x - other.x <= i32::MAX,
            i32::MIN <= self.y - other.y <= i32::MAX,
        ensures
            r.x == self.x - other.x,
            r.y == self.y - other.y,
    {
        Pt { x: self.x - other.x, y: self.y - other.y }
    }
}

} // verus!
