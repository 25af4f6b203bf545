use vstd::prelude::*;

verus! {

/// An axis-aligned box in sub-units: left edge `x`, top edge `y`, width `w`
/// and height `h`.
#[derive(Clone, Copy, Debug, PartialEq, Eq, Structural)]
pub struct Hitbox {
    pub x: i64,
    pub y: i64,
    pub w: i64,
    pub h: i64,
}

impl Hitbox {
    /// Two boxes overlap when they meet on both axes; touching edges count.
    pub open spec fn touches(self, other: Hitbox) -> bool {
        &&& self.x <= other.x + other.w
        &&& self.x + self.w >= other.x
        &&& self.y <= other.y + other.h
        &&& self.y + self.h >= other.y
    }

    pub fn overlaps(&self, other: &Hitbox) -> (r: bool)
        ensures
            r == self.touches(*other),
    {
        let (ax, ay, aw, ah) = (self.x as i128, self.y as i128, self.w as i128, self.h as i128);
        let (bx, by, bw, bh) = (other.x as i128, other.y as i128, other.w as i128, other.h as i128);
        ax <= bx + bw && ax + aw >= bx && ay <= by + bh && ay + ah >= by
    }
}

} // verus!
