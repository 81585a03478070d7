use vstd::prelude::*;

use crate::entities::{Alien, Missile};

verus! {

/// A missile hits an alien when its position lies in the alien's bounding box
/// (x..x+12, y..y+8) and the alien is currently alive.
pub open spec fn spec_hit(alien: Alien, missile: Missile) -> bool {
    &&& missile.y >= alien.y
    &&& missile.y <= alien.y + 8
    &&& missile.x >= alien.x
    &&& missile.x <= alien.x + 12
    &&& alien.alive
}

/// Axis-aligned bounding-box test between a live alien and a missile.
pub fn is_a_hit(alien: &Alien, missile: &Missile) -> (r: bool)
    ensures
        r == spec_hit(*alien, *missile),
{
    missile.y >= alien.y && missile.y - alien.y <= 8 && missile.x >= alien.x && missile.x - alien.x
        <= 12 && alien.alive
}

} // verus!
