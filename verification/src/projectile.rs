//! A projectile: a position and a velocity.

use crate::tuple::{Point, Tuple, Vector};
use vstd::prelude::*;

verus! {

#[derive(Clone, Copy, Debug)]
pub struct Projectile {
    pub position: Point,
    pub velocity: Vector,
}

pub fn new_projectile(position: Point, velocity: Vector) -> (r: Projectile)
    ensures
        r.position == position,
        r.velocity == velocity,
{
    Projectile { position, velocity }
}

} // verus!
