//! A constant environment acting on projectiles, and one simulation step.

use crate::projectile::{new_projectile, Projectile};
use crate::tuple::{bounded, v_add, Tuple};
use vstd::prelude::*;

verus! {

#[derive(Clone, Copy, Debug)]
pub struct Environment {
    pub gravity: Tuple,
    pub wind: Tuple,
}

pub fn new_environment(gravity: Tuple, wind: Tuple) -> (r: Environment)
    ensures
        r.gravity == gravity,
        r.wind == wind,
{
    Environment { gravity, wind }
}

/// One simulation step: the position advances by the velocity, and the
/// velocity picks up gravity and wind.
pub fn tick(env: Environment, projectile: Projectile) -> (r: Projectile)
    requires
        bounded(env.gravity@),
        bounded(env.wind@),
        bounded(projectile.position@),
        bounded(projectile.velocity@),
        bounded(v_add(projectile.velocity@, env.gravity@)),
    ensures
        r.position@ == v_add(projectile.position@, projectile.velocity@),
        r.velocity@ == v_add(v_add(projectile.velocity@, env.gravity@), env.wind@),
{
    let new_pos = projectile.position.add(&projectile.velocity);
    let new_vel = projectile.velocity.add(&env.gravity).add(&env.wind);
    new_projectile(new_pos, new_vel)
}

} // verus!
