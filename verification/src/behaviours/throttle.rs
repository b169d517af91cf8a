use vstd::prelude::*;
use bevy::ecs::entity::Entity;
use bevy::math::Vec3;

verus! {

/// A steering component that matches the current linear speed of a target
/// entity (which can be the agent itself), voting interest along the
/// target's movement vector.
#[derive(Clone, Copy, Debug)]
pub struct Throttle {
    /// The target entity whose velocity this agent will attempt to match.
    pub entity: Entity,
}

/// A steering component that pushes the agent toward a fixed target
/// velocity, independent of any other entity.
#[derive(Clone, Copy, Debug)]
pub struct ThrottleTo {
    /// The fixed velocity this agent will attempt to match.
    pub velocity: Vec3,
}

impl Throttle {
    /// Creates a new `Throttle` behaviour targeting `entity`.
    pub fn new(entity: Entity) -> (res: Self)
        ensures
            res.entity == entity,
    {
        Throttle { entity }
    }
}

impl ThrottleTo {
    /// Creates a new `ThrottleTo` behaviour toward `velocity`.
    pub fn new(velocity: Vec3) -> (res: Self)
        ensures
            res.velocity == velocity,
    {
        ThrottleTo { velocity }
    }
}

} // verus!
