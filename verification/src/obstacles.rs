//! Obstacle detection configuration and the relationship recording a detected obstacle.

use vstd::prelude::*;
use avian3d::prelude::{Collider, LayerMask, ShapeCastConfig, ShapeHitData};
use bevy::math::{Dir3, Quat};
use crate::outside::{dir3_x, quat_identity};

verus! {

/// Relationship data recording that an agent currently detects an obstacle
/// at a given entity.
#[derive(Clone, Debug)]
pub struct Obstacle {
    /// The shapecast hit that detected the obstacle.
    pub shape_hit: ShapeHitData,
}

impl Obstacle {
    /// Records the shapecast hit that detected an obstacle.
    pub fn new(shape_hit: ShapeHitData) -> (res: Self)
        ensures
            res.shape_hit == shape_hit,
    {
        Obstacle { shape_hit }
    }

    /// Returns the underlying shapecast hit data for this obstacle.
    pub fn shape_hit(&self) -> (res: &ShapeHitData)
        ensures
            *res == self.shape_hit,
    {
        &self.shape_hit
    }
}

/// The filter used to determine which entities can be obstacles for the given agent.
#[derive(Clone, Copy, Debug, PartialEq, Eq, PartialOrd, Ord)]
pub struct ObstacleFilter(pub LayerMask);

/// Configuration for how an agent detects nearby obstacles.
#[derive(Debug)]
pub struct ObstacleDetection {
    /// The collider shape used to detect obstacles. Size this to the agent's
    /// desired detection radius, not to the agent's own physical footprint.
    pub shape: Collider,
    /// The local rotation applied to `shape` before casting.
    pub rotation: Quat,
    /// Extra configuration.
    pub config: ShapeCastConfig,
    /// Direction the shape is cast in.
    pub direction: Dir3,
}

impl ObstacleDetection {
    /// Creates a detection config from a shape and cast config, with the
    /// identity rotation and the X axis as cast direction.
    pub fn new(shape: Collider, config: ShapeCastConfig) -> (res: Self)
        ensures
            res.shape == shape,
            res.config == config,
    {
        ObstacleDetection { shape, rotation: quat_identity(), config, direction: dir3_x() }
    }

    /// Sets the detection shape. Should be sized to the agent's intended
    /// detection radius, not its physical collider.
    pub fn with_shape(self, shape: Collider) -> (res: Self)
        ensures
            res.shape == shape,
            res.rotation == self.rotation,
            res.config == self.config,
            res.direction == self.direction,
    {
        ObstacleDetection { shape, ..self }
    }

    /// Sets the local rotation applied to the detection shape.
    pub fn with_rotation(self, rotation: Quat) -> (res: Self)
        ensures
            res.shape == self.shape,
            res.rotation == rotation,
            res.config == self.config,
            res.direction == self.direction,
    {
        ObstacleDetection { rotation, ..self }
    }

    /// Sets the cast configuration (`max_hits`, `max_distance`, etc.).
    pub fn with_config(self, config: ShapeCastConfig) -> (res: Self)
        ensures
            res.shape == self.shape,
            res.rotation == self.rotation,
            res.config == config,
            res.direction == self.direction,
    {
        ObstacleDetection { config, ..self }
    }

    /// Sets the cast direction. It only changes the results when
    /// `config.max_distance` lets the shape travel before it overlaps something.
    pub fn with_direction(self, direction: Dir3) -> (res: Self)
        ensures
            res.shape == self.shape,
            res.rotation == self.rotation,
            res.config == self.config,
            res.direction == direction,
    {
        ObstacleDetection { direction, ..self }
    }
}

} // verus!
