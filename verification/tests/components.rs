use avian3d::prelude::{Collider, LayerMask, ShapeCastConfig, ShapeHitData};
use bevy::ecs::entity::Entity;
use bevy::math::{Dir3, Quat, Vec3};
use bevy_context_steering::{
    AlignHeading, MotionKinematic, Obstacle, NeighbourhoodExtents, NeighbourhoodFilter, ObstacleDetection,
    Throttle, ThrottleTo,
};

#[test]
fn align_heading_new() {
    assert_eq!(AlignHeading::new(), AlignHeading);
}

#[test]
fn throttle_targets_entity() {
    let entity = Entity::from_bits(5 | (1 << 32));
    assert_eq!(Throttle::new(entity).entity, entity);
}

#[test]
fn throttle_to_holds_velocity() {
    let velocity = Vec3::new(1.0, 2.0, 3.0);
    assert_eq!(ThrottleTo::new(velocity).velocity, velocity);
}

#[test]
fn motion_kinematic_builders() {
    assert!(MotionKinematic::default().face_movement_direction);
    assert!(!MotionKinematic::new(false).face_movement_direction);
    let m = MotionKinematic::new(false).with_face_movement_direction(true);
    assert!(m.face_movement_direction);
}

#[test]
fn obstacle_detection_defaults_and_builders() {
    let config = ShapeCastConfig {
        max_distance: 5.0,
        ..Default::default()
    };
    let detection = ObstacleDetection::new(Collider::sphere(0.5), config.clone());
    assert_eq!(detection.rotation, Quat::IDENTITY);
    assert_eq!(detection.direction, Dir3::X);
    assert_eq!(detection.config.max_distance, 5.0);

    let detection = detection
        .with_direction(Dir3::Y)
        .with_rotation(Quat::from_rotation_y(1.0))
        .with_config(ShapeCastConfig::default())
        .with_shape(Collider::sphere(2.0));
    assert_eq!(detection.direction, Dir3::Y);
    assert_eq!(detection.rotation, Quat::from_rotation_y(1.0));
    assert_eq!(detection.config.max_distance, ShapeCastConfig::default().max_distance);
}

#[test]
fn neighbourhood_conversions_round_trip() {
    let filter = NeighbourhoodFilter::from(LayerMask(2));
    assert_eq!(filter.0, LayerMask(2));
    assert_eq!(LayerMask::from(filter), LayerMask(2));
    let extents = NeighbourhoodExtents::from(Vec3::splat(5.0));
    assert_eq!(Vec3::from(extents), Vec3::splat(5.0));
}

#[test]
fn obstacle_records_its_hit() {
    let hit = ShapeHitData {
        entity: Entity::from_bits(3 | (1 << 32)),
        distance: 1.5,
        point1: Vec3::X,
        point2: Vec3::Y,
        normal1: Vec3::Z,
        normal2: Vec3::NEG_Z,
    };
    let obstacle = Obstacle::new(hit);
    let copy = obstacle.clone();
    assert_eq!(copy.shape_hit().entity, hit.entity);
    assert_eq!(obstacle.shape_hit().entity, hit.entity);
    assert_eq!(obstacle.shape_hit().point2, Vec3::Y);
    assert_eq!(obstacle.shape_hit().distance, 1.5);
}
