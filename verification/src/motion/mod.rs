//! Motion models that turn an agent's resolved steering into movement.

mod kinematic;

pub use kinematic::MotionKinematic;
