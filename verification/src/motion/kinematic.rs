use vstd::prelude::*;

verus! {

/// Applies steering output directly to the linear velocity, without physics forces.
#[derive(Clone, Copy, Hash, PartialEq, Eq, Structural, Debug)]
pub struct MotionKinematic {
    /// Whether the agent automatically rotates to face its movement direction.
    pub face_movement_direction: bool,
}

impl MotionKinematic {
    /// Creates a kinematic motion config with the given facing behaviour.
    pub fn new(face_movement_direction: bool) -> (res: Self)
        ensures
            res.face_movement_direction == face_movement_direction,
    {
        MotionKinematic { face_movement_direction }
    }

    /// Returns a copy with the `face_movement_direction` flag replaced.
    pub fn with_face_movement_direction(self, face_movement_direction: bool) -> (res: Self)
        ensures
            res.face_movement_direction == face_movement_direction,
    {
        let mut res = self;
        res.face_movement_direction = face_movement_direction;
        res
    }
}

impl Default for MotionKinematic {
    /// By default an agent faces the way it moves.
    fn default() -> (res: Self)
        ensures
            res.face_movement_direction,
    {
        MotionKinematic { face_movement_direction: true }
    }
}

} // verus!
