//! The shared sample-direction sets that steering contexts vote over.

mod cache;

pub use cache::{
    lemma_repeated_request_shares, memo_step, DirectionSetKind, DirectionsRegistry,
    SteeringDirectionsCache,
};
