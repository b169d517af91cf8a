//! Behaviour components whose configuration holds no floating-point data.

mod align_heading;
mod brake;
mod throttle;

pub use align_heading::AlignHeading;
pub use brake::Brake;
pub use throttle::{Throttle, ThrottleTo};
