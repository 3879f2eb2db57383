//! Decision logic of a palm-mounted command launcher for an XR desktop:
//! which tracked body part it is attached to, which command a pull of the
//! handle selects, what the scene shows for each state, and what a release
//! of the handle launches.

pub mod launcher;
pub mod spatial_ref;
pub mod target;
