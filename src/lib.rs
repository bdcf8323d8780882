//! Control model of a free-look / locked-on camera: key events set movement
//! intents and the target lock, and each frame's step, view and rotation
//! follow from that state.

pub mod control;
pub mod laws;
