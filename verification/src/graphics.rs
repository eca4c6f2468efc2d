//! Rectangles, draw parameters, the clip of a frame and the animation that
//! picks the frame.

pub mod animation;
pub mod clip;
pub mod rectangle;

pub use animation::{Animation, AnimationView};
pub use clip::{checked_combined_clip, combined_clip, DrawParams};
pub use rectangle::Rectangle;
