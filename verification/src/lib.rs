//! A stack-based scene machine and a tick-driven sprite-sheet animation.
//!
//! The crate holds the decisions of a 2D presentation layer and nothing
//! else: which scene is active and what the stack does with the transition
//! that a scene asks for, which frame of a sprite sheet shows after a number
//! of ticks, and which source rectangle a draw call has to use. Windows,
//! canvases and textures stay with the caller, who is handed plain values
//! that say what to do with them.

pub mod graphics;
pub mod scene;
pub mod stack;

pub use graphics::{
    checked_combined_clip, combined_clip, Animation, AnimationView, DrawParams, Rectangle,
};
pub use scene::{Scene, Signal, Transition};
pub use stack::SceneStack;
