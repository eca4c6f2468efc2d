//! What a scene is to the stack that runs it.

use vstd::prelude::*;

verus! {

/// What a scene asks of the stack at the end of one update.
#[derive(Debug)]
pub enum Transition<S> {
    /// Leave the stack as it is.
    Stay,
    /// Put this scene on top. The asking scene stays beneath it, suspended.
    Push(S),
    /// Remove the asking scene. The one beneath it, if any, takes over.
    Pop,
}

/// What the stack tells the host after an update or a draw.
#[derive(Clone, Copy, Debug, PartialEq, Eq, Structural)]
pub enum Signal {
    /// A scene is active: go on.
    Continue,
    /// No scene is left: the application is to shut down.
    Shutdown,
}

/// A unit of application logic that is updated once per tick and drawn once
/// per frame.
///
/// The stack calls these two methods on the scene on top and on no other. It
/// knows nothing of what they do to the scene or to the context; whatever
/// they return is acted on as the stack's own contracts say.
pub trait Scene: Sized {
    /// What the scene reaches the window, the input and the canvas through.
    type Context;

    /// The time since the last frame, as the host measures it.
    type Delta;

    /// What an update or a draw fails with.
    type Error;

    /// Advances the scene by one tick and says what the stack is to do next.
    /// A scene that is to be pushed is built here: where building it fails,
    /// this returns the error and no transition.
    fn update(&mut self, ctx: &mut Self::Context) -> Result<Transition<Self>, Self::Error>;

    /// Draws the scene.
    fn draw(&mut self, ctx: &mut Self::Context, delta_time: Self::Delta) -> Result<
        (),
        Self::Error,
    >;
}

} // verus!
