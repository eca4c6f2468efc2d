//! The scene stack: the last scene is the active one.

use vstd::prelude::*;
use crate::scene::{Scene, Signal, Transition};

verus! {

/// The stack that `transition` turns `scenes` into.
pub open spec fn apply_transition<S>(scenes: Seq<S>, transition: Transition<S>) -> Seq<S> {
    match transition {
        Transition::Stay => scenes,
        Transition::Push(scene) => scenes.push(scene),
        Transition::Pop => if scenes.len() > 0 {
            scenes.drop_last()
        } else {
            scenes
        },
    }
}

/// What a stack in this state tells the host: to shut down where it is empty,
/// to go on where it is not.
pub open spec fn signal_of<S>(scenes: Seq<S>) -> Signal {
    if scenes.len() == 0 {
        Signal::Shutdown
    } else {
        Signal::Continue
    }
}

/// `after` holds the scenes of `before` that lie beneath its top, unchanged
/// and in their places.
pub open spec fn keeps_suspended<S>(before: Seq<S>, after: Seq<S>) -> bool {
    &&& after.len() >= before.len() - 1
    &&& forall|i: int| 0 <= i < before.len() - 1 ==> after[i] == before[i]
}

/// An ordered collection of scenes of which the last is active. An empty
/// stack is a valid end state: no scene is active.
pub struct SceneStack<S> {
    scenes: Vec<S>,
}

impl<S> View for SceneStack<S> {
    type V = Seq<S>;

    closed spec fn view(&self) -> Seq<S> {
        self.scenes@
    }
}

impl<S> SceneStack<S> {
    /// A stack with one scene, which is active.
    pub fn new(initial: S) -> (stack: SceneStack<S>)
        ensures
            stack@ == seq![initial],
    {
        let mut scenes: Vec<S> = Vec::new();
        scenes.push(initial);
        assert(scenes@ =~= seq![initial]);
        SceneStack { scenes }
    }

    /// The number of scenes, suspended ones included.
    pub fn len(&self) -> (n: usize)
        ensures
            n == self@.len(),
    {
        self.scenes.len()
    }

    /// No scene is left.
    pub fn is_empty(&self) -> (empty: bool)
        ensures
            empty == (self@.len() == 0),
    {
        self.scenes.len() == 0
    }

    /// The active scene: the last one, where there is any.
    pub fn active(&self) -> (scene: Option<&S>)
        ensures
            match scene {
                Some(top) => self@.len() > 0 && *top == self@.last(),
                None => self@.len() == 0,
            },
    {
        let n: usize = self.scenes.len();
        if n == 0 {
            None
        } else {
            Some(&self.scenes[n - 1])
        }
    }

    /// Does to the stack what `transition` asks, and says whether a scene is
    /// left to run.
    pub fn apply(&mut self, transition: Transition<S>) -> (signal: Signal)
        ensures
            final(self)@ == apply_transition(old(self)@, transition),
            signal == signal_of(final(self)@),
    {
        match transition {
            Transition::Stay => {},
            Transition::Push(scene) => {
                self.scenes.push(scene);
            },
            Transition::Pop => {
                let _ = self.scenes.pop();
            },
        }
        if self.scenes.len() == 0 {
            Signal::Shutdown
        } else {
            Signal::Continue
        }
    }

    /// Acts on what the active scene's update returned. An error leaves the
    /// stack as it was and is handed on unchanged; a transition is applied.
    pub fn resolve<E>(&mut self, outcome: Result<Transition<S>, E>) -> (r: Result<Signal, E>)
        ensures
            match outcome {
                Ok(transition) => {
                    &&& final(self)@ == apply_transition(old(self)@, transition)
                    &&& r == Ok::<Signal, E>(signal_of(final(self)@))
                },
                Err(error) => {
                    &&& final(self)@ == old(self)@
                    &&& r == Err::<Signal, E>(error)
                },
            },
    {
        match outcome {
            Ok(transition) => Ok(self.apply(transition)),
            Err(error) => Err(error),
        }
    }
}

impl<S: Scene> SceneStack<S> {
    /// One tick: updates the active scene and acts on what it returns.
    ///
    /// With no scene on the stack nothing is called and the host is told to
    /// shut down, as often as this is asked. Otherwise the scenes beneath the
    /// top are left alone. Where the update fails, the error comes back and
    /// no scene has been added or removed. Where it succeeds, the stack has
    /// lost its top, gained one scene above it or kept its size, and the
    /// signal says whether a scene is left.
    pub fn update(&mut self, ctx: &mut S::Context) -> (r: Result<Signal, S::Error>)
        ensures
            old(self)@.len() == 0 ==> {
                &&& final(self)@ == old(self)@
                &&& *final(ctx) == *old(ctx)
                &&& r == Ok::<Signal, S::Error>(Signal::Shutdown)
            },
            keeps_suspended(old(self)@, final(self)@),
            final(self)@.len() <= old(self)@.len() + 1,
            r is Err ==> final(self)@.len() == old(self)@.len(),
            r matches Ok(signal) ==> signal == signal_of(final(self)@),
    {
        let n: usize = self.scenes.len();
        if n == 0 {
            return Ok(Signal::Shutdown);
        }
        let outcome = self.scenes[n - 1].update(ctx);
        self.resolve(outcome)
    }

    /// One frame: draws the active scene.
    ///
    /// With no scene on the stack nothing is called and the host is told to
    /// shut down. Otherwise the active scene is drawn and what it returns
    /// decides between `Continue` and its error. No scene is added or
    /// removed, and the scenes beneath the top are left alone.
    pub fn draw(&mut self, ctx: &mut S::Context, delta_time: S::Delta) -> (r: Result<
        Signal,
        S::Error,
    >)
        ensures
            old(self)@.len() == 0 ==> {
                &&& final(self)@ == old(self)@
                &&& *final(ctx) == *old(ctx)
                &&& r == Ok::<Signal, S::Error>(Signal::Shutdown)
            },
            keeps_suspended(old(self)@, final(self)@),
            final(self)@.len() == old(self)@.len(),
            r matches Ok(signal) ==> signal == signal_of(final(self)@),
    {
        let n: usize = self.scenes.len();
        if n == 0 {
            return Ok(Signal::Shutdown);
        }
        match self.scenes[n - 1].draw(ctx, delta_time) {
            Ok(()) => Ok(Signal::Continue),
            Err(error) => Err(error),
        }
    }
}

} // verus!
