//! A sprite-sheet animation that advances by ticks and loops for ever.
//!
//! Every frame is shown for the same number of ticks. Time is counted in
//! ticks, never read from a clock, so a run can be repeated exactly.

use vstd::prelude::*;
use vstd::arithmetic::div_mod::{
    lemma_add_mod_noop_right,
    lemma_fundamental_div_mod,
    lemma_fundamental_div_mod_converse,
    lemma_mod_bound,
};
use crate::graphics::clip::{
    checked_combined_clip,
    clip_fits,
    combined_clip,
    is_combined_clip,
    lemma_combined_clip_is_unique,
    DrawParams,
};
use crate::graphics::rectangle::Rectangle;

verus! {

/// What an `Animation` is, as mathematics: the texture it draws from, its
/// frame catalog, the ticks that each frame lasts, the frame that is showing
/// and the ticks that this frame has been showing for.
pub struct AnimationView<T> {
    pub texture: T,
    pub frames: Seq<Rectangle>,
    pub frame_length: int,
    pub current_frame: int,
    pub timer: int,
}

impl<T> AnimationView<T> {
    /// There is a frame to show, each frame lasts at least one tick, the
    /// current frame is one of the catalog and its time is not yet up.
    pub open spec fn wf(self) -> bool {
        &&& self.frames.len() >= 1
        &&& self.frame_length >= 1
        &&& 0 <= self.current_frame < self.frames.len()
        &&& 0 <= self.timer < self.frame_length
    }

    /// The frame that follows the current one: the next of the catalog, and
    /// the first one after the last. In a valid state this is the current
    /// index plus one, modulo the number of frames
    /// (`lemma_next_frame_is_modular`).
    pub open spec fn next_frame(self) -> int {
        if self.current_frame + 1 == self.frames.len() {
            0
        } else {
            self.current_frame + 1
        }
    }

    /// The state one tick later: the timer has gone up by one, and where it
    /// has reached the frame length, the next frame shows and the timer reads
    /// zero.
    pub open spec fn tick(self) -> Self {
        if self.timer + 1 >= self.frame_length {
            AnimationView { current_frame: self.next_frame(), timer: 0, ..self }
        } else {
            AnimationView { timer: self.timer + 1, ..self }
        }
    }

    /// The state `n` ticks later.
    pub open spec fn ticks(self, n: nat) -> Self
        decreases n,
    {
        if n == 0 {
            self
        } else {
            self.ticks((n - 1) as nat).tick()
        }
    }

    /// The clip `clip` can be laid over the current frame.
    pub open spec fn can_draw(self, clip: Option<Rectangle>) -> bool {
        clip_fits(self.frames, self.current_frame, clip)
    }

    /// `out` is what the texture is drawn with when `params` are asked for in
    /// this state: the clip is the combined clip of the current frame, and
    /// nothing else of `params` has changed.
    pub open spec fn draws<A>(self, params: DrawParams<A>, out: DrawParams<A>) -> bool {
        &&& out.style == params.style
        &&& out.clip matches Some(combined) && is_combined_clip(
            combined,
            self.frames,
            self.current_frame,
            params.clip,
        )
    }

    /// Drawing depends on the state and the parameters alone: as long as no
    /// tick comes between them, two draws with the same parameters hand the
    /// same parameters to the texture.
    pub proof fn lemma_draw_repeats<A>(
        self,
        params: DrawParams<A>,
        first: DrawParams<A>,
        second: DrawParams<A>,
    )
        requires
            self.draws(params, first),
            self.draws(params, second),
        ensures
            first == second,
    {
        lemma_combined_clip_is_unique(
            first.clip->0,
            second.clip->0,
            self.frames,
            self.current_frame,
            params.clip,
        );
    }

    /// The frame moves on by one, modulo the number of frames.
    pub proof fn lemma_next_frame_is_modular(self)
        requires
            self.wf(),
        ensures
            self.next_frame() == (self.current_frame + 1) % (self.frames.len() as int),
    {
        let count = self.frames.len() as int;
        if self.current_frame + 1 == count {
            lemma_fundamental_div_mod_converse(self.current_frame + 1, count, 1, 0);
        } else {
            lemma_fundamental_div_mod_converse(
                self.current_frame + 1,
                count,
                0,
                self.current_frame + 1,
            );
        }
    }

    /// A tick keeps a valid state valid, and changes nothing but the current
    /// frame and its timer.
    pub proof fn lemma_tick_wf(self)
        requires
            self.wf(),
        ensures
            self.tick().wf(),
            self.tick().texture == self.texture,
            self.tick().frames == self.frames,
            self.tick().frame_length == self.frame_length,
    {
    }

    /// Where `n` ticks lead, without stepping through them: the timer counts
    /// modulo the frame length, and each time it wraps the frame moves on by
    /// one, modulo the number of frames.
    pub proof fn lemma_ticks_closed_form(self, n: nat)
        requires
            self.wf(),
        ensures
            self.ticks(n).wf(),
            self.ticks(n) == (AnimationView {
                current_frame: (self.current_frame + (self.timer + n) / self.frame_length) % (
                self.frames.len() as int),
                timer: (self.timer + n) % self.frame_length,
                ..self
            }),
        decreases n,
    {
        let d = self.frame_length;
        let count = self.frames.len() as int;
        if n == 0 {
            lemma_fundamental_div_mod_converse(self.timer, d, 0, self.timer);
            lemma_fundamental_div_mod_converse(self.current_frame, count, 0, self.current_frame);
        } else {
            let before = self.ticks((n - 1) as nat);
            self.lemma_ticks_closed_form((n - 1) as nat);
            before.lemma_next_frame_is_modular();
            let elapsed = self.timer + n - 1;
            lemma_div_mod_successor(elapsed, d);
            lemma_add_mod_noop_right(1, self.current_frame + elapsed / d, count);
        }
    }

    /// While the time of the current frame is not up, the frame stays.
    pub proof fn lemma_frame_holds(self, n: nat)
        requires
            self.wf(),
            self.timer + n < self.frame_length,
        ensures
            self.ticks(n) == (AnimationView { timer: self.timer + n, ..self }),
    {
        self.lemma_ticks_closed_form(n);
        lemma_fundamental_div_mod_converse(self.timer + n, self.frame_length, 0, self.timer + n);
        lemma_fundamental_div_mod_converse(
            self.current_frame,
            self.frames.len() as int,
            0,
            self.current_frame,
        );
    }

    /// After as many ticks as one frame lasts, the animation shows the next
    /// frame, which is the current index plus one, modulo the number of
    /// frames, and the timer reads what it read before.
    pub proof fn lemma_frame_advances(self)
        requires
            self.wf(),
        ensures
            self.ticks(self.frame_length as nat) == (AnimationView {
                current_frame: (self.current_frame + 1) % (self.frames.len() as int),
                ..self
            }),
            self.ticks(self.frame_length as nat).current_frame == self.next_frame(),
    {
        let d = self.frame_length;
        self.lemma_next_frame_is_modular();
        self.lemma_ticks_closed_form(d as nat);
        assert(self.timer + d == 1 * d + self.timer) by (nonlinear_arith);
        lemma_fundamental_div_mod_converse(self.timer + d, d, 1, self.timer);
    }

    /// After as many ticks as all frames together last, the animation is back
    /// in the state it started from.
    pub proof fn lemma_playback_loops(self)
        requires
            self.wf(),
        ensures
            self.frame_length * self.frames.len() >= 0,
            self.ticks((self.frame_length * self.frames.len()) as nat) == self,
    {
        let d = self.frame_length;
        let count = self.frames.len() as int;
        assert(d * count >= 0 && self.timer + d * count == count * d + self.timer)
            by (nonlinear_arith)
            requires
                d >= 1,
                count >= 1,
        ;
        self.lemma_ticks_closed_form((d * count) as nat);
        lemma_fundamental_div_mod_converse(self.timer + d * count, d, count, self.timer);
        assert(self.current_frame + count == 1 * count + self.current_frame) by (nonlinear_arith);
        lemma_fundamental_div_mod_converse(
            self.current_frame + count,
            count,
            1,
            self.current_frame,
        );
    }
}

/// Quotient and remainder of `a + 1` by `d`, from those of `a`.
proof fn lemma_div_mod_successor(a: int, d: int)
    requires
        d >= 1,
    ensures
        0 <= a % d < d,
        a % d + 1 >= d ==> (a + 1) / d == a / d + 1 && (a + 1) % d == 0,
        a % d + 1 < d ==> (a + 1) / d == a / d && (a + 1) % d == a % d + 1,
{
    let q = a / d;
    let r = a % d;
    lemma_fundamental_div_mod(a, d);
    lemma_mod_bound(a, d);
    if r + 1 >= d {
        assert(a + 1 == (q + 1) * d + 0) by (nonlinear_arith)
            requires
                a == d * q + r,
                r + 1 == d,
        ;
        lemma_fundamental_div_mod_converse(a + 1, d, q + 1, 0);
    } else {
        assert(a + 1 == q * d + (r + 1)) by (nonlinear_arith)
            requires
                a == d * q + r,
        ;
        lemma_fundamental_div_mod_converse(a + 1, d, q, r + 1);
    }
}

/// A looping animation over the frames of one texture.
///
/// `T` is the handle of the texture. The animation owns it and hands it out
/// for drawing; nothing here looks into it.
///
/// An animation is valid at all times: `wf` holds of its view from `new` on,
/// and no method can break it. The methods that read the playback state say
/// so again in their `ensures`, for callers that need the bounds.
pub struct Animation<T> {
    texture: T,
    frames: Vec<Rectangle>,
    frame_length: i32,
    current_frame: usize,
    timer: i32,
}

impl<T> View for Animation<T> {
    type V = AnimationView<T>;

    closed spec fn view(&self) -> AnimationView<T> {
        AnimationView {
            texture: self.texture,
            frames: self.frames@,
            frame_length: self.frame_length as int,
            current_frame: self.current_frame as int,
            timer: self.timer as int,
        }
    }
}

impl<T> Animation<T> {
    #[verifier::type_invariant]
    spec fn valid(&self) -> bool {
        self@.wf()
    }

    /// An animation at its first frame, with no time spent on it yet.
    pub fn new(texture: T, frames: Vec<Rectangle>, frame_length: i32) -> (animation: Animation<T>)
        requires
            frames@.len() >= 1,
            frame_length >= 1,
        ensures
            animation@.wf(),
            animation@ == (AnimationView {
                texture,
                frames: frames@,
                frame_length: frame_length as int,
                current_frame: 0,
                timer: 0,
            }),
    {
        Animation { texture, frames, frame_length, current_frame: 0, timer: 0 }
    }

    /// Lets one tick pass: the timer goes up by one, and where the time of
    /// the current frame is up, the next frame shows and the timer starts at
    /// zero. After the last frame comes the first.
    pub fn tick(&mut self)
        ensures
            old(self)@.wf(),
            final(self)@.wf(),
            final(self)@ == old(self)@.tick(),
    {
        proof {
            use_type_invariant(&*self);
            self@.lemma_next_frame_is_modular();
        }
        let count: usize = self.frames.len();
        if self.timer + 1 >= self.frame_length {
            self.current_frame = (self.current_frame + 1) % count;
            self.timer = 0;
        } else {
            self.timer = self.timer + 1;
        }
    }

    /// The index of the frame that is showing.
    pub fn current_frame(&self) -> (index: usize)
        ensures
            self@.wf(),
            index == self@.current_frame,
    {
        proof {
            use_type_invariant(self);
        }
        self.current_frame
    }

    /// The ticks that the current frame has been showing for.
    pub fn timer(&self) -> (ticks: i32)
        ensures
            self@.wf(),
            ticks == self@.timer,
    {
        proof {
            use_type_invariant(self);
        }
        self.timer
    }

    /// The ticks that each frame lasts.
    pub fn frame_length(&self) -> (ticks: i32)
        ensures
            self@.wf(),
            ticks == self@.frame_length,
    {
        proof {
            use_type_invariant(self);
        }
        self.frame_length
    }

    /// The frame catalog.
    pub fn frames(&self) -> (frames: &Vec<Rectangle>)
        ensures
            self@.wf(),
            frames@ == self@.frames,
    {
        proof {
            use_type_invariant(self);
        }
        &self.frames
    }

    /// The texture that the frames are cut from.
    pub fn texture(&self) -> (texture: &T)
        ensures
            *texture == self@.texture,
    {
        &self.texture
    }

    /// The parameters to draw the texture with, so that the current frame
    /// shows: `params` with its clip replaced by the combined clip of the
    /// current frame, and all else as it was. The animation itself is only
    /// read, so the playback state is after the call what it was before.
    pub fn draw_params<A>(&self, params: DrawParams<A>) -> (out: DrawParams<A>)
        requires
            self@.can_draw(params.clip),
        ensures
            self@.wf(),
            self@.draws(params, out),
    {
        proof {
            use_type_invariant(self);
        }
        let combined = combined_clip(&self.frames, self.current_frame, params.clip);
        DrawParams { style: params.style, clip: Some(combined) }
    }

    /// As `draw_params`, for a caller that does not know whether the clip in
    /// `params` can be added to the current frame: `None` exactly where it
    /// cannot.
    pub fn checked_draw_params<A>(&self, params: DrawParams<A>) -> (r: Option<DrawParams<A>>)
        ensures
            self@.wf(),
            match r {
                Some(out) => self@.can_draw(params.clip) && self@.draws(params, out),
                None => !self@.can_draw(params.clip),
            },
    {
        proof {
            use_type_invariant(self);
        }
        match checked_combined_clip(&self.frames, self.current_frame, params.clip) {
            Some(combined) => Some(DrawParams { style: params.style, clip: Some(combined) }),
            None => None,
        }
    }
}

} // verus!
