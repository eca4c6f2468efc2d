//! The clip of a sprite-sheet frame: which source rectangle a draw call uses.
//!
//! A clip that the caller supplies is read relative to the selected frame and
//! is added to it field by field. It is not intersected with the frame.

use vstd::prelude::*;
use crate::graphics::rectangle::Rectangle;

verus! {

/// What a draw call is given. `style` holds whatever places and tints the
/// image (position, origin, scale, rotation, colour); this crate carries it
/// along and never reads it. `clip` restricts the source region.
#[derive(Debug)]
pub struct DrawParams<A> {
    pub style: A,
    pub clip: Option<Rectangle>,
}

/// The caller's clip, where there is one, can be added to frame `index`
/// without leaving the range of the fields.
pub open spec fn clip_fits(frames: Seq<Rectangle>, index: int, clip: Option<Rectangle>) -> bool {
    clip matches Some(c) ==> c.sum_fits(frames[index])
}

/// `combined` is the clip to draw frame `index` with: the frame itself where
/// the caller gave no clip, else the caller's clip plus the frame.
pub open spec fn is_combined_clip(
    combined: Rectangle,
    frames: Seq<Rectangle>,
    index: int,
    clip: Option<Rectangle>,
) -> bool {
    match clip {
        None => combined == frames[index],
        Some(c) => combined.is_sum_of(c, frames[index]),
    }
}

/// Catalog, index and caller's clip decide the combined clip: there is one.
pub proof fn lemma_combined_clip_is_unique(
    first: Rectangle,
    second: Rectangle,
    frames: Seq<Rectangle>,
    index: int,
    clip: Option<Rectangle>,
)
    requires
        is_combined_clip(first, frames, index, clip),
        is_combined_clip(second, frames, index, clip),
    ensures
        first == second,
{
}

/// Selects frame `index` of the catalog and lays the caller's clip over it.
pub fn combined_clip(frames: &Vec<Rectangle>, index: usize, clip: Option<Rectangle>) -> (combined:
    Rectangle)
    requires
        index < frames@.len(),
        clip_fits(frames@, index as int, clip),
    ensures
        is_combined_clip(combined, frames@, index as int, clip),
{
    let frame = frames[index];
    match clip {
        None => frame,
        Some(c) => Rectangle {
            x: c.x + frame.x,
            y: c.y + frame.y,
            width: c.width + frame.width,
            height: c.height + frame.height,
        },
    }
}

/// As `combined_clip`, for a caller that does not know whether the sum fits:
/// `None` exactly where it does not.
pub fn checked_combined_clip(frames: &Vec<Rectangle>, index: usize, clip: Option<Rectangle>) -> (r:
    Option<Rectangle>)
    requires
        index < frames@.len(),
    ensures
        match r {
            Some(combined) => clip_fits(frames@, index as int, clip) && is_combined_clip(
                combined,
                frames@,
                index as int,
                clip,
            ),
            None => !clip_fits(frames@, index as int, clip),
        },
{
    let frame = frames[index];
    match clip {
        None => Some(frame),
        Some(c) => c.checked_add(frame),
    }
}

} // verus!
