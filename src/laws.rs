use vstd::prelude::*;

use crate::geometry::{Point, WindowPos};
use crate::pan::{dragged_offset, fits_i64, run, step, PanAction};

verus! {

/// While no pan button drags, any number of frames leaves the shader offset
/// as it was and asks for no camera or grid movement.
pub proof fn lemma_released_frames_change_nothing(
    last: Option<WindowPos>,
    offset: Point,
    frames: Seq<(Option<WindowPos>, bool)>,
)
    requires
        forall|i: int| 0 <= i < frames.len() ==> !(#[trigger] frames[i]).1,
    ensures
        run(last, offset, frames).1 == offset,
        run(last, offset, frames).2.len() == frames.len(),
        forall|i: int|
            0 <= i < frames.len() ==> !(#[trigger] run(last, offset, frames).2[i] is Drag),
    decreases frames.len(),
{
    if frames.len() > 0 {
        let s = step(last, offset, frames[0].0, frames[0].1);
        let tail = frames.drop_first();
        assert forall|i: int| 0 <= i < tail.len() implies !(#[trigger] tail[i]).1 by {
            assert(tail[i] == frames[i + 1]);
        }
        lemma_released_frames_change_nothing(s.0, s.1, tail);
        let acts = run(last, offset, frames).2;
        let rest = run(s.0, s.1, tail).2;
        assert(acts == seq![s.2].add(rest));
        assert forall|i: int| 0 <= i < frames.len() implies !(#[trigger] acts[i] is Drag) by {
            if i > 0 {
                assert(acts[i] == rest[i - 1]);
            }
        }
    }
}

/// A frame that continues a drag from `prev` to `cur` moves the shader
/// offset by exactly the pixel delta (dx, dy), in upward-`y` space, with its
/// `x` negated: by (-dx, dy).
pub proof fn lemma_drag_moves_offset_by_pixel_delta(offset: Point, prev: WindowPos, cur: WindowPos)
    requires
        fits_i64(offset.x - (cur.x - prev.x)),
        fits_i64(offset.y + (prev.y - cur.y)),
    ensures
        ({
            let s = step(Some(prev), offset, Some(cur), true);
            let dx = cur.flipped_spec().x - prev.flipped_spec().x;
            let dy = cur.flipped_spec().y - prev.flipped_spec().y;
            &&& s.1.x == offset.x - dx
            &&& s.1.y == offset.y + dy
            &&& s.0 == Some(cur)
            &&& s.2 == PanAction::Drag { from: prev.flipped_spec(), to: cur.flipped_spec() }
        }),
{
}

/// Releasing the pan buttons re-arms the tracker: the next drag frame counts
/// from where the cursor was in the released frame, whatever came before;
/// if the cursor has not moved since, that frame changes no offset and asks
/// for a move from a point to itself.
pub proof fn lemma_release_rearms(
    last: Option<WindowPos>,
    offset: Point,
    released_at: WindowPos,
    cur: WindowPos,
)
    ensures
        ({
            let s1 = step(last, offset, Some(released_at), false);
            let s2 = step(s1.0, s1.1, Some(cur), true);
            let (nx, ny) = dragged_offset(offset, released_at, cur);
            &&& s1.1 == offset
            &&& s1.2 == PanAction::Idle
            &&& fits_i64(nx) && fits_i64(ny) ==> s2.1 == (Point { x: nx as i64, y: ny as i64 })
                && s2.2 == (PanAction::Drag {
                from: released_at.flipped_spec(),
                to: cur.flipped_spec(),
            })
            &&& cur == released_at ==> s2.1 == offset && s2.2 == (PanAction::Drag {
                from: cur.flipped_spec(),
                to: cur.flipped_spec(),
            })
        }),
{
}

} // verus!
