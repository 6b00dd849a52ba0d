use vstd::prelude::*;

use crate::geometry::{Point, WindowPos};
use crate::material::GridMaterial;

verus! {

/// The state of one pan button in the current frame.
#[derive(Clone, Copy, Debug, PartialEq, Eq, Structural)]
pub struct ButtonState {
    /// The button is down.
    pub pressed: bool,
    /// The button went down in this very frame.
    pub just_pressed: bool,
}

/// The cursor shape to show for a frame.
#[derive(Clone, Copy, Debug, PartialEq, Eq, Structural)]
pub enum CursorIcon {
    Default,
    Grabbing,
}

/// What the engine has to do after a frame of the pan controller.
#[derive(Clone, Copy, Debug, PartialEq, Eq, Structural)]
pub enum PanAction {
    /// Nothing: the cursor is outside the window, or the offset would leave
    /// the range of `i64`. No state was changed.
    Skip,
    /// No drag is in progress: show the default cursor.
    Idle,
    /// A drag is in progress: show the grabbing cursor, project `from` and
    /// `to` into the world, and move the camera and the grid quad alike by
    /// the world delta between them, its `x` negated. Both points are in
    /// upward-`y` pixel space.
    Drag { from: Point, to: Point },
}

/// Remembers where the cursor was in the previous frame.
pub struct PanController {
    /// The last cursor position seen, in window pixels; `None` before the
    /// first frame with the cursor inside the window.
    pub last_pos: Option<WindowPos>,
}

impl ButtonState {
    pub open spec fn drags_spec(self) -> bool {
        self.pressed && !self.just_pressed
    }

    /// Held down since an earlier frame. A button pressed in this frame
    /// does not drag yet, so that a press never makes the view jump.
    pub fn drags(self) -> (r: bool)
        ensures
            r == self.drags_spec(),
    {
        self.pressed && !self.just_pressed
    }
}

/// Whether any of the pan buttons drags in this frame.
pub open spec fn any_drags(buttons: Seq<ButtonState>) -> bool {
    exists|i: int| 0 <= i < buttons.len() && #[trigger] buttons[i].drags_spec()
}

impl PanAction {
    /// The cursor icon to show, or `None` where the frame was skipped and
    /// the icon stays as it was.
    pub fn cursor_icon(&self) -> (r: Option<CursorIcon>)
        ensures
            r == (match *self {
                PanAction::Skip => None,
                PanAction::Idle => Some(CursorIcon::Default),
                PanAction::Drag { .. } => Some(CursorIcon::Grabbing),
            }),
    {
        match self {
            PanAction::Skip => None,
            PanAction::Idle => Some(CursorIcon::Default),
            PanAction::Drag { .. } => Some(CursorIcon::Grabbing),
        }
    }
}

pub open spec fn fits_i64(v: int) -> bool {
    i64::MIN <= v <= i64::MAX
}

/// The new shader offset after a drag from `prev` to `cur`: the pixel delta
/// in upward-`y` space, with its `x` negated and its `y` kept.
pub open spec fn dragged_offset(offset: Point, prev: WindowPos, cur: WindowPos) -> (int, int) {
    let dx = cur.flipped_spec().x - prev.flipped_spec().x;
    let dy = cur.flipped_spec().y - prev.flipped_spec().y;
    (offset.x - dx, offset.y + dy)
}

/// One frame of the pan controller, over the remembered position, the
/// shader offset, the cursor position (if inside the window) and whether a
/// pan button drags. Gives the new remembered position, the new offset and
/// the action for the engine.
pub open spec fn step(
    last: Option<WindowPos>,
    offset: Point,
    cursor: Option<WindowPos>,
    dragging: bool,
) -> (Option<WindowPos>, Point, PanAction) {
    match cursor {
        None => (last, offset, PanAction::Skip),
        Some(cur) => if !dragging {
            (Some(cur), offset, PanAction::Idle)
        } else {
            let prev = match last {
                Some(p) => p,
                None => cur,
            };
            let (nx, ny) = dragged_offset(offset, prev, cur);
            if fits_i64(nx) && fits_i64(ny) {
                (
                    Some(cur),
                    Point { x: nx as i64, y: ny as i64 },
                    PanAction::Drag { from: prev.flipped_spec(), to: cur.flipped_spec() },
                )
            } else {
                (last, offset, PanAction::Skip)
            }
        },
    }
}

/// A sequence of frames, each a cursor position (if inside the window) and
/// whether a pan button drags, run from the given state. Gives the final
/// remembered position, the final offset and the action of each frame.
pub open spec fn run(
    last: Option<WindowPos>,
    offset: Point,
    frames: Seq<(Option<WindowPos>, bool)>,
) -> (Option<WindowPos>, Point, Seq<PanAction>)
    decreases frames.len(),
{
    if frames.len() == 0 {
        (last, offset, Seq::empty())
    } else {
        let s = step(last, offset, frames[0].0, frames[0].1);
        let rest = run(s.0, s.1, frames.drop_first());
        (rest.0, rest.1, seq![s.2].add(rest.2))
    }
}

impl PanController {
    /// A controller that has not seen the cursor yet.
    pub fn new() -> (c: PanController)
        ensures
            c.last_pos is None,
    {
        PanController { last_pos: None }
    }

    /// Whether any of the given pan buttons drags in this frame.
    pub fn dragging(buttons: &[ButtonState]) -> (r: bool)
        ensures
            r == any_drags(buttons@),
    {
        let mut i: usize = 0;
        while i < buttons.len()
            invariant
                0 <= i <= buttons@.len(),
                forall|j: int| 0 <= j < i ==> !(#[trigger] buttons@[j]).drags_spec(),
            decreases buttons@.len() - i,
        {
            if buttons[i].drags() {
                return true;
            }
            i = i + 1;
        }
        false
    }

    /// Runs one frame: updates the remembered cursor position and the
    /// material's offset, and says what the engine has to do with the
    /// cursor icon, the camera and the grid quad.
    pub fn frame(
        &mut self,
        material: &mut GridMaterial,
        cursor: Option<WindowPos>,
        dragging: bool,
    ) -> (r: PanAction)
        ensures
            (final(self).last_pos, final(material).offset, r) == step(
                old(self).last_pos,
                old(material).offset,
                cursor,
                dragging,
            ),
            final(material).grid_color == old(material).grid_color,
            final(material).background_color == old(material).background_color,
            final(material).cell_size == old(material).cell_size,
            final(material).line_width == old(material).line_width,
    {
        let cur = match cursor {
            Some(c) => c,
            None => return PanAction::Skip,
        };
        if !dragging {
            self.last_pos = Some(cur);
            return PanAction::Idle;
        }
        let prev = match self.last_pos {
            Some(p) => p,
            None => cur,
        };
        let to = cur.flipped();
        let from = prev.flipped();
        let dx: i64 = to.x - from.x;
        let dy: i64 = to.y - from.y;
        match (material.offset.x.checked_sub(dx), material.offset.y.checked_add(dy)) {
            (Some(x), Some(y)) => {
                material.offset = Point::new(x, y);
                self.last_pos = Some(cur);
                PanAction::Drag { from, to }
            },
            _ => PanAction::Skip,
        }
    }
}

} // verus!
