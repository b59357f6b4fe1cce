//! The viewport controller: from pointer and key state to adjustments of the
//! sampled region.
//!
//! The controller decides what changes and by how many pixels. Carrying an
//! adjustment out is arithmetic on single-precision coordinates and is left
//! to the caller.

use vstd::prelude::*;

verus! {

/// Whether a drag is under way, and where it began.
#[derive(Clone, Copy, Debug, PartialEq, Eq)]
pub enum DragState {
    /// The button is up.
    Idle,
    /// The button went down over pixel `(x0, y0)` and has not come up since.
    Dragging { x0: u32, y0: u32 },
}

/// What the window reports for one frame.
#[derive(Clone, Copy, Debug, PartialEq, Eq)]
pub struct FrameInput {
    /// Pixel under the pointer, if the pointer is inside the window.
    pub pointer: Option<(u32, u32)>,
    /// The left button is held.
    pub button_down: bool,
    /// The zoom-in key is held.
    pub zoom_in: bool,
    /// The zoom-out key is held.
    pub zoom_out: bool,
    /// The move-up key is held.
    pub move_up: bool,
    /// The move-down key is held.
    pub move_down: bool,
    /// The move-left key is held.
    pub move_left: bool,
    /// The move-right key is held.
    pub move_right: bool,
}

/// Binary32 encoding of 0.9, the factor by which one zoom step changes the
/// side length of the region.
pub const ZOOM_FACTOR: u32 = 0x3F66_6666;

/// Binary32 encoding of 0.1, the part of the side length by which one move
/// step shifts the region.
pub const MOVE_FRACTION: u32 = 0x3DCC_CCCD;

/// One change to the sampled region. With `size` the side length of the
/// region before the change, N the number of pixels along a side, `zoom`
/// the number that `ZOOM_FACTOR` encodes and `step` the one that
/// `MOVE_FRACTION` encodes:
#[derive(Clone, Copy, Debug, PartialEq, Eq)]
pub enum Adjustment {
    /// `left` decreases by `dx * size / N` and `bottom` by `dy * size / N`:
    /// the region moves against the pointer.
    Pan { dx: i64, dy: i64 },
    /// `size` is multiplied by `zoom`.
    ZoomIn,
    /// `size` is divided by `zoom`.
    ZoomOut,
    /// `bottom` decreases by `size * step`.
    MoveUp,
    /// `bottom` increases by `size * step`.
    MoveDown,
    /// `left` decreases by `size * step`.
    MoveLeft,
    /// `left` increases by `size * step`.
    MoveRight,
}

/// Column of the pixel under the pointer.
pub open spec fn pointer_x(input: FrameInput) -> u32 {
    match input.pointer {
        Some(at) => at.0,
        None => 0,
    }
}

/// Row of the pixel under the pointer.
pub open spec fn pointer_y(input: FrameInput) -> u32 {
    match input.pointer {
        Some(at) => at.1,
        None => 0,
    }
}

/// The button goes down with the pointer inside the window while no drag is
/// under way.
pub open spec fn is_press(drag: DragState, input: FrameInput) -> bool {
    drag is Idle && input.pointer is Some && input.button_down
}

/// The button is found up with the pointer inside the window while a drag
/// is under way.
pub open spec fn is_release(drag: DragState, input: FrameInput) -> bool {
    drag is Dragging && input.pointer is Some && !input.button_down
}

/// No key that changes the region is held.
pub open spec fn keys_idle(input: FrameInput) -> bool {
    !input.zoom_in && !input.zoom_out && !input.move_up && !input.move_down && !input.move_left
        && !input.move_right
}

/// The drag state after a frame. A press records where the pointer is; a
/// release forgets it. While the pointer is outside the window nothing
/// changes.
pub open spec fn drag_after(drag: DragState, input: FrameInput) -> DragState {
    if is_press(drag, input) {
        DragState::Dragging { x0: pointer_x(input), y0: pointer_y(input) }
    } else if is_release(drag, input) {
        DragState::Idle
    } else {
        drag
    }
}

/// The pan that a release calls for: the pixel distance from where the
/// button went down to where it came up.
pub open spec fn pan_for(drag: DragState, input: FrameInput) -> Seq<Adjustment> {
    if is_release(drag, input) {
        seq![
            Adjustment::Pan {
                dx: (pointer_x(input) - drag->x0) as i64,
                dy: (pointer_y(input) - drag->y0) as i64,
            },
        ]
    } else {
        seq![]
    }
}

/// `adjustment` if `held`, else nothing.
pub open spec fn when(held: bool, adjustment: Adjustment) -> Seq<Adjustment> {
    if held {
        seq![adjustment]
    } else {
        seq![]
    }
}

/// Everything one frame calls for, in the order in which it is applied:
/// first the pan, then what the held keys ask for: zoom in, zoom out, up,
/// down, left, right.
pub open spec fn adjustments_for(drag: DragState, input: FrameInput) -> Seq<Adjustment> {
    pan_for(drag, input) + when(input.zoom_in, Adjustment::ZoomIn) + when(
        input.zoom_out,
        Adjustment::ZoomOut,
    ) + when(input.move_up, Adjustment::MoveUp) + when(input.move_down, Adjustment::MoveDown)
        + when(input.move_left, Adjustment::MoveLeft) + when(
        input.move_right,
        Adjustment::MoveRight,
    )
}

/// A frame changes nothing exactly when no key is held and no drag ends.
pub proof fn lemma_nothing_fires_iff_quiet(drag: DragState, input: FrameInput)
    ensures
        adjustments_for(drag, input).len() == 0 <==> keys_idle(input) && !is_release(drag, input),
        adjustments_for(drag, input).len() <= 7,
{
}

/// A drag from `(x0, y0)` to `(x1, y1)`, with no key held, pans by exactly
/// the pixel distance between the two and does nothing else; afterwards no
/// drag is under way.
pub proof fn lemma_drag_pans_by_distance(x0: u32, y0: u32, x1: u32, y1: u32, input: FrameInput)
    requires
        input.pointer == Some((x1, y1)),
        !input.button_down,
        keys_idle(input),
    ensures
        adjustments_for(DragState::Dragging { x0, y0 }, input).len() == 1,
        adjustments_for(DragState::Dragging { x0, y0 }, input)[0] matches Adjustment::Pan { dx, dy }
            && dx == x1 - x0 && dy == y1 - y0,
        drag_after(DragState::Dragging { x0, y0 }, input) == DragState::Idle,
{
    let drag = DragState::Dragging { x0, y0 };
    let pan = Adjustment::Pan { dx: (x1 - x0) as i64, dy: (y1 - y0) as i64 };
    assert(adjustments_for(drag, input) =~= seq![pan]);
}

/// One if `held`, else zero.
pub open spec fn count(held: bool) -> nat {
    if held {
        1
    } else {
        0
    }
}

/// Number of things that happen in a frame: the end of a drag and each held
/// key count once.
pub open spec fn events_in(drag: DragState, input: FrameInput) -> nat {
    count(is_release(drag, input)) + count(input.zoom_in) + count(input.zoom_out) + count(
        input.move_up,
    ) + count(input.move_down) + count(input.move_left) + count(input.move_right)
}

/// Every event of a frame calls for exactly one adjustment.
pub proof fn lemma_each_event_fires_once(drag: DragState, input: FrameInput)
    ensures
        adjustments_for(drag, input).len() == events_in(drag, input),
{
}

/// Holding the move-right key alone, with no drag ending, calls for one
/// move to the right and nothing else.
pub proof fn lemma_move_right_alone(drag: DragState, input: FrameInput)
    requires
        !is_release(drag, input),
        input.move_right,
        !input.zoom_in && !input.zoom_out && !input.move_up && !input.move_down
            && !input.move_left,
    ensures
        adjustments_for(drag, input) == seq![Adjustment::MoveRight],
{
    assert(adjustments_for(drag, input) =~= seq![Adjustment::MoveRight]);
}

/// Appends `adjustment` to `list` if `held`.
fn push_when(list: &mut Vec<Adjustment>, held: bool, adjustment: Adjustment)
    ensures
        final(list)@ == old(list)@ + when(held, adjustment),
{
    if held {
        list.push(adjustment);
    }
    assert(list@ =~= old(list)@ + when(held, adjustment));
}

/// The input-to-adjustment state machine, with the flag that says whether
/// the field has to be computed again.
#[derive(Clone, Copy, Debug, PartialEq, Eq)]
pub struct ViewportController {
    drag: DragState,
    needs_update: bool,
}

impl ViewportController {
    /// The drag state.
    pub closed spec fn spec_drag(&self) -> DragState {
        self.drag
    }

    /// The region has changed since the field was last computed.
    pub closed spec fn spec_needs_update(&self) -> bool {
        self.needs_update
    }

    /// A controller with no drag under way. Nothing has been computed yet,
    /// so the field needs computing.
    pub fn new() -> (controller: ViewportController)
        ensures
            controller.spec_drag() == DragState::Idle,
            controller.spec_needs_update(),
    {
        ViewportController { drag: DragState::Idle, needs_update: true }
    }

    #[verifier::when_used_as_spec(spec_drag)]
    pub fn drag(&self) -> (drag: DragState)
        ensures
            drag == self.spec_drag(),
    {
        self.drag
    }

    #[verifier::when_used_as_spec(spec_needs_update)]
    pub fn needs_update(&self) -> (needed: bool)
        ensures
            needed == self.spec_needs_update(),
    {
        self.needs_update
    }

    /// Records that the field has been computed for the region as it is.
    pub fn mark_computed(&mut self)
        ensures
            final(self).spec_drag() == old(self).spec_drag(),
            !final(self).spec_needs_update(),
    {
        self.needs_update = false;
    }

    /// Takes one frame's input: follows the drag, and returns the
    /// adjustments the frame calls for, in the order in which they are to
    /// be applied. The field needs computing again if there is any.
    pub fn handle(&mut self, input: &FrameInput) -> (adjustments: Vec<Adjustment>)
        ensures
            adjustments@ == adjustments_for(old(self).spec_drag(), *input),
            final(self).spec_drag() == drag_after(old(self).spec_drag(), *input),
            final(self).spec_needs_update() == (old(self).spec_needs_update() || adjustments@.len()
                > 0),
    {
        let ghost before = self.drag;
        let mut adjustments: Vec<Adjustment> = Vec::new();
        match input.pointer {
            Some((x, y)) => {
                match self.drag {
                    DragState::Idle => {
                        if input.button_down {
                            self.drag = DragState::Dragging { x0: x, y0: y };
                        }
                    },
                    DragState::Dragging { x0, y0 } => {
                        if !input.button_down {
                            self.drag = DragState::Idle;
                            adjustments.push(
                                Adjustment::Pan {
                                    dx: x as i64 - x0 as i64,
                                    dy: y as i64 - y0 as i64,
                                },
                            );
                        }
                    },
                }
            },
            None => {},
        }
        assert(adjustments@ =~= pan_for(before, *input));
        push_when(&mut adjustments, input.zoom_in, Adjustment::ZoomIn);
        push_when(&mut adjustments, input.zoom_out, Adjustment::ZoomOut);
        push_when(&mut adjustments, input.move_up, Adjustment::MoveUp);
        push_when(&mut adjustments, input.move_down, Adjustment::MoveDown);
        push_when(&mut adjustments, input.move_left, Adjustment::MoveLeft);
        push_when(&mut adjustments, input.move_right, Adjustment::MoveRight);
        if adjustments.len() > 0 {
            self.needs_update = true;
        }
        adjustments
    }
}

} // verus!
