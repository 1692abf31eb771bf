use vstd::prelude::*;
use crate::geometry::Vec2;
use crate::messages::{SplineToolMessage, ToolCommand};

verus! {

/// Whether the pointer lies outside a viewport of the given size.
pub open spec fn pointer_outside(pointer: Vec2, size: Vec2) -> bool {
    pointer.x < 0 || pointer.x > size.x || pointer.y < 0 || pointer.y > size.y
}

/// How far to shift the view along one axis so that the pointer's coordinate
/// comes back within `[0, size]`.
pub open spec fn pan_shift(p: int, size: int) -> int {
    if p < 0 {
        -p
    } else if p > size {
        size - p
    } else {
        0
    }
}

/// The pair of events that keeps a pan going: one to pan again, one to extend
/// the drawing to the pointer.
pub open spec fn pan_step_commands() -> Seq<ToolCommand> {
    seq![
        ToolCommand::SendToSelf(SplineToolMessage::PointerOutsideViewport),
        ToolCommand::SendToSelf(SplineToolMessage::PointerMove),
    ]
}

/// The commands of one pan step.
pub open spec fn shift_commands(pointer: Vec2, size: Vec2) -> Seq<ToolCommand> {
    seq![
        ToolCommand::PanCanvas {
            dx: pan_shift(pointer.x as int, size.x as int) as i64,
            dy: pan_shift(pointer.y as int, size.y as int) as i64,
        },
    ] + pan_step_commands()
}

/// Pans the view while the pointer is outside it, by re-queuing its own
/// trigger events until it is stopped.
#[derive(Clone, Copy, Debug, PartialEq, Eq, Structural)]
pub struct AutoPanning {
    /// Whether a pan step is scheduled.
    pub active: bool,
}

impl AutoPanning {
    pub fn new() -> (r: AutoPanning)
        ensures
            !r.active,
    {
        AutoPanning { active: false }
    }

    /// Schedules a pan step unless one is already scheduled.
    pub fn start(&mut self, responses: &mut Vec<ToolCommand>)
        ensures
            final(self).active,
            final(responses)@ == old(responses)@ + if old(self).active {
                Seq::<ToolCommand>::empty()
            } else {
                pan_step_commands()
            },
    {
        if !self.active {
            self.active = true;
            responses.push(ToolCommand::SendToSelf(SplineToolMessage::PointerOutsideViewport));
            responses.push(ToolCommand::SendToSelf(SplineToolMessage::PointerMove));
        }
    }

    /// Cancels the scheduled pan step, if any; does nothing otherwise.
    pub fn stop(&mut self, responses: &mut Vec<ToolCommand>)
        ensures
            !final(self).active,
            final(responses)@ == old(responses)@ + if old(self).active {
                seq![ToolCommand::StopAutoPan]
            } else {
                Seq::<ToolCommand>::empty()
            },
    {
        if self.active {
            self.active = false;
            responses.push(ToolCommand::StopAutoPan);
        }
    }

    /// Starts panning when the pointer is outside the viewport, stops it otherwise.
    pub fn setup_by_mouse_position(
        &mut self,
        pointer: Vec2,
        viewport_size: Vec2,
        responses: &mut Vec<ToolCommand>,
    )
        ensures
            final(self).active == pointer_outside(pointer, viewport_size),
            final(responses)@ == old(responses)@ + setup_commands(
                old(self).active,
                pointer,
                viewport_size,
            ),
    {
        if pointer.x < 0 || pointer.x > viewport_size.x || pointer.y < 0 || pointer.y
            > viewport_size.y {
            self.start(responses);
        } else {
            self.stop(responses);
        }
    }

    /// While a step is scheduled, shifts the view toward the pointer and
    /// schedules the next step; does nothing otherwise. Returns the shift.
    pub fn shift_viewport(&self, pointer: Vec2, viewport_size: Vec2, responses: &mut Vec<ToolCommand>) -> (r: Option<(i64, i64)>)
        ensures
            self.active ==> r == Some(
                (
                    pan_shift(pointer.x as int, viewport_size.x as int) as i64,
                    pan_shift(pointer.y as int, viewport_size.y as int) as i64,
                ),
            ),
            self.active ==> final(responses)@ == old(responses)@ + shift_commands(pointer, viewport_size),
            !self.active ==> r is None && final(responses)@ == old(responses)@,
    {
        if !self.active {
            return None;
        }
        let dx: i64 = axis_shift(pointer.x, viewport_size.x);
        let dy: i64 = axis_shift(pointer.y, viewport_size.y);
        responses.push(ToolCommand::PanCanvas { dx, dy });
        responses.push(ToolCommand::SendToSelf(SplineToolMessage::PointerOutsideViewport));
        responses.push(ToolCommand::SendToSelf(SplineToolMessage::PointerMove));
        Some((dx, dy))
    }
}

/// The commands that `setup_by_mouse_position` emits.
pub open spec fn setup_commands(was_active: bool, pointer: Vec2, size: Vec2) -> Seq<ToolCommand> {
    if pointer_outside(pointer, size) {
        if was_active {
            Seq::empty()
        } else {
            pan_step_commands()
        }
    } else if was_active {
        seq![ToolCommand::StopAutoPan]
    } else {
        Seq::empty()
    }
}

fn axis_shift(p: i32, size: i32) -> (r: i64)
    ensures
        r == pan_shift(p as int, size as int),
{
    if p < 0 {
        -(p as i64)
    } else if p > size {
        size as i64 - p as i64
    } else {
        0
    }
}

} // verus!
