use vstd::prelude::*;
use crate::auto_panning::shift_commands;
use crate::messages::{SplineToolMessage, ToolCommand, ToolInput};
use crate::auto_panning::setup_commands;
use crate::spline_tool::{
    Session, SplineOptions, SplineToolFsmState, committed_position, event_ids_fresh,
    lemma_updated_segments_join_distinct_points, retract_commands, retracted,
    segments_join_distinct_points, session_wf, step, updated,
};

verus! {

/// Every event keeps the session invariant: a layer exactly while drawing,
/// an empty session outside a gesture, and a preview segment exactly when
/// there are a preview point and a committed point to join.
pub proof fn lemma_step_keeps_session_wf(
    state: SplineToolFsmState,
    s: Session,
    event: SplineToolMessage,
    input: ToolInput,
    options: SplineOptions,
)
    requires
        session_wf(state, s),
    ensures
        ({
            let (next, after, _) = step(state, s, event, input, options);
            session_wf(next, after)
        }),
{
}

/// With fresh identifiers, every segment that an event inserts joins two
/// distinct points.
pub proof fn lemma_segments_join_distinct_points(
    state: SplineToolFsmState,
    s: Session,
    event: SplineToolMessage,
    input: ToolInput,
    options: SplineOptions,
)
    requires
        session_wf(state, s),
        event_ids_fresh(s, event, input),
    ensures
        segments_join_distinct_points(step(state, s, event, input, options).2),
{
    let commands = step(state, s, event, input, options).2;
    if state == SplineToolFsmState::Drawing && s.layer is Some {
        if event is DragStop {
            let s1 = Session { next_point: committed_position(s, input.layer_position), ..s };
            lemma_updated_segments_join_distinct_points(s1, false, input.new_point, input.new_segment);
            let inner = updated(s1, false, input.new_point, input.new_segment).1;
            assert(commands == seq![ToolCommand::EndTransaction] + inner);
            assert forall|i: int| 0 <= i < commands.len() implies match #[trigger] commands[i] {
                ToolCommand::InsertSegment { start, end, .. } => start != end,
                _ => true,
            } by {
                if i > 0 {
                    assert(commands[i] == inner[i - 1]);
                }
            }
        } else if event is PointerMove {
            let s1 = Session { next_point: input.layer_position, ..s };
            lemma_updated_segments_join_distinct_points(s1, true, input.new_point, input.new_segment);
            let inner = updated(s1, true, input.new_point, input.new_segment).1;
            let pan = setup_commands(s.panning, input.pointer, input.viewport_size);
            assert(commands == inner + pan);
            assert forall|i: int| 0 <= i < commands.len() implies match #[trigger] commands[i] {
                ToolCommand::InsertSegment { start, end, .. } => start != end,
                _ => true,
            } by {
                if i >= inner.len() {
                    assert(commands[i] == pan[i - inner.len()]);
                }
            }
        }
    }
}

/// Starting a gesture from the ready state enters the drawing state with the
/// new layer recorded and no committed point.
pub proof fn lemma_drag_start_begins_gesture(s: Session, input: ToolInput, options: SplineOptions)
    requires
        session_wf(SplineToolFsmState::Ready, s),
    ensures
        ({
            let (state, after, _) = step(
                SplineToolFsmState::Ready,
                s,
                SplineToolMessage::DragStart,
                input,
                options,
            );
            &&& state == SplineToolFsmState::Drawing
            &&& after.layer == Some(input.new_layer)
            &&& after.points.len() == 0
            &&& session_wf(state, after)
        }),
{
}

/// A pointer move while drawing leaves exactly one preview point, at most one
/// preview segment, and the committed points as they were.
pub proof fn lemma_pointer_move_previews(s: Session, input: ToolInput, options: SplineOptions)
    requires
        session_wf(SplineToolFsmState::Drawing, s),
    ensures
        ({
            let (state, after, _) = step(
                SplineToolFsmState::Drawing,
                s,
                SplineToolMessage::PointerMove,
                input,
                options,
            );
            &&& state == SplineToolFsmState::Drawing
            &&& after.preview_point == Some(input.new_point)
            &&& after.preview_segment is None || after.preview_segment == Some(input.new_segment)
            &&& after.points == s.points
            &&& session_wf(state, after)
        }),
{
}

/// The session after a pointer move for each of `inputs` in turn, while drawing.
pub open spec fn after_moves(s: Session, inputs: Seq<ToolInput>, options: SplineOptions) -> Session
    decreases inputs.len(),
{
    if inputs.len() == 0 {
        s
    } else {
        let before = after_moves(s, inputs.drop_last(), options);
        step(
            SplineToolFsmState::Drawing,
            before,
            SplineToolMessage::PointerMove,
            inputs.last(),
            options,
        ).1
    }
}

/// After any nonempty sequence of pointer moves while drawing, exactly one
/// preview point exists, the tool is still drawing, and the committed points
/// are unchanged.
pub proof fn lemma_pointer_moves_preview(s: Session, inputs: Seq<ToolInput>, options: SplineOptions)
    requires
        session_wf(SplineToolFsmState::Drawing, s),
        inputs.len() > 0,
    ensures
        session_wf(SplineToolFsmState::Drawing, after_moves(s, inputs, options)),
        after_moves(s, inputs, options).preview_point == Some(inputs.last().new_point),
        after_moves(s, inputs, options).points == s.points,
    decreases inputs.len(),
{
    if inputs.len() > 1 {
        lemma_pointer_moves_preview(s, inputs.drop_last(), options);
    }
    let before = after_moves(s, inputs.drop_last(), options);
    lemma_pointer_move_previews(before, inputs.last(), options);
}

/// A drag stop while drawing commits exactly one more point and leaves no preview.
pub proof fn lemma_drag_stop_commits(s: Session, input: ToolInput, options: SplineOptions)
    requires
        session_wf(SplineToolFsmState::Drawing, s),
    ensures
        ({
            let (state, after, _) = step(
                SplineToolFsmState::Drawing,
                s,
                SplineToolMessage::DragStop,
                input,
                options,
            );
            &&& state == SplineToolFsmState::Drawing
            &&& after.points.len() == s.points.len() + 1
            &&& after.points.drop_last() == s.points
            &&& after.preview_point is None
            &&& after.preview_segment is None
            &&& session_wf(state, after)
        }),
{
    let after = step(
        SplineToolFsmState::Drawing,
        s,
        SplineToolMessage::DragStop,
        input,
        options,
    ).1;
    assert(after.points.drop_last() =~= s.points);
}

/// Retracting twice in a row emits nothing the second time and changes nothing more.
pub proof fn lemma_retract_idempotent(s: Session)
    ensures
        retract_commands(retracted(s)) == Seq::<ToolCommand>::empty(),
        retracted(retracted(s)) == retracted(s),
{
    assert(retract_commands(retracted(s)) =~= Seq::<ToolCommand>::empty());
}

/// While drawing with a pan scheduled, the pointer leaving the viewport pans
/// the view and queues another such event and a pointer move, leaving the
/// session as it was; outside a gesture it changes nothing but to stop the pan,
/// with a stop signal if one was scheduled.
pub proof fn lemma_pointer_outside_viewport(
    state: SplineToolFsmState,
    s: Session,
    input: ToolInput,
    options: SplineOptions,
)
    requires
        session_wf(state, s),
    ensures
        ({
            let (next, after, commands) = step(
                state,
                s,
                SplineToolMessage::PointerOutsideViewport,
                input,
                options,
            );
            &&& next == state
            &&& state == SplineToolFsmState::Drawing && s.panning ==> {
                &&& after == s
                &&& commands == shift_commands(input.pointer, input.viewport_size)
                &&& commands.last() == ToolCommand::SendToSelf(SplineToolMessage::PointerMove)
            }
            &&& state == SplineToolFsmState::Ready ==> {
                &&& after == Session { panning: false, ..s }
                &&& commands == if s.panning {
                    seq![ToolCommand::StopAutoPan]
                } else {
                    Seq::<ToolCommand>::empty()
                }
            }
        }),
{
}

} // verus!
