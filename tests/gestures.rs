use spline_editor::auto_panning::AutoPanning;
use spline_editor::color::{Color, ToolColorOptions, ToolColorType};
use spline_editor::geometry::Vec2;
use spline_editor::menu_bar_message::MenuBarMessage;
use spline_editor::messages::{
    InputHints, LayerId, PointId, SegmentId, SplineOptionsUpdate, SplineToolMessage, ToolCommand,
    ToolInput,
};
use spline_editor::spline_tool::{
    delete_preview, update_spline, SplineOptions, SplineTool, SplineToolFsmState,
    SplineToolMessageDiscriminant, DEFAULT_STROKE_WIDTH,
};

const LAYER: LayerId = LayerId(100);

fn black() -> Color {
    Color { red: 0, green: 0, blue: 0, alpha: 255 }
}

fn white() -> Color {
    Color { red: 255, green: 255, blue: 255, alpha: 255 }
}

fn input_at(x: i32, y: i32, fresh: u64) -> ToolInput {
    ToolInput {
        pointer: Vec2::new(x, y),
        viewport_size: Vec2::new(800, 600),
        layer_position: Vec2::new(x, y),
        primary_color: black(),
        secondary_color: white(),
        new_layer: LAYER,
        new_point: PointId(fresh),
        new_segment: SegmentId(fresh + 1000),
    }
}

fn send(tool: &mut SplineTool, message: SplineToolMessage, input: &ToolInput) -> Vec<ToolCommand> {
    let mut responses = Vec::new();
    tool.process_message(message, &mut responses, input);
    responses
}

fn drawing_tool() -> SplineTool {
    let mut tool = SplineTool::new();
    send(&mut tool, SplineToolMessage::DragStart, &input_at(10, 10, 1));
    tool
}

#[test]
fn drag_start_enters_drawing_with_layer_and_no_points() {
    let mut tool = SplineTool::new();
    let out = send(&mut tool, SplineToolMessage::DragStart, &input_at(10, 10, 1));
    assert_eq!(tool.fsm_state, SplineToolFsmState::Drawing);
    assert_eq!(tool.tool_data.layer, Some(LAYER));
    assert!(tool.tool_data.points.is_empty());
    assert_eq!(tool.tool_data.weight, DEFAULT_STROKE_WIDTH);
    // Default options: no fill, stroke in the primary working color (black).
    assert_eq!(
        out,
        vec![
            ToolCommand::StartTransaction,
            ToolCommand::DeselectAllLayers,
            ToolCommand::CreateSplineLayer { layer: LAYER },
            ToolCommand::SetStroke { layer: LAYER, color: black(), weight: DEFAULT_STROKE_WIDTH },
            ToolCommand::StartBuffer,
            ToolCommand::UpdateHints(InputHints::CancelExtendOrEnd),
            ToolCommand::SetDefaultCursor,
        ]
    );
}

#[test]
fn pointer_moves_keep_one_preview_and_leave_points() {
    let mut tool = drawing_tool();
    let out = send(&mut tool, SplineToolMessage::PointerMove, &input_at(20, 20, 2));
    assert_eq!(out, vec![ToolCommand::InsertPoint { layer: LAYER, id: PointId(2), position: Vec2::new(20, 20) }]);
    assert_eq!(tool.tool_data.preview_point, Some(PointId(2)));
    assert_eq!(tool.tool_data.preview_segment, None);

    send(&mut tool, SplineToolMessage::DragStop, &input_at(20, 20, 3));
    assert_eq!(tool.tool_data.points.len(), 1);

    let out = send(&mut tool, SplineToolMessage::PointerMove, &input_at(40, 40, 4));
    assert_eq!(
        out,
        vec![
            ToolCommand::InsertPoint { layer: LAYER, id: PointId(4), position: Vec2::new(40, 40) },
            ToolCommand::InsertSegment { layer: LAYER, id: SegmentId(1004), start: PointId(3), end: PointId(4) },
        ]
    );
    let out = send(&mut tool, SplineToolMessage::PointerMove, &input_at(50, 50, 5));
    assert_eq!(
        out,
        vec![
            ToolCommand::RemovePoint { layer: LAYER, id: PointId(4) },
            ToolCommand::RemoveSegment { layer: LAYER, id: SegmentId(1004) },
            ToolCommand::InsertPoint { layer: LAYER, id: PointId(5), position: Vec2::new(50, 50) },
            ToolCommand::InsertSegment { layer: LAYER, id: SegmentId(1005), start: PointId(3), end: PointId(5) },
        ]
    );
    assert_eq!(tool.tool_data.preview_point, Some(PointId(5)));
    assert_eq!(tool.tool_data.preview_segment, Some(SegmentId(1005)));
    assert_eq!(tool.tool_data.points.len(), 1);
}

#[test]
fn drag_stop_commits_one_point_and_clears_preview() {
    let mut tool = drawing_tool();
    send(&mut tool, SplineToolMessage::PointerMove, &input_at(20, 20, 2));
    let out = send(&mut tool, SplineToolMessage::DragStop, &input_at(20, 20, 3));
    assert_eq!(
        out,
        vec![
            ToolCommand::EndTransaction,
            ToolCommand::RemovePoint { layer: LAYER, id: PointId(2) },
            ToolCommand::InsertPoint { layer: LAYER, id: PointId(3), position: Vec2::new(20, 20) },
        ]
    );
    assert_eq!(tool.tool_data.points, vec![(PointId(3), Vec2::new(20, 20))]);
    assert_eq!(tool.tool_data.preview_point, None);
    assert_eq!(tool.tool_data.preview_segment, None);
}

#[test]
fn drag_stop_within_threshold_commits_previous_position() {
    let mut tool = drawing_tool();
    send(&mut tool, SplineToolMessage::DragStop, &input_at(20, 20, 2));
    send(&mut tool, SplineToolMessage::PointerMove, &input_at(50, 50, 3));
    // On the last committed point, within the threshold: the pending position is committed.
    send(&mut tool, SplineToolMessage::DragStop, &input_at(20, 20, 4));
    assert_eq!(tool.tool_data.points[1], (PointId(4), Vec2::new(50, 50)));
    // Exactly the threshold away: the pointer is adopted.
    send(&mut tool, SplineToolMessage::DragStop, &input_at(51, 50, 5));
    assert_eq!(tool.tool_data.points[2], (PointId(5), Vec2::new(51, 50)));
}

#[test]
fn drag_threshold_distance() {
    assert!(Vec2::new(0, 0).reaches_drag_threshold(&Vec2::new(1, 0)));
    assert!(Vec2::new(0, 0).reaches_drag_threshold(&Vec2::new(0, -1)));
    assert!(!Vec2::new(0, 0).reaches_drag_threshold(&Vec2::new(0, 0)));
    assert!(Vec2::new(0, 0).reaches_drag_threshold(&Vec2::new(1, 1)));
    assert!(Vec2::new(i32::MIN, i32::MIN).reaches_drag_threshold(&Vec2::new(i32::MAX, i32::MAX)));
}

#[test]
fn retract_twice_emits_nothing_the_second_time() {
    let mut tool = drawing_tool();
    send(&mut tool, SplineToolMessage::DragStop, &input_at(20, 20, 2));
    send(&mut tool, SplineToolMessage::PointerMove, &input_at(40, 40, 3));
    let mut data = tool.tool_data.clone();
    let mut out = Vec::new();
    delete_preview(&mut data, &mut out);
    assert_eq!(
        out,
        vec![
            ToolCommand::RemovePoint { layer: LAYER, id: PointId(3) },
            ToolCommand::RemoveSegment { layer: LAYER, id: SegmentId(1003) },
        ]
    );
    let mut again = Vec::new();
    delete_preview(&mut data, &mut again);
    assert!(again.is_empty());
    assert_eq!(data.preview_point, None);
    assert_eq!(data.points.len(), 1);
}

#[test]
fn update_spline_without_layer_inserts_nothing() {
    let mut tool = SplineTool::new();
    let mut out = Vec::new();
    update_spline(&mut tool.tool_data, true, PointId(1), SegmentId(2), &mut out);
    assert!(out.is_empty());
    assert_eq!(tool.tool_data.preview_point, None);
}

#[test]
fn scenario_two_points_then_confirm_commits() {
    let mut tool = drawing_tool();
    send(&mut tool, SplineToolMessage::DragStop, &input_at(20, 20, 2));
    send(&mut tool, SplineToolMessage::DragStop, &input_at(60, 20, 3));
    assert_eq!(tool.tool_data.points.len(), 2);
    let out = send(&mut tool, SplineToolMessage::Confirm, &input_at(60, 20, 4));
    assert_eq!(
        out,
        vec![
            ToolCommand::EndTransaction,
            ToolCommand::UpdateHints(InputHints::DrawSpline),
            ToolCommand::SetDefaultCursor,
        ]
    );
    assert_eq!(tool.fsm_state, SplineToolFsmState::Ready);
    assert_eq!(tool.tool_data.layer, None);
    assert_eq!(tool.tool_data.preview_point, None);
    assert_eq!(tool.tool_data.preview_segment, None);
    assert!(tool.tool_data.points.is_empty());
}

#[test]
fn scenario_confirm_with_preview_removes_it_before_commit() {
    let mut tool = drawing_tool();
    send(&mut tool, SplineToolMessage::DragStop, &input_at(20, 20, 2));
    send(&mut tool, SplineToolMessage::DragStop, &input_at(60, 20, 3));
    send(&mut tool, SplineToolMessage::PointerMove, &input_at(90, 20, 4));
    let out = send(&mut tool, SplineToolMessage::Confirm, &input_at(90, 20, 5));
    assert_eq!(
        out,
        vec![
            ToolCommand::RemovePoint { layer: LAYER, id: PointId(4) },
            ToolCommand::RemoveSegment { layer: LAYER, id: SegmentId(1004) },
            ToolCommand::EndTransaction,
            ToolCommand::UpdateHints(InputHints::DrawSpline),
            ToolCommand::SetDefaultCursor,
        ]
    );
}

#[test]
fn scenario_confirm_without_points_aborts() {
    let mut tool = drawing_tool();
    let out = send(&mut tool, SplineToolMessage::Confirm, &input_at(10, 10, 2));
    assert_eq!(out[0], ToolCommand::AbortTransaction);
    assert_eq!(tool.fsm_state, SplineToolFsmState::Ready);
    assert_eq!(tool.tool_data.layer, None);
}

#[test]
fn scenario_one_point_preview_then_abort_discards_all() {
    let mut tool = drawing_tool();
    send(&mut tool, SplineToolMessage::DragStop, &input_at(20, 20, 2));
    send(&mut tool, SplineToolMessage::PointerMove, &input_at(70, 70, 3));
    let out = send(&mut tool, SplineToolMessage::Abort, &input_at(70, 70, 4));
    assert_eq!(
        out,
        vec![
            ToolCommand::AbortTransaction,
            ToolCommand::UpdateHints(InputHints::DrawSpline),
            ToolCommand::SetDefaultCursor,
        ]
    );
    assert_eq!(tool.fsm_state, SplineToolFsmState::Ready);
    assert!(tool.tool_data.points.is_empty());
    assert_eq!(tool.tool_data.preview_point, None);
}

#[test]
fn auto_pan_while_drawing_requeues_pointer_move() {
    let mut tool = drawing_tool();
    let out = send(&mut tool, SplineToolMessage::PointerMove, &input_at(-30, 650, 2));
    assert_eq!(
        &out[1..],
        &[
            ToolCommand::SendToSelf(SplineToolMessage::PointerOutsideViewport),
            ToolCommand::SendToSelf(SplineToolMessage::PointerMove),
        ]
    );
    assert!(tool.tool_data.auto_panning.active);
    let out = send(&mut tool, SplineToolMessage::PointerOutsideViewport, &input_at(-30, 650, 3));
    assert_eq!(
        out,
        vec![
            ToolCommand::PanCanvas { dx: 30, dy: -50 },
            ToolCommand::SendToSelf(SplineToolMessage::PointerOutsideViewport),
            ToolCommand::SendToSelf(SplineToolMessage::PointerMove),
        ]
    );
    // Back inside: the pan stops, and a queued trigger then does nothing.
    let out = send(&mut tool, SplineToolMessage::PointerMove, &input_at(30, 30, 4));
    assert_eq!(out.last(), Some(&ToolCommand::StopAutoPan));
    let out = send(&mut tool, SplineToolMessage::PointerOutsideViewport, &input_at(30, 30, 5));
    assert!(out.is_empty());
    assert_eq!(tool.fsm_state, SplineToolFsmState::Drawing);
}

#[test]
fn leaving_drawing_stops_pan() {
    let mut tool = drawing_tool();
    send(&mut tool, SplineToolMessage::PointerMove, &input_at(900, 10, 2));
    assert!(tool.tool_data.auto_panning.active);
    let out = send(&mut tool, SplineToolMessage::Abort, &input_at(900, 10, 3));
    assert_eq!(
        out,
        vec![
            ToolCommand::AbortTransaction,
            ToolCommand::StopAutoPan,
            ToolCommand::UpdateHints(InputHints::DrawSpline),
            ToolCommand::SetDefaultCursor,
        ]
    );
    assert!(!tool.tool_data.auto_panning.active);
    // A trigger still in the queue finds the tool ready and does nothing.
    let out = send(&mut tool, SplineToolMessage::PointerOutsideViewport, &input_at(900, 10, 4));
    assert!(out.is_empty());
    assert_eq!(tool.fsm_state, SplineToolFsmState::Ready);
    assert!(!tool.tool_data.auto_panning.active);
}

#[test]
fn auto_panning_shift_and_stop() {
    let mut panning = AutoPanning::new();
    let mut out = Vec::new();
    assert_eq!(panning.shift_viewport(Vec2::new(-5, 5), Vec2::new(10, 10), &mut out), None);
    panning.start(&mut out);
    panning.start(&mut out);
    assert_eq!(out.len(), 2);
    out.clear();
    assert_eq!(panning.shift_viewport(Vec2::new(15, -3), Vec2::new(10, 10), &mut out), Some((-5, 3)));
    panning.stop(&mut out);
    panning.stop(&mut out);
    assert_eq!(out.iter().filter(|c| **c == ToolCommand::StopAutoPan).count(), 1);
}

#[test]
fn ignored_events_change_nothing() {
    let mut tool = SplineTool::new();
    for message in [
        SplineToolMessage::DragStop,
        SplineToolMessage::PointerMove,
        SplineToolMessage::Confirm,
        SplineToolMessage::Abort,
        SplineToolMessage::CanvasTransformed,
        SplineToolMessage::Overlays,
        SplineToolMessage::Undo,
    ] {
        assert!(send(&mut tool, message, &input_at(1, 1, 1)).is_empty());
        assert_eq!(tool.fsm_state, SplineToolFsmState::Ready);
    }
    let mut tool = drawing_tool();
    assert!(send(&mut tool, SplineToolMessage::DragStart, &input_at(1, 1, 9)).is_empty());
    assert_eq!(tool.tool_data.layer, Some(LAYER));
}

#[test]
fn working_color_change_sends_options_update() {
    let mut tool = SplineTool::new();
    let mut input = input_at(0, 0, 1);
    let red = Color { red: 255, green: 0, blue: 0, alpha: 255 };
    input.primary_color = red;
    let out = send(&mut tool, SplineToolMessage::WorkingColorChanged, &input);
    let update = SplineToolMessage::UpdateOptions(SplineOptionsUpdate::WorkingColors(Some(red), Some(white())));
    assert_eq!(out, vec![ToolCommand::SendToSelf(update)]);
    let out = send(&mut tool, update, &input);
    assert_eq!(out, vec![ToolCommand::RefreshOptions]);
    assert_eq!(tool.options.stroke.primary_working_color, Some(red));
    assert_eq!(tool.options.fill.primary_working_color, Some(red));
    // The new stroke color is used by the next gesture.
    let out = send(&mut tool, SplineToolMessage::DragStart, &input);
    assert_eq!(out[3], ToolCommand::SetStroke { layer: LAYER, color: red, weight: DEFAULT_STROKE_WIDTH });
}

#[test]
fn option_updates() {
    let mut tool = SplineTool::new();
    let input = input_at(0, 0, 1);
    let blue = Color { red: 0, green: 0, blue: 255, alpha: 255 };
    send(&mut tool, SplineToolMessage::UpdateOptions(SplineOptionsUpdate::LineWeight(7)), &input);
    send(&mut tool, SplineToolMessage::UpdateOptions(SplineOptionsUpdate::FillColor(Some(blue))), &input);
    assert_eq!(tool.options.line_weight, 7);
    assert_eq!(tool.options.fill.color_type, ToolColorType::Custom);
    assert_eq!(tool.options.fill.active_color(), Some(blue));
    send(&mut tool, SplineToolMessage::UpdateOptions(SplineOptionsUpdate::StrokeColorType(ToolColorType::Secondary)), &input);
    assert_eq!(tool.options.stroke.active_color(), Some(white()));
    send(&mut tool, SplineToolMessage::UpdateOptions(SplineOptionsUpdate::StrokeColor(None)), &input);
    assert_eq!(tool.options.stroke.color_type, ToolColorType::Custom);
    assert_eq!(tool.options.stroke.active_color(), None);
    send(&mut tool, SplineToolMessage::UpdateOptions(SplineOptionsUpdate::FillColorType(ToolColorType::NoColor)), &input);
    assert_eq!(tool.options.fill.active_color(), None);
    // With neither fill nor stroke, the layer gets no style.
    let out = send(&mut tool, SplineToolMessage::DragStart, &input);
    assert_eq!(out[3], ToolCommand::StartBuffer);
    assert_eq!(tool.tool_data.weight, 7);
}

#[test]
fn defaults_and_metadata() {
    let options = SplineOptions::default();
    assert_eq!(options.line_weight, 2);
    assert_eq!(options.fill, ToolColorOptions::new_none());
    assert_eq!(options.stroke.color_type, ToolColorType::Primary);
    let tool = SplineTool::default();
    assert_eq!(tool.icon_name(), "VectorSplineTool");
    assert_eq!(tool.tooltip(), "Spline Tool");
    assert_eq!(MenuBarMessage::SendLayout, MenuBarMessage::SendLayout);
    let map = tool.event_to_message_map();
    assert_eq!(map.tool_abort, Some(SplineToolMessage::Abort));
    assert_eq!(map.selection_changed, None);
}

#[test]
fn actions_depend_on_state() {
    let tool = SplineTool::new();
    assert_eq!(
        tool.actions(),
        vec![
            SplineToolMessageDiscriminant::Undo,
            SplineToolMessageDiscriminant::DragStart,
            SplineToolMessageDiscriminant::DragStop,
            SplineToolMessageDiscriminant::Confirm,
            SplineToolMessageDiscriminant::Abort,
        ]
    );
    let tool = drawing_tool();
    assert_eq!(tool.actions()[1], SplineToolMessageDiscriminant::PointerMove);
    assert_eq!(tool.actions().len(), 4);
}
