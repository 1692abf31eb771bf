use vstd::prelude::*;
use crate::auto_panning::{AutoPanning, pointer_outside, setup_commands, shift_commands};
use crate::color::{Color, ToolColorOptions, ToolColorType};
use crate::geometry::{Vec2, reaches_threshold};
use crate::messages::{
    InputHints, LayerId, PointId, SegmentId, SplineOptionsUpdate, SplineToolMessage, ToolCommand,
    ToolInput,
};

verus! {

/// The line weight a new spline tool starts with.
pub const DEFAULT_STROKE_WIDTH: u64 = 2;

/// The two states of the tool.
#[derive(Clone, Copy, Debug, PartialEq, Eq, Structural)]
pub enum SplineToolFsmState {
    /// No gesture is in progress.
    Ready,
    /// A spline is being drawn.
    Drawing,
}

/// The tool's options: line weight, fill and stroke color.
#[derive(Clone, Copy, Debug, PartialEq, Eq, Structural)]
pub struct SplineOptions {
    pub line_weight: u64,
    pub fill: ToolColorOptions,
    pub stroke: ToolColorOptions,
}

impl Default for SplineOptions {
    fn default() -> (r: SplineOptions)
        ensures
            r.line_weight == DEFAULT_STROKE_WIDTH,
            r.fill == ToolColorOptions::new_with_type_spec(ToolColorType::NoColor),
            r.stroke == ToolColorOptions::new_with_type_spec(ToolColorType::Primary),
    {
        SplineOptions {
            line_weight: DEFAULT_STROKE_WIDTH,
            fill: ToolColorOptions::new_none(),
            stroke: ToolColorOptions::new_primary(),
        }
    }
}

/// The session of a gesture.
#[derive(Clone, Debug)]
pub struct SplineToolData {
    /// Points that are inserted, in path order.
    pub points: Vec<(PointId, Vec2)>,
    /// Position of the point to be inserted next.
    pub next_point: Vec2,
    /// Point that was inserted temporarily to show a preview.
    pub preview_point: Option<PointId>,
    /// Segment that was inserted temporarily to show a preview.
    pub preview_segment: Option<SegmentId>,
    pub weight: u64,
    /// The layer being drawn.
    pub layer: Option<LayerId>,
    pub auto_panning: AutoPanning,
}

/// The mathematical model of a session.
pub struct Session {
    pub points: Seq<(PointId, Vec2)>,
    pub next_point: Vec2,
    pub preview_point: Option<PointId>,
    pub preview_segment: Option<SegmentId>,
    pub weight: u64,
    pub layer: Option<LayerId>,
    pub panning: bool,
}

impl View for SplineToolData {
    type V = Session;

    open spec fn view(&self) -> Session {
        Session {
            points: self.points@,
            next_point: self.next_point,
            preview_point: self.preview_point,
            preview_segment: self.preview_segment,
            weight: self.weight,
            layer: self.layer,
            panning: self.auto_panning.active,
        }
    }
}

/// The invariant that ties a session to the state of the tool: a layer exists
/// exactly while drawing; outside a gesture the session is empty and no pan
/// is scheduled; and a
/// preview segment exists exactly when a preview point and a committed point
/// exist, the two ends it joins.
pub open spec fn session_wf(state: SplineToolFsmState, s: Session) -> bool {
    &&& (state == SplineToolFsmState::Drawing) == s.layer.is_some()
    &&& state == SplineToolFsmState::Ready ==> s.points.len() == 0 && s.preview_point is None
        && !s.panning
    &&& s.preview_segment is Some <==> (s.preview_point is Some && s.points.len() > 0)
}

/// Whether the identifiers that an event may insert are new to the session:
/// the point id is neither a committed point nor the preview point, and the
/// segment id is not the preview segment.
pub open spec fn ids_fresh(s: Session, point: PointId, segment: SegmentId) -> bool {
    &&& forall|i: int| 0 <= i < s.points.len() ==> #[trigger] s.points[i].0 != point
    &&& s.preview_point != Some(point)
    &&& s.preview_segment != Some(segment)
}

/// Whether the events that insert points and segments get fresh identifiers.
pub open spec fn event_ids_fresh(s: Session, event: SplineToolMessage, input: ToolInput) -> bool {
    (event is DragStop || event is PointerMove) ==> ids_fresh(s, input.new_point, input.new_segment)
}

/// Whether every segment that `commands` inserts joins two distinct points.
pub open spec fn segments_join_distinct_points(commands: Seq<ToolCommand>) -> bool {
    forall|i: int|
        0 <= i < commands.len() ==> match #[trigger] commands[i] {
            ToolCommand::InsertSegment { start, end, .. } => start != end,
            _ => true,
        }
}

/// The commands that retract the preview of a session.
pub open spec fn retract_commands(s: Session) -> Seq<ToolCommand> {
    match s.layer {
        None => Seq::empty(),
        Some(layer) => (match s.preview_point {
            Some(id) => seq![ToolCommand::RemovePoint { layer, id }],
            None => Seq::empty(),
        }) + (match s.preview_segment {
            Some(id) => seq![ToolCommand::RemoveSegment { layer, id }],
            None => Seq::empty(),
        }),
    }
}

/// The session once its preview is retracted.
pub open spec fn retracted(s: Session) -> Session {
    match s.layer {
        None => s,
        Some(_) => Session { preview_point: None, preview_segment: None, ..s },
    }
}

/// The commands that insert a point at `position` and, after a committed
/// point, the segment that joins the last committed point to it.
pub open spec fn insert_commands(
    s: Session,
    layer: LayerId,
    point: PointId,
    segment: SegmentId,
    position: Vec2,
) -> Seq<ToolCommand> {
    seq![ToolCommand::InsertPoint { layer, id: point, position }] + if s.points.len() > 0 {
        seq![
            ToolCommand::InsertSegment {
                layer,
                id: segment,
                start: s.points.last().0,
                end: point,
            },
        ]
    } else {
        Seq::empty()
    }
}

/// Retracts the preview, then inserts a point at `next_point`: as the new
/// preview when `preview` holds, else as a committed point.
pub open spec fn updated(s: Session, preview: bool, point: PointId, segment: SegmentId) -> (
    Session,
    Seq<ToolCommand>,
) {
    let r = retracted(s);
    match s.layer {
        None => (r, retract_commands(s)),
        Some(layer) => {
            let commands = retract_commands(s) + insert_commands(
                s,
                layer,
                point,
                segment,
                s.next_point,
            );
            if preview {
                (
                    Session {
                        preview_point: Some(point),
                        preview_segment: if s.points.len() > 0 {
                            Some(segment)
                        } else {
                            None
                        },
                        ..r
                    },
                    commands,
                )
            } else {
                (Session { points: s.points.push((point, s.next_point)), ..r }, commands)
            }
        },
    }
}

/// The commands that apply the fill and the stroke of the options to a layer.
pub open spec fn style_commands(options: SplineOptions, layer: LayerId) -> Seq<ToolCommand> {
    (match options.fill.active_color_spec() {
        Some(color) => seq![ToolCommand::SetFill { layer, color }],
        None => Seq::empty(),
    }) + (match options.stroke.active_color_spec() {
        Some(color) => seq![ToolCommand::SetStroke { layer, color, weight: options.line_weight }],
        None => Seq::empty(),
    })
}

/// The commands that open a gesture on a new layer.
pub open spec fn start_commands(options: SplineOptions, layer: LayerId) -> Seq<ToolCommand> {
    seq![
        ToolCommand::StartTransaction,
        ToolCommand::DeselectAllLayers,
        ToolCommand::CreateSplineLayer { layer },
    ] + style_commands(options, layer) + seq![ToolCommand::StartBuffer]
}

/// The position that a drag stop commits: the pointer, if there is no
/// committed point yet or it lies at least the drag threshold away from the
/// last one; else the pending position.
pub open spec fn committed_position(s: Session, pointer: Vec2) -> Vec2 {
    if s.points.len() == 0 || reaches_threshold(s.points.last().1, pointer) {
        pointer
    } else {
        s.next_point
    }
}

/// One step of the tool: the next state, the next session and the commands
/// emitted, for an event in a state.
pub open spec fn step(
    state: SplineToolFsmState,
    s: Session,
    event: SplineToolMessage,
    input: ToolInput,
    options: SplineOptions,
) -> (SplineToolFsmState, Session, Seq<ToolCommand>) {
    let drawing = state == SplineToolFsmState::Drawing;
    match event {
        SplineToolMessage::DragStart => if drawing {
            (state, s, Seq::empty())
        } else {
            (
                SplineToolFsmState::Drawing,
                Session {
                    weight: options.line_weight,
                    layer: Some(input.new_layer),
                    ..s
                },
                start_commands(options, input.new_layer),
            )
        },
        SplineToolMessage::DragStop => if !drawing {
            (state, s, Seq::empty())
        } else if s.layer is None {
            (SplineToolFsmState::Ready, s, seq![ToolCommand::EndTransaction])
        } else {
            let s1 = Session { next_point: committed_position(s, input.layer_position), ..s };
            let (s2, commands) = updated(s1, false, input.new_point, input.new_segment);
            (state, s2, seq![ToolCommand::EndTransaction] + commands)
        },
        SplineToolMessage::PointerMove => if !drawing {
            (state, s, Seq::empty())
        } else if s.layer is None {
            (SplineToolFsmState::Ready, s, Seq::empty())
        } else {
            let s1 = Session { next_point: input.layer_position, ..s };
            let (s2, commands) = updated(s1, true, input.new_point, input.new_segment);
            (
                state,
                Session { panning: pointer_outside(input.pointer, input.viewport_size), ..s2 },
                commands + setup_commands(s.panning, input.pointer, input.viewport_size),
            )
        },
        SplineToolMessage::PointerOutsideViewport => if drawing {
            if s.panning {
                (state, s, shift_commands(input.pointer, input.viewport_size))
            } else {
                (state, s, Seq::empty())
            }
        } else {
            (
                state,
                Session { panning: false, ..s },
                if s.panning {
                    seq![ToolCommand::StopAutoPan]
                } else {
                    Seq::empty()
                },
            )
        },
        SplineToolMessage::Confirm | SplineToolMessage::Abort => if !drawing {
            (state, s, Seq::empty())
        } else {
            let commands = if s.points.len() >= 2 {
                retract_commands(s) + seq![ToolCommand::EndTransaction]
            } else {
                seq![ToolCommand::AbortTransaction]
            };
            let stop = if s.panning {
                seq![ToolCommand::StopAutoPan]
            } else {
                Seq::empty()
            };
            (
                SplineToolFsmState::Ready,
                Session {
                    points: Seq::empty(),
                    preview_point: None,
                    preview_segment: None,
                    layer: None,
                    panning: false,
                    ..s
                },
                commands + stop,
            )
        },
        SplineToolMessage::WorkingColorChanged => (
            state,
            s,
            seq![
                ToolCommand::SendToSelf(
                    SplineToolMessage::UpdateOptions(
                        SplineOptionsUpdate::WorkingColors(
                            Some(input.primary_color),
                            Some(input.secondary_color),
                        ),
                    ),
                ),
            ],
        ),
        _ => (state, s, Seq::empty()),
    }
}

/// Retracts the preview point and segment, if any, of a session with a layer.
pub fn delete_preview(tool_data: &mut SplineToolData, responses: &mut Vec<ToolCommand>)
    ensures
        final(tool_data)@ == retracted(old(tool_data)@),
        final(responses)@ == old(responses)@ + retract_commands(old(tool_data)@),
{
    let layer = match tool_data.layer {
        Some(layer) => layer,
        None => return ,
    };
    if let Some(id) = tool_data.preview_point {
        responses.push(ToolCommand::RemovePoint { layer, id });
    }
    if let Some(id) = tool_data.preview_segment {
        responses.push(ToolCommand::RemoveSegment { layer, id });
    }
    tool_data.preview_point = None;
    tool_data.preview_segment = None;
}

/// Retracts the preview, then inserts a point at the session's next position,
/// joined by a segment to the last committed point if there is one: as the new
/// preview when `show_preview` holds, else as a committed point.
pub fn update_spline(
    tool_data: &mut SplineToolData,
    show_preview: bool,
    point: PointId,
    segment: SegmentId,
    responses: &mut Vec<ToolCommand>,
)
    requires
        ids_fresh(old(tool_data)@, point, segment),
    ensures
        segments_join_distinct_points(updated(old(tool_data)@, show_preview, point, segment).1),
        final(tool_data)@ == updated(old(tool_data)@, show_preview, point, segment).0,
        final(responses)@ == old(responses)@ + updated(
            old(tool_data)@,
            show_preview,
            point,
            segment,
        ).1,
{
    proof {
        lemma_updated_segments_join_distinct_points(old(tool_data)@, show_preview, point, segment);
    }
    delete_preview(tool_data, responses);
    let layer = match tool_data.layer {
        Some(layer) => layer,
        None => return ,
    };
    let next_point_pos = tool_data.next_point;
    responses.push(ToolCommand::InsertPoint { layer, id: point, position: next_point_pos });
    let n = tool_data.points.len();
    if n > 0 {
        let last_point_id = tool_data.points[n - 1].0;
        responses.push(
            ToolCommand::InsertSegment { layer, id: segment, start: last_point_id, end: point },
        );
        if show_preview {
            tool_data.preview_segment = Some(segment);
        }
    }
    if show_preview {
        tool_data.preview_point = Some(point);
    } else {
        tool_data.points.push((point, next_point_pos));
    }
    proof {
        let s = old(tool_data)@;
        assert(final(responses)@ =~= old(responses)@ + (retract_commands(s) + insert_commands(
            s,
            layer,
            point,
            segment,
            s.next_point,
        )));
    }
}

/// With fresh identifiers, the segment that an update inserts joins the last
/// committed point to a new, distinct point.
pub proof fn lemma_updated_segments_join_distinct_points(
    s: Session,
    preview: bool,
    point: PointId,
    segment: SegmentId,
)
    requires
        ids_fresh(s, point, segment),
    ensures
        segments_join_distinct_points(updated(s, preview, point, segment).1),
{
    if s.points.len() > 0 {
        assert(s.points[s.points.len() - 1].0 != point);
    }
    let commands = updated(s, preview, point, segment).1;
    assert forall|i: int| 0 <= i < commands.len() implies match #[trigger] commands[i] {
        ToolCommand::InsertSegment { start, end, .. } => start != end,
        _ => true,
    } by {
        if let ToolCommand::InsertSegment { start, end, .. } = commands[i] {
            assert(start == s.points.last().0 && end == point);
        }
    }
}

impl SplineToolFsmState {
    /// Handles one event: updates the session, emits the commands in order and
    /// returns the next state, as `step` describes.
    pub fn transition(
        self,
        event: SplineToolMessage,
        tool_data: &mut SplineToolData,
        input: &ToolInput,
        options: &SplineOptions,
        responses: &mut Vec<ToolCommand>,
    ) -> (r: SplineToolFsmState)
        requires
            session_wf(self, old(tool_data)@),
            event_ids_fresh(old(tool_data)@, event, *input),
        ensures
            segments_join_distinct_points(step(self, old(tool_data)@, event, *input, *options).2),
            r == step(self, old(tool_data)@, event, *input, *options).0,
            final(tool_data)@ == step(self, old(tool_data)@, event, *input, *options).1,
            final(responses)@ == old(responses)@ + step(
                self,
                old(tool_data)@,
                event,
                *input,
                *options,
            ).2,
            session_wf(r, final(tool_data)@),
    {
        proof {
            crate::laws::lemma_segments_join_distinct_points(
                self,
                old(tool_data)@,
                event,
                *input,
                *options,
            );
        }
        let drawing = match self {
            SplineToolFsmState::Drawing => true,
            SplineToolFsmState::Ready => false,
        };
        match event {
            SplineToolMessage::DragStart => {
                if drawing {
                    return self;
                }
                let layer = input.new_layer;
                responses.push(ToolCommand::StartTransaction);
                responses.push(ToolCommand::DeselectAllLayers);
                responses.push(ToolCommand::CreateSplineLayer { layer });
                tool_data.weight = options.line_weight;
                apply_style(options, layer, responses);
                tool_data.layer = Some(layer);
                responses.push(ToolCommand::StartBuffer);
                proof {
                    assert(final(responses)@ =~= old(responses)@ + start_commands(*options, layer));
                }
                SplineToolFsmState::Drawing
            },
            SplineToolMessage::DragStop => {
                if !drawing {
                    return self;
                }
                responses.push(ToolCommand::EndTransaction);
                if tool_data.layer.is_none() {
                    return SplineToolFsmState::Ready;
                }
                let pos = input.layer_position;
                let n = tool_data.points.len();
                if n == 0 || tool_data.points[n - 1].1.reaches_drag_threshold(&pos) {
                    tool_data.next_point = pos;
                }
                update_spline(tool_data, false, input.new_point, input.new_segment, responses);
                proof {
                    let s1 = Session {
                        next_point: committed_position(old(tool_data)@, pos),
                        ..old(tool_data)@
                    };
                    assert(final(responses)@ =~= old(responses)@ + (seq![ToolCommand::EndTransaction]
                        + updated(s1, false, input.new_point, input.new_segment).1));
                }
                SplineToolFsmState::Drawing
            },
            SplineToolMessage::PointerMove => {
                if !drawing {
                    return self;
                }
                if tool_data.layer.is_none() {
                    return SplineToolFsmState::Ready;
                }
                tool_data.next_point = input.layer_position;
                update_spline(tool_data, true, input.new_point, input.new_segment, responses);
                tool_data.auto_panning.setup_by_mouse_position(
                    input.pointer,
                    input.viewport_size,
                    responses,
                );
                proof {
                    let s1 = Session { next_point: input.layer_position, ..old(tool_data)@ };
                    assert(final(responses)@ =~= old(responses)@ + (updated(
                        s1,
                        true,
                        input.new_point,
                        input.new_segment,
                    ).1 + setup_commands(
                        old(tool_data)@.panning,
                        input.pointer,
                        input.viewport_size,
                    )));
                }
                SplineToolFsmState::Drawing
            },
            SplineToolMessage::PointerOutsideViewport => {
                if drawing {
                    let _ = tool_data.auto_panning.shift_viewport(
                        input.pointer,
                        input.viewport_size,
                        responses,
                    );
                } else {
                    tool_data.auto_panning.stop(responses);
                }
                self
            },
            SplineToolMessage::Confirm | SplineToolMessage::Abort => {
                if !drawing {
                    return self;
                }
                if tool_data.points.len() >= 2 {
                    delete_preview(tool_data, responses);
                    responses.push(ToolCommand::EndTransaction);
                } else {
                    responses.push(ToolCommand::AbortTransaction);
                }
                tool_data.layer = None;
                tool_data.preview_point = None;
                tool_data.preview_segment = None;
                tool_data.points.clear();
                let ghost mid = responses@;
                tool_data.auto_panning.stop(responses);
                proof {
                    assert(final(tool_data)@.points =~= Seq::<(PointId, Vec2)>::empty());
                    assert(responses@ =~= old(responses)@ + mid.subrange(
                        old(responses)@.len() as int,
                        mid.len() as int,
                    ) + (if old(tool_data)@.panning {
                        seq![ToolCommand::StopAutoPan]
                    } else {
                        Seq::empty()
                    }));
                }
                SplineToolFsmState::Ready
            },
            SplineToolMessage::WorkingColorChanged => {
                responses.push(
                    ToolCommand::SendToSelf(
                        SplineToolMessage::UpdateOptions(
                            SplineOptionsUpdate::WorkingColors(
                                Some(input.primary_color),
                                Some(input.secondary_color),
                            ),
                        ),
                    ),
                );
                self
            },
            _ => self,
        }
    }
}

/// Applies the fill and the stroke of the options to a layer.
fn apply_style(options: &SplineOptions, layer: LayerId, responses: &mut Vec<ToolCommand>)
    ensures
        final(responses)@ == old(responses)@ + style_commands(*options, layer),
{
    if let Some(color) = options.fill.active_color() {
        responses.push(ToolCommand::SetFill { layer, color });
    }
    if let Some(color) = options.stroke.active_color() {
        responses.push(ToolCommand::SetStroke { layer, color, weight: options.line_weight });
    }
    proof {
        assert(final(responses)@ =~= old(responses)@ + style_commands(*options, layer));
    }
}

} // verus!

verus! {

/// The unit variants that name the kinds of `SplineToolMessage`.
#[derive(Clone, Copy, Debug, PartialEq, Eq, Structural)]
pub enum SplineToolMessageDiscriminant {
    Overlays,
    CanvasTransformed,
    Abort,
    WorkingColorChanged,
    Confirm,
    DragStart,
    DragStop,
    PointerMove,
    PointerOutsideViewport,
    Undo,
    UpdateOptions,
}

/// The tool's messages for the editor's general events; `None` where the tool
/// does not listen.
#[derive(Clone, Copy, Debug, PartialEq, Eq, Structural)]
pub struct EventToMessageMap {
    pub overlay_provider: Option<SplineToolMessage>,
    pub canvas_transformed: Option<SplineToolMessage>,
    pub tool_abort: Option<SplineToolMessage>,
    pub working_color_changed: Option<SplineToolMessage>,
    pub selection_changed: Option<SplineToolMessage>,
}

/// The options after an update.
pub open spec fn options_updated(o: SplineOptions, update: SplineOptionsUpdate) -> SplineOptions {
    match update {
        SplineOptionsUpdate::LineWeight(line_weight) => SplineOptions { line_weight, ..o },
        SplineOptionsUpdate::FillColor(color) => SplineOptions {
            fill: ToolColorOptions { custom_color: color, color_type: ToolColorType::Custom, ..o.fill },
            ..o
        },
        SplineOptionsUpdate::FillColorType(color_type) => SplineOptions {
            fill: ToolColorOptions { color_type, ..o.fill },
            ..o
        },
        SplineOptionsUpdate::StrokeColor(color) => SplineOptions {
            stroke: ToolColorOptions {
                custom_color: color,
                color_type: ToolColorType::Custom,
                ..o.stroke
            },
            ..o
        },
        SplineOptionsUpdate::StrokeColorType(color_type) => SplineOptions {
            stroke: ToolColorOptions { color_type, ..o.stroke },
            ..o
        },
        SplineOptionsUpdate::WorkingColors(primary, secondary) => SplineOptions {
            fill: ToolColorOptions {
                primary_working_color: primary,
                secondary_working_color: secondary,
                ..o.fill
            },
            stroke: ToolColorOptions {
                primary_working_color: primary,
                secondary_working_color: secondary,
                ..o.stroke
            },
            ..o
        },
    }
}

/// The hints shown in a state.
pub open spec fn hints_for(state: SplineToolFsmState) -> InputHints {
    match state {
        SplineToolFsmState::Ready => InputHints::DrawSpline,
        SplineToolFsmState::Drawing => InputHints::CancelExtendOrEnd,
    }
}

/// The commands that follow a change of state: new hints and the cursor.
pub open spec fn state_change_commands(
    before: SplineToolFsmState,
    after: SplineToolFsmState,
) -> Seq<ToolCommand> {
    if before != after {
        seq![ToolCommand::UpdateHints(hints_for(after)), ToolCommand::SetDefaultCursor]
    } else {
        Seq::empty()
    }
}

impl SplineToolFsmState {
    /// Shows the input hints of the state.
    pub fn update_hints(&self, responses: &mut Vec<ToolCommand>)
        ensures
            final(responses)@ == old(responses)@.push(ToolCommand::UpdateHints(hints_for(*self))),
    {
        let hints = match self {
            SplineToolFsmState::Ready => InputHints::DrawSpline,
            SplineToolFsmState::Drawing => InputHints::CancelExtendOrEnd,
        };
        responses.push(ToolCommand::UpdateHints(hints));
    }

    /// Shows the cursor of the state, the default one in each.
    pub fn update_cursor(&self, responses: &mut Vec<ToolCommand>)
        ensures
            final(responses)@ == old(responses)@.push(ToolCommand::SetDefaultCursor),
    {
        responses.push(ToolCommand::SetDefaultCursor);
    }
}

/// The spline tool: its state, its session and its options.
#[derive(Clone, Debug)]
pub struct SplineTool {
    pub fsm_state: SplineToolFsmState,
    pub tool_data: SplineToolData,
    pub options: SplineOptions,
}

impl SplineTool {
    /// The invariant of the tool.
    pub open spec fn wf(&self) -> bool {
        session_wf(self.fsm_state, self.tool_data@)
    }

    /// A tool in the ready state with an empty session and default options.
    pub fn new() -> (r: SplineTool)
        ensures
            r.wf(),
            r.fsm_state == SplineToolFsmState::Ready,
            r.tool_data@.points.len() == 0,
            r.tool_data@.preview_point is None,
            r.tool_data@.preview_segment is None,
            r.tool_data@.layer is None,
            !r.tool_data@.panning,
            r.options.line_weight == DEFAULT_STROKE_WIDTH,
            r.options.fill == ToolColorOptions::new_with_type_spec(ToolColorType::NoColor),
            r.options.stroke == ToolColorOptions::new_with_type_spec(ToolColorType::Primary),
    {
        SplineTool {
            fsm_state: SplineToolFsmState::Ready,
            tool_data: SplineToolData {
                points: Vec::new(),
                next_point: Vec2 { x: 0, y: 0 },
                preview_point: None,
                preview_segment: None,
                weight: 0,
                layer: None,
                auto_panning: AutoPanning::new(),
            },
            options: SplineOptions::default(),
        }
    }

    pub fn icon_name(&self) -> (r: String)
        ensures
            r@ == "VectorSplineTool"@,
    {
        "VectorSplineTool".to_owned()
    }

    pub fn tooltip(&self) -> (r: String)
        ensures
            r@ == "Spline Tool"@,
    {
        "Spline Tool".to_owned()
    }

    /// Handles one message. An options update changes the options and asks for
    /// the options panel anew; any other message goes to the state machine,
    /// and a change of state shows the new state's hints and cursor.
    pub fn process_message(
        &mut self,
        message: SplineToolMessage,
        responses: &mut Vec<ToolCommand>,
        input: &ToolInput,
    )
        requires
            old(self).wf(),
            event_ids_fresh(old(self).tool_data@, message, *input),
        ensures
            final(self).wf(),
            match message {
                SplineToolMessage::UpdateOptions(update) => {
                    &&& final(self).options == options_updated(old(self).options, update)
                    &&& final(self).fsm_state == old(self).fsm_state
                    &&& final(self).tool_data@ == old(self).tool_data@
                    &&& final(responses)@ == old(responses)@.push(ToolCommand::RefreshOptions)
                },
                _ => {
                    let (state, session, commands) = step(
                        old(self).fsm_state,
                        old(self).tool_data@,
                        message,
                        *input,
                        old(self).options,
                    );
                    &&& final(self).options == old(self).options
                    &&& final(self).fsm_state == state
                    &&& final(self).tool_data@ == session
                    &&& final(responses)@ == old(responses)@ + commands + state_change_commands(
                        old(self).fsm_state,
                        state,
                    )
                },
            },
    {
        match message {
            SplineToolMessage::UpdateOptions(update) => {
                self.apply_update(update);
                responses.push(ToolCommand::RefreshOptions);
            },
            _ => {
                let options = self.options;
                let before = self.fsm_state;
                let after = before.transition(
                    message,
                    &mut self.tool_data,
                    input,
                    &options,
                    responses,
                );
                let ghost mid2 = responses@;
                if before != after {
                    self.fsm_state = after;
                    after.update_hints(responses);
                    after.update_cursor(responses);
                }
                proof {
                    assert(responses@ =~= old(responses)@ + (mid2.subrange(
                        old(responses)@.len() as int,
                        mid2.len() as int,
                    )) + state_change_commands(before, after));
                }
            },
        }
    }

    fn apply_update(&mut self, update: SplineOptionsUpdate)
        ensures
            final(self).options == options_updated(old(self).options, update),
            final(self).fsm_state == old(self).fsm_state,
            final(self).tool_data@ == old(self).tool_data@,
    {
        match update {
            SplineOptionsUpdate::LineWeight(line_weight) => self.options.line_weight = line_weight,
            SplineOptionsUpdate::FillColor(color) => {
                self.options.fill.custom_color = color;
                self.options.fill.color_type = ToolColorType::Custom;
            },
            SplineOptionsUpdate::FillColorType(color_type) => self.options.fill.color_type = color_type,
            SplineOptionsUpdate::StrokeColor(color) => {
                self.options.stroke.custom_color = color;
                self.options.stroke.color_type = ToolColorType::Custom;
            },
            SplineOptionsUpdate::StrokeColorType(color_type) => self.options.stroke.color_type =
                color_type,
            SplineOptionsUpdate::WorkingColors(primary, secondary) => {
                self.options.stroke.primary_working_color = primary;
                self.options.stroke.secondary_working_color = secondary;
                self.options.fill.primary_working_color = primary;
                self.options.fill.secondary_working_color = secondary;
            },
        }
    }

    /// The kinds of message that the tool takes in its current state.
    pub fn actions(&self) -> (r: Vec<SplineToolMessageDiscriminant>)
        ensures
            self.fsm_state == SplineToolFsmState::Ready ==> r@ == seq![
                SplineToolMessageDiscriminant::Undo,
                SplineToolMessageDiscriminant::DragStart,
                SplineToolMessageDiscriminant::DragStop,
                SplineToolMessageDiscriminant::Confirm,
                SplineToolMessageDiscriminant::Abort,
            ],
            self.fsm_state == SplineToolFsmState::Drawing ==> r@ == seq![
                SplineToolMessageDiscriminant::DragStop,
                SplineToolMessageDiscriminant::PointerMove,
                SplineToolMessageDiscriminant::Confirm,
                SplineToolMessageDiscriminant::Abort,
            ],
    {
        match self.fsm_state {
            SplineToolFsmState::Ready => vec![
                SplineToolMessageDiscriminant::Undo,
                SplineToolMessageDiscriminant::DragStart,
                SplineToolMessageDiscriminant::DragStop,
                SplineToolMessageDiscriminant::Confirm,
                SplineToolMessageDiscriminant::Abort,
            ],
            SplineToolFsmState::Drawing => vec![
                SplineToolMessageDiscriminant::DragStop,
                SplineToolMessageDiscriminant::PointerMove,
                SplineToolMessageDiscriminant::Confirm,
                SplineToolMessageDiscriminant::Abort,
            ],
        }
    }

    /// The messages the tool takes for the editor's general events: overlays,
    /// canvas changes, aborts and working-color changes.
    pub fn event_to_message_map(&self) -> (r: EventToMessageMap)
        ensures
            r == (EventToMessageMap {
                overlay_provider: Some(SplineToolMessage::Overlays),
                canvas_transformed: Some(SplineToolMessage::CanvasTransformed),
                tool_abort: Some(SplineToolMessage::Abort),
                working_color_changed: Some(SplineToolMessage::WorkingColorChanged),
                selection_changed: None,
            }),
    {
        EventToMessageMap {
            overlay_provider: Some(SplineToolMessage::Overlays),
            canvas_transformed: Some(SplineToolMessage::CanvasTransformed),
            tool_abort: Some(SplineToolMessage::Abort),
            working_color_changed: Some(SplineToolMessage::WorkingColorChanged),
            selection_changed: None,
        }
    }
}

impl Default for SplineTool {
    fn default() -> (r: SplineTool)
        ensures
            r.wf(),
            r.fsm_state == SplineToolFsmState::Ready,
            r.tool_data@.points.len() == 0,
            r.tool_data@.layer is None,
    {
        SplineTool::new()
    }
}

} // verus!
