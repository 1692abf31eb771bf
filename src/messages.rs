use vstd::prelude::*;
use crate::color::{Color, ToolColorType};
use crate::geometry::Vec2;

verus! {

/// Identifies a point of a vector path.
#[derive(Clone, Copy, Debug, PartialEq, Eq, Hash, Structural)]
pub struct PointId(pub u64);

/// Identifies a segment of a vector path.
#[derive(Clone, Copy, Debug, PartialEq, Eq, Hash, Structural)]
pub struct SegmentId(pub u64);

/// Identifies a layer of the document.
#[derive(Clone, Copy, Debug, PartialEq, Eq, Hash, Structural)]
pub struct LayerId(pub u64);

/// A change to the spline tool's options.
#[derive(Clone, Copy, Debug, PartialEq, Eq, Structural)]
pub enum SplineOptionsUpdate {
    FillColor(Option<Color>),
    FillColorType(ToolColorType),
    LineWeight(u64),
    StrokeColor(Option<Color>),
    StrokeColorType(ToolColorType),
    WorkingColors(Option<Color>, Option<Color>),
}

/// The events that the spline tool handles.
#[derive(Clone, Copy, Debug, PartialEq, Eq, Structural)]
pub enum SplineToolMessage {
    Overlays,
    CanvasTransformed,
    Abort,
    WorkingColorChanged,
    Confirm,
    DragStart,
    DragStop,
    PointerMove,
    PointerOutsideViewport,
    Undo,
    UpdateOptions(SplineOptionsUpdate),
}

/// The input hints shown to the user.
#[derive(Clone, Copy, Debug, PartialEq, Eq, Structural)]
pub enum InputHints {
    /// Left button draws a spline.
    DrawSpline,
    /// Right button or Escape cancels, left button extends, Enter ends the spline.
    CancelExtendOrEnd,
}

/// The commands that the tool emits, in order, to the document, the view and the frontend.
#[derive(Clone, Copy, Debug, PartialEq, Eq, Structural)]
pub enum ToolCommand {
    StartTransaction,
    EndTransaction,
    AbortTransaction,
    DeselectAllLayers,
    /// Creates `layer` under the container that bounds the pointer, its content
    /// a path-construction node feeding a points-to-spline node.
    CreateSplineLayer { layer: LayerId },
    SetFill { layer: LayerId, color: Color },
    SetStroke { layer: LayerId, color: Color, weight: u64 },
    /// Marks the start of a region whose messages downstream consumers buffer.
    StartBuffer,
    InsertPoint { layer: LayerId, id: PointId, position: Vec2 },
    RemovePoint { layer: LayerId, id: PointId },
    /// Inserts a straight segment (no curve handles) from `start` to `end`.
    InsertSegment { layer: LayerId, id: SegmentId, start: PointId, end: PointId },
    RemoveSegment { layer: LayerId, id: SegmentId },
    /// Shifts the view of the canvas by the given amount.
    PanCanvas { dx: i64, dy: i64 },
    /// Tells the auto-pan schedule to stop.
    StopAutoPan,
    /// Puts a message for the tool itself at the back of the queue.
    SendToSelf(SplineToolMessage),
    /// Asks for the options panel to be laid out anew.
    RefreshOptions,
    UpdateHints(InputHints),
    SetDefaultCursor,
}

/// What the tool reads of its surroundings while handling an event.
#[derive(Clone, Copy, Debug, PartialEq, Eq, Structural)]
pub struct ToolInput {
    /// The pointer, in viewport coordinates.
    pub pointer: Vec2,
    /// The viewport's width and height.
    pub viewport_size: Vec2,
    /// The pointer, in the local coordinates of the layer being drawn.
    pub layer_position: Vec2,
    pub primary_color: Color,
    pub secondary_color: Color,
    /// Fresh identifiers for whatever the event creates.
    pub new_layer: LayerId,
    pub new_point: PointId,
    pub new_segment: SegmentId,
}

} // verus!
