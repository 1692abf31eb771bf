//! A spline drawing tool: a state machine that turns pointer and keyboard
//! events into a stream of document commands, with a live preview of the
//! next point that is retracted before anything else is inserted.

pub mod color;
pub mod geometry;
pub mod menu_bar_message;
pub mod messages;
pub mod auto_panning;
pub mod spline_tool;
pub mod laws;
