//! The interaction core of a node-graph canvas: a graph of nodes and edges,
//! a pan/zoom viewport, the pointer state machine of the canvas, the
//! coordinator of connection gestures, and the geometry of what is drawn.
//!
//! All coordinates are whole pixels, and the zoom factor is kept in
//! thousandths. Every executable function states what it returns or changes
//! over a model of the data: `CanvasModel` for the canvas, `ViewportModel`
//! for the viewport, `EditorModel` for the editor.

pub mod background;
pub mod curve;
pub mod editor;
pub mod extent;
pub mod geometry;
pub mod graph;
pub mod handle;
pub mod ident;
pub mod view;
pub mod viewport;

pub use background::{BackgroundProps, BackgroundVariant};
pub use editor::{ConnectEnd, ConnectingState, GraphEditor};
pub use geometry::Point;
pub use graph::{Edge, Graph, Node};
pub use handle::{Handle, HandleType, Position};
pub use view::{CanvasInput, Gesture, GraphEvent, GraphView};
pub use viewport::Viewport;
