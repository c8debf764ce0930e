//! Grid-based closed-path editor core: the geometry model, the two coordinate
//! transforms, the command-driven editor state machine and the SVG exporter.

pub mod geometry;
pub mod transform;
pub mod decimal;
pub mod export;
pub mod editor;
pub mod display;
pub mod sink;
