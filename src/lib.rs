//! Interactive quadratic Bezier path editing, the index buffer that renders
//! the path, and a frame timer.
//!
//! A path is edited click by click; each committed segment is a
//! [`geometry::QuadCurve`]. Points are `glam::Vec2` values, which the library
//! carries through without reading them.

pub mod geometry;
pub mod shape;
pub mod timer;

pub use geometry::{BezierPath, Phase, QuadCurve};
pub use shape::Shape;
pub use timer::Timer;
