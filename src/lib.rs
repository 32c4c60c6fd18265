//! Retained drawing state of a canvas-like 2D render context.
//!
//! The library keeps everything a 2D context decides: the bounding box of the
//! path under construction, the save/restore stack of drawing configurations,
//! the resolution of brushes into paints ready for a rasterizer, the plan of
//! cubic segments that approximates a circular arc, and the registry of font
//! families. Geometry is expressed in whole device pixels and angles in
//! millidegrees, so that every decision is made on exact integers.
pub mod arc;
pub mod color;
pub mod context;
pub mod geometry;
pub mod paint;
pub mod path_rect;
pub mod state;
pub mod surface;
pub mod widget;
