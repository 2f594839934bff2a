//! Nine-slice frame geometry and its per-widget cache.
//!
//! A bordered texture is cut into a three-by-three grid of regions: four
//! corners that keep their size, four edges that stretch along one axis and a
//! centre that stretches along both.  This crate computes the grid in texture
//! space and in layout space, and keeps the result in the host toolkit's
//! per-widget store until the available layout size changes.
//!
//! All coordinates are exact integers.  Layout space is a fixed-point grid
//! with [`geometry::UNITS_PER_PIXEL`] units to the pixel; texture coordinates
//! are fractions whose denominators are carried beside them.
//!
//! A border that is negative, or wider than half of what it is laid over, is
//! refused with a [`geometry::DegenerateGeometryError`]: no region that this
//! crate hands out is inverted.  A border of exactly half is accepted and
//! leaves a centre without extent.

pub mod geometry;
pub mod nine_slice;
pub mod widget_state;
pub mod frame_decoration;
pub mod frame;
pub mod group;
