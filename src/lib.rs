//! Construction of a Sri Yantra: a figure of nested, interlocking triangles
//! inscribed in a circle, computed from five radial parameters.
//!
//! Coordinates are fixed-point integers: the caller chooses the unit (for
//! instance one millionth of a drawing unit) and every rule of the figure is
//! evaluated exactly in that grid.
pub mod geometry;
pub mod names;
pub mod registry;
pub mod rules;
pub mod shapes;
pub mod yantra;
