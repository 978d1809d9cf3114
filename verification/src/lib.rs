//! Closed 2D outlines for generative sketches.
//!
//! Two independent generators produce a [`path::PathSpec`]:
//!
//! * [`polygon`] walks the four quadrants of a canvas and places random
//!   vertices so that each axis moves in one direction inside a quadrant.
//! * [`cell`] keeps an organic blob of four quadratic Bezier arcs whose
//!   control points and radii drift toward random targets at a limited rate.
//!
//! Coordinates are integers. The polygon generator works in whatever unit its
//! bounds are given in; the cell constants are fixed-point values with
//! [`cell::UNIT`] units to one canvas pixel.

pub mod cell;
pub mod path;
pub mod polygon;
pub mod random;
