//! A snapping grid for a two-dimensional canvas.
//!
//! A grid rounds a position to a nearby vertex of a square or hexagonal
//! lattice, and lists the vertices that a viewport shows so that they can
//! be drawn. All positions and lengths are whole numbers of ticks, a
//! thousand to the canvas unit, and all arithmetic on them is exact.
//!
//! - `rounding`: integer division rounded down, up, and to the nearest.
//! - `geometry`: positions and rectangles.
//! - `lattice`: where the vertices lie and which one a position snaps to,
//!   with the laws of snapping.
//! - `sweep`: which vertices a viewport shows, and in what order, with the
//!   laws of the sweep.
//! - `color`: colours as four bytes.
//! - `grid`: the grid with its looks; snapping.
//! - `draw`: the circles that show a grid.
//! - `bindings`: the canvas settings that hold a grid.

pub mod bindings;
pub mod color;
pub mod draw;
pub mod geometry;
pub mod grid;
pub mod lattice;
pub mod rounding;
pub mod sweep;

pub use bindings::{ModifierClick, SnarlConfig};
pub use grid::SnapGrid;
pub use lattice::SnapGridType;
