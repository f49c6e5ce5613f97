//! The grid itself: lattice parameters and looks, and snapping a position.

use vstd::prelude::*;
use crate::color::{Color, premultiplied};
use crate::geometry::{Point, TICKS_PER_UNIT, MAX_SIZE, coord_in_range};
use crate::lattice::{SnapGridType, Lattice, is_odd, hex_minor_pitch, HEX_RATIO_NUM,
    HEX_RATIO_DEN, lemma_hex_minor_pitch_bounds, lemma_snap_cell_of_vertex, lemma_vertex_is_fixed};
use crate::rounding::{round_div, round_div_i64, lemma_round_div_bounds};

verus! {

/// Cell size of the default grid: twenty-five canvas units.
pub const DEFAULT_SIZE: i64 = 25 * TICKS_PER_UNIT;

/// Radius of a vertex marker unless set otherwise: three canvas units.
pub const DEFAULT_POINT_SIZE: i64 = 3 * TICKS_PER_UNIT;

/// Width of the grid's stroke: one canvas unit.
pub const STROKE_WIDTH: i64 = TICKS_PER_UNIT;

/// Opacity of the stroke when the grid has no colour of its own.
pub const DEFAULT_STROKE_ALPHA: u8 = 80;

/// Opacity of the vertex markers when the grid has no colour of its own.
pub const DEFAULT_POINT_ALPHA: u8 = 120;

/// Grey level of both default colours.
pub const DEFAULT_GRAY: u8 = 128;

/// The stroke drawn when the grid has no colour of its own.
pub open spec fn default_stroke_color() -> Color {
    premultiplied(DEFAULT_GRAY, DEFAULT_GRAY, DEFAULT_GRAY, DEFAULT_STROKE_ALPHA)
}

/// The marker colour used when the grid has no colour of its own.
pub open spec fn default_point_color() -> Color {
    premultiplied(DEFAULT_GRAY, DEFAULT_GRAY, DEFAULT_GRAY, DEFAULT_POINT_ALPHA)
}

/// A line style: width in ticks and colour.
#[derive(Clone, Copy, Debug, PartialEq, Eq, Structural)]
pub struct Stroke {
    pub width: i64,
    pub color: Color,
}

/// A snapping grid.
///
/// Lengths are in ticks. Nothing is checked when a grid is made: a grid
/// whose `size` is not positive, or is above `MAX_SIZE`, can be held and
/// passed on, but neither snapped to nor drawn while visible.
#[derive(Clone, Copy, Debug, PartialEq, Eq)]
pub struct SnapGrid {
    /// The size of each grid cell.
    pub size: i64,
    /// The family of lattice.
    pub grid_type: SnapGridType,
    /// Whether the grid is shown.
    pub visible: bool,
    /// Colour of markers and stroke; `None` stands for the default greys.
    pub color: Option<Color>,
    /// Radius of the vertex markers.
    pub point_size: i64,
}

impl View for SnapGrid {
    type V = Lattice;

    /// The lattice of the grid; its looks play no part in it.
    open spec fn view(&self) -> Lattice {
        Lattice { kind: self.grid_type, size: self.size as int }
    }
}

impl Default for SnapGrid {
    /// A hidden square grid of twenty-five units with markers of three.
    fn default() -> (grid: Self)
        ensures
            grid == (SnapGrid {
                size: DEFAULT_SIZE,
                grid_type: SnapGridType::Quad,
                visible: false,
                color: None,
                point_size: DEFAULT_POINT_SIZE,
            }),
            grid.wf(),
    {
        SnapGrid {
            size: DEFAULT_SIZE,
            grid_type: SnapGridType::Quad,
            visible: false,
            color: None,
            point_size: DEFAULT_POINT_SIZE,
        }
    }
}

/// Tells whether a row or column index is odd, whatever its sign.
pub fn is_odd_index(index: i64) -> (odd: bool)
    ensures
        odd == is_odd(index as int),
{
    if index >= 0 {
        index % 2 == 1
    } else {
        let m: i64 = -(index + 1);
        m % 2 == 0
    }
}

/// Snaps one coordinate to the lines `k * pitch + shift`: gives the index
/// `k` of the nearest line and where that line lies.
pub fn snap_to_line(a: i64, pitch: i64, shift: i64) -> (line: (i64, i64))
    requires
        0 < pitch <= MAX_SIZE,
        0 <= shift <= MAX_SIZE,
        coord_in_range(a as int),
    ensures
        line.0 == round_div(a - shift, pitch as int),
        line.1 == line.0 * pitch + shift,
{
    let k: i64 = round_div_i64(a - shift, pitch);
    proof {
        lemma_round_div_bounds(a - shift, pitch as int);
    }
    (k, k * pitch + shift)
}

impl SnapGrid {
    /// The cell size is positive and no larger than `MAX_SIZE`.
    pub open spec fn wf(self) -> bool {
        0 < self.size <= MAX_SIZE
    }

    /// The colour of the vertex markers.
    pub open spec fn point_color_value(self) -> Color {
        match self.color {
            Some(c) => c,
            None => default_point_color(),
        }
    }

    /// The stroke of the grid lines.
    pub open spec fn stroke_value(self) -> Stroke {
        Stroke {
            width: STROKE_WIDTH,
            color: match self.color {
                Some(c) => c,
                None => default_stroke_color(),
            },
        }
    }

    /// A hidden square grid of cell size `size`, with default looks.
    #[must_use]
    pub fn quad(size: i64) -> (grid: Self)
        ensures
            grid == (SnapGrid {
                size,
                grid_type: SnapGridType::Quad,
                visible: false,
                color: None,
                point_size: DEFAULT_POINT_SIZE,
            }),
    {
        SnapGrid {
            size,
            grid_type: SnapGridType::Quad,
            visible: false,
            color: None,
            point_size: DEFAULT_POINT_SIZE,
        }
    }

    /// A hidden hexagonal grid with pointed tops, of cell size `size`, with
    /// default looks.
    #[must_use]
    pub fn hex_pointy(size: i64) -> (grid: Self)
        ensures
            grid == (SnapGrid {
                size,
                grid_type: SnapGridType::HexPointy,
                visible: false,
                color: None,
                point_size: DEFAULT_POINT_SIZE,
            }),
    {
        SnapGrid {
            size,
            grid_type: SnapGridType::HexPointy,
            visible: false,
            color: None,
            point_size: DEFAULT_POINT_SIZE,
        }
    }

    /// A hidden hexagonal grid with flat tops, of cell size `size`, with
    /// default looks.
    #[must_use]
    pub fn hex_flat(size: i64) -> (grid: Self)
        ensures
            grid == (SnapGrid {
                size,
                grid_type: SnapGridType::HexFlat,
                visible: false,
                color: None,
                point_size: DEFAULT_POINT_SIZE,
            }),
    {
        SnapGrid {
            size,
            grid_type: SnapGridType::HexFlat,
            visible: false,
            color: None,
            point_size: DEFAULT_POINT_SIZE,
        }
    }

    /// The same grid, shown or hidden.
    #[must_use]
    pub fn with_visible(self, visible: bool) -> (grid: Self)
        ensures
            grid == (SnapGrid { visible, ..self }),
    {
        let mut grid = self;
        grid.visible = visible;
        grid
    }

    /// The same grid in the colour `color`.
    #[must_use]
    pub fn with_color(self, color: Color) -> (grid: Self)
        ensures
            grid == (SnapGrid { color: Some(color), ..self }),
    {
        let mut grid = self;
        grid.color = Some(color);
        grid
    }

    /// The same grid with vertex markers of radius `size`.
    #[must_use]
    pub fn with_point_size(self, size: i64) -> (grid: Self)
        ensures
            grid == (SnapGrid { point_size: size, ..self }),
    {
        let mut grid = self;
        grid.point_size = size;
        grid
    }

    /// Tells whether the grid can be snapped to and drawn.
    pub fn is_valid(&self) -> (ok: bool)
        ensures
            ok == self.wf(),
    {
        0 < self.size && self.size <= MAX_SIZE
    }

    /// The smaller pitch of a hexagonal grid of this cell size.
    pub fn minor_pitch(&self) -> (pitch: i64)
        requires
            self.wf(),
        ensures
            pitch == hex_minor_pitch(self.size as int),
            0 < pitch <= self.size,
    {
        proof {
            lemma_hex_minor_pitch_bounds(self.size as int);
            assert(self.size * HEX_RATIO_NUM <= MAX_SIZE * HEX_RATIO_NUM) by (nonlinear_arith)
                requires
                    0 < self.size <= MAX_SIZE,
            ;
        }
        round_div_i64(self.size * HEX_RATIO_NUM, HEX_RATIO_DEN)
    }

    /// Snaps `pos` to the grid.
    ///
    /// The result is the vertex `self@.snapped(pos@)`; it is a vertex of the
    /// lattice, and snapping it again changes nothing.
    #[must_use]
    pub fn snap(&self, pos: Point) -> (snapped: Point)
        requires
            self.wf(),
            pos.in_range(),
        ensures
            snapped@ == self@.snapped(pos@),
            self@.is_vertex(snapped@),
            self@.snapped(snapped@) == snapped@,
    {
        proof {
            lemma_snap_cell_of_vertex(self@, self@.snap_cell(pos@));
        }
        match self.grid_type {
            SnapGridType::Quad => self.snap_quad(pos),
            SnapGridType::HexPointy => self.snap_hex_pointy(pos),
            SnapGridType::HexFlat => self.snap_hex_flat(pos),
        }
    }

    /// Tells whether `pos` is a vertex of the grid.
    pub fn is_vertex(&self, pos: Point) -> (on_grid: bool)
        requires
            self.wf(),
            pos.in_range(),
        ensures
            on_grid == self@.is_vertex(pos@),
    {
        let snapped = self.snap(pos);
        proof {
            if self@.is_vertex(pos@) {
                lemma_vertex_is_fixed(self@, pos@);
            }
        }
        snapped.x == pos.x && snapped.y == pos.y
    }

    /// Snaps on the square lattice: each coordinate goes to the nearest
    /// multiple of the cell size, a tie going away from zero.
    fn snap_quad(&self, pos: Point) -> (snapped: Point)
        requires
            self.wf(),
            self.grid_type == SnapGridType::Quad,
            pos.in_range(),
        ensures
            snapped@ == self@.snapped(pos@),
            snapped.x == round_div(pos.x as int, self.size as int) * self.size,
            snapped.y == round_div(pos.y as int, self.size as int) * self.size,
    {
        let (_col, x) = snap_to_line(pos.x, self.size, 0);
        let (_row, y) = snap_to_line(pos.y, self.size, 0);
        Point { x, y }
    }

    /// Snaps on the lattice with pointed tops: first to the nearest row,
    /// then to the nearest vertex of that row.
    fn snap_hex_pointy(&self, pos: Point) -> (snapped: Point)
        requires
            self.wf(),
            self.grid_type == SnapGridType::HexPointy,
            pos.in_range(),
        ensures
            snapped@ == self@.snapped(pos@),
    {
        let vert_spacing: i64 = self.minor_pitch();
        let horiz_spacing: i64 = self.size;
        let (row, snapped_y) = snap_to_line(pos.y, vert_spacing, 0);
        let x_offset: i64 = if is_odd_index(row) {
            horiz_spacing / 2
        } else {
            0
        };
        let (_col, snapped_x) = snap_to_line(pos.x, horiz_spacing, x_offset);
        Point { x: snapped_x, y: snapped_y }
    }

    /// Snaps on the lattice with flat tops: first to the nearest column,
    /// then to the nearest vertex of that column.
    fn snap_hex_flat(&self, pos: Point) -> (snapped: Point)
        requires
            self.wf(),
            self.grid_type == SnapGridType::HexFlat,
            pos.in_range(),
        ensures
            snapped@ == self@.snapped(pos@),
    {
        let horiz_spacing: i64 = self.minor_pitch();
        let vert_spacing: i64 = self.size;
        let (col, snapped_x) = snap_to_line(pos.x, horiz_spacing, 0);
        let y_offset: i64 = if is_odd_index(col) {
            vert_spacing / 2
        } else {
            0
        };
        let (_row, snapped_y) = snap_to_line(pos.y, vert_spacing, y_offset);
        Point { x: snapped_x, y: snapped_y }
    }

    /// The stroke for drawing the grid: one unit wide, in the grid's colour
    /// or else in the fainter of the two default greys.
    #[must_use]
    pub fn stroke(&self) -> (stroke: Stroke)
        ensures
            stroke == self.stroke_value(),
    {
        let fallback = Color::from_rgba_unmultiplied(
            DEFAULT_GRAY,
            DEFAULT_GRAY,
            DEFAULT_GRAY,
            DEFAULT_STROKE_ALPHA,
        );
        let color = match self.color {
            Some(c) => c,
            None => fallback,
        };
        Stroke { width: STROKE_WIDTH, color }
    }

    /// The colour for drawing the vertex markers: the grid's colour or else
    /// the stronger of the two default greys.
    #[must_use]
    pub fn point_color(&self) -> (color: Color)
        ensures
            color == self.point_color_value(),
    {
        let fallback = Color::from_rgba_unmultiplied(
            DEFAULT_GRAY,
            DEFAULT_GRAY,
            DEFAULT_GRAY,
            DEFAULT_POINT_ALPHA,
        );
        match self.color {
            Some(c) => c,
            None => fallback,
        }
    }
}

/// The two default greys, byte by byte.
pub proof fn lemma_default_colors()
    ensures
        default_stroke_color() == (Color { r: 40, g: 40, b: 40, a: 80 }),
        default_point_color() == (Color { r: 60, g: 60, b: 60, a: 120 }),
{
}

} // verus!
