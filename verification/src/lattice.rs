//! The three lattices, as mathematics: where their vertices lie, and which
//! vertex a position snaps to.

use vstd::prelude::*;
use crate::geometry::PointView;
use crate::rounding::{round_div, lemma_round_div_bounds, lemma_round_div_multiple,
    lemma_round_div_nearest};

verus! {

/// The family of lattice a grid snaps to.
#[derive(Clone, Copy, Debug, PartialEq, Eq, Structural)]
pub enum SnapGridType {
    /// Square lattice.
    Quad,
    /// Hexagonal lattice with pointed tops: rows lie closer together than
    /// columns, and every odd row is shifted sideways by half a cell.
    HexPointy,
    /// Hexagonal lattice with flat tops: columns lie closer together than
    /// rows, and every odd column is shifted vertically by half a cell.
    HexFlat,
}

impl Default for SnapGridType {
    fn default() -> (kind: Self)
        ensures
            kind == SnapGridType::Quad,
    {
        SnapGridType::Quad
    }
}

/// Numerator of the ratio between the two pitches of a hexagonal lattice,
/// the square root of three over two to seven decimal places.
pub const HEX_RATIO_NUM: i64 = 8_660_254;

/// Denominator of that ratio.
pub const HEX_RATIO_DEN: i64 = 10_000_000;

/// Whether a row or column index is odd. The sign plays no part: `-3` is odd.
pub open spec fn is_odd(index: int) -> bool {
    index % 2 == 1
}

/// The smaller of the two pitches of a hexagonal lattice of cell size
/// `size`: `size` times the ratio, to the nearest tick.
pub open spec fn hex_minor_pitch(size: int) -> int {
    round_div(size * HEX_RATIO_NUM as int, HEX_RATIO_DEN as int)
}

/// A lattice: its family and its cell size in ticks.
pub struct Lattice {
    pub kind: SnapGridType,
    pub size: int,
}

/// A vertex named by its column and row.
pub struct Cell {
    pub col: int,
    pub row: int,
}

impl Lattice {
    /// The cell size is positive.
    pub open spec fn wf(self) -> bool {
        0 < self.size
    }

    /// Distance between neighbouring columns.
    pub open spec fn col_pitch(self) -> int {
        match self.kind {
            SnapGridType::HexFlat => hex_minor_pitch(self.size),
            _ => self.size,
        }
    }

    /// Distance between neighbouring rows.
    pub open spec fn row_pitch(self) -> int {
        match self.kind {
            SnapGridType::HexPointy => hex_minor_pitch(self.size),
            _ => self.size,
        }
    }

    /// How far row `row` is shifted along x.
    pub open spec fn row_shift(self, row: int) -> int {
        if self.kind == SnapGridType::HexPointy && is_odd(row) {
            self.size / 2
        } else {
            0
        }
    }

    /// How far column `col` is shifted along y.
    pub open spec fn col_shift(self, col: int) -> int {
        if self.kind == SnapGridType::HexFlat && is_odd(col) {
            self.size / 2
        } else {
            0
        }
    }

    /// The position of the vertex in column `c.col` and row `c.row`.
    pub open spec fn vertex(self, c: Cell) -> PointView {
        PointView {
            x: c.col * self.col_pitch() + self.row_shift(c.row),
            y: c.row * self.row_pitch() + self.col_shift(c.col),
        }
    }

    /// Whether `p` is a vertex of the lattice.
    pub open spec fn is_vertex(self, p: PointView) -> bool {
        exists|c: Cell| self.vertex(c) == p
    }

    /// The column and row of the vertex that `p` snaps to.
    ///
    /// On the square lattice each axis is rounded by itself. On a hexagonal
    /// lattice the shifted axis comes second: the nearest row (pointy tops)
    /// or column (flat tops) is chosen first, from one coordinate alone, and
    /// then the nearest vertex within it.
    pub open spec fn snap_cell(self, p: PointView) -> Cell {
        match self.kind {
            SnapGridType::Quad => Cell {
                col: round_div(p.x, self.size),
                row: round_div(p.y, self.size),
            },
            SnapGridType::HexPointy => {
                let row = round_div(p.y, self.row_pitch());
                Cell { col: round_div(p.x - self.row_shift(row), self.col_pitch()), row }
            },
            SnapGridType::HexFlat => {
                let col = round_div(p.x, self.col_pitch());
                Cell { col, row: round_div(p.y - self.col_shift(col), self.row_pitch()) }
            },
        }
    }

    /// The vertex that `p` snaps to.
    pub open spec fn snapped(self, p: PointView) -> PointView {
        self.vertex(self.snap_cell(p))
    }
}

/// The ratio is the square root of three over two, cut off after seven
/// decimal places: its square lies just below three quarters.
pub proof fn lemma_hex_ratio()
    ensures
        4 * (HEX_RATIO_NUM * HEX_RATIO_NUM) <= 3 * (HEX_RATIO_DEN * HEX_RATIO_DEN),
        3 * (HEX_RATIO_DEN * HEX_RATIO_DEN) < 4 * ((HEX_RATIO_NUM + 1) * (HEX_RATIO_NUM + 1)),
{
    assert(HEX_RATIO_NUM * HEX_RATIO_NUM == 74_999_999_344_516) by (nonlinear_arith);
    assert((HEX_RATIO_NUM + 1) * (HEX_RATIO_NUM + 1) == 75_000_016_665_025) by (nonlinear_arith);
    assert(HEX_RATIO_DEN * HEX_RATIO_DEN == 100_000_000_000_000) by (nonlinear_arith);
}

/// The smaller hexagonal pitch is the cell size times the ratio, to the
/// nearest tick.
pub proof fn lemma_hex_minor_pitch_is_nearest(size: int)
    ensures
        2 * vstd::math::abs(hex_minor_pitch(size) * HEX_RATIO_DEN - size * HEX_RATIO_NUM)
            <= HEX_RATIO_DEN,
{
    lemma_round_div_nearest(size * HEX_RATIO_NUM as int, HEX_RATIO_DEN as int, 0);
}

/// The smaller hexagonal pitch is positive and no larger than the cell size.
pub proof fn lemma_hex_minor_pitch_bounds(size: int)
    requires
        0 < size,
    ensures
        0 < hex_minor_pitch(size) <= size,
{
    let a = size * HEX_RATIO_NUM as int;
    let d = HEX_RATIO_DEN as int;
    let q = hex_minor_pitch(size);
    lemma_round_div_bounds(a, d);
    assert(a >= HEX_RATIO_NUM as int) by (nonlinear_arith)
        requires
            a == size * HEX_RATIO_NUM as int,
            size >= 1,
    ;
    if q <= 0 {
        assert(q * d <= 0) by (nonlinear_arith)
            requires
                q <= 0,
                d > 0,
        ;
    }
    if q > size {
        assert(q * d >= size * d + d) by (nonlinear_arith)
            requires
                q >= size + 1,
                d > 0,
        ;
        assert(size * d >= size * HEX_RATIO_NUM as int) by (nonlinear_arith)
            requires
                size > 0,
                d >= HEX_RATIO_NUM as int,
        ;
    }
}

/// Both pitches of a well-formed lattice are positive and no larger than
/// its cell size, and no shift exceeds half a cell.
pub proof fn lemma_pitch_bounds(l: Lattice)
    requires
        l.wf(),
    ensures
        0 < l.col_pitch() <= l.size,
        0 < l.row_pitch() <= l.size,
        forall|i: int| 0 <= #[trigger] l.row_shift(i) <= l.size / 2,
        forall|i: int| 0 <= #[trigger] l.col_shift(i) <= l.size / 2,
{
    lemma_hex_minor_pitch_bounds(l.size);
}

/// Snapping a vertex finds that same vertex: its column and row come back.
pub proof fn lemma_snap_cell_of_vertex(l: Lattice, c: Cell)
    requires
        l.wf(),
    ensures
        l.snap_cell(l.vertex(c)) == c,
{
    lemma_pitch_bounds(l);
    lemma_round_div_multiple(c.col, l.col_pitch());
    lemma_round_div_multiple(c.row, l.row_pitch());
}

/// Snapping lands on a vertex of the lattice, whatever the position.
pub proof fn lemma_snapped_is_vertex(l: Lattice, p: PointView)
    ensures
        l.is_vertex(l.snapped(p)),
{
    assert(l.vertex(l.snap_cell(p)) == l.snapped(p));
}

/// Snapping twice is snapping once.
pub proof fn lemma_snap_idempotent(l: Lattice, p: PointView)
    requires
        l.wf(),
    ensures
        l.snapped(l.snapped(p)) == l.snapped(p),
{
    lemma_snap_cell_of_vertex(l, l.snap_cell(p));
}

/// Two vertices at one position are one vertex.
pub proof fn lemma_vertex_injective(l: Lattice, a: Cell, b: Cell)
    requires
        l.wf(),
        l.vertex(a) == l.vertex(b),
    ensures
        a == b,
{
    lemma_snap_cell_of_vertex(l, a);
    lemma_snap_cell_of_vertex(l, b);
}

/// A vertex snaps to itself.
pub proof fn lemma_vertex_is_fixed(l: Lattice, p: PointView)
    requires
        l.wf(),
        l.is_vertex(p),
    ensures
        l.snapped(p) == p,
{
    let c = choose|c: Cell| l.vertex(c) == p;
    lemma_snap_cell_of_vertex(l, c);
}

/// On the square lattice the snapped position is, on each axis, a multiple
/// of the cell size, and no multiple of the cell size is nearer.
pub proof fn lemma_quad_snap_is_nearest(l: Lattice, p: PointView, k: int)
    requires
        l.wf(),
        l.kind == SnapGridType::Quad,
    ensures
        l.snapped(p).x == round_div(p.x, l.size) * l.size,
        l.snapped(p).y == round_div(p.y, l.size) * l.size,
        vstd::math::abs(p.x - l.snapped(p).x) <= vstd::math::abs(p.x - k * l.size),
        vstd::math::abs(p.y - l.snapped(p).y) <= vstd::math::abs(p.y - k * l.size),
        2 * vstd::math::abs(p.x - l.snapped(p).x) <= l.size,
        2 * vstd::math::abs(p.y - l.snapped(p).y) <= l.size,
{
    lemma_round_div_nearest(p.x, l.size, k);
    lemma_round_div_nearest(p.y, l.size, k);
}

/// On a hexagonal lattice the snapped position lies in the nearest row
/// (pointy tops) or column (flat tops), and within it on the nearest vertex.
pub proof fn lemma_hex_snap_is_nearest_in_line(l: Lattice, p: PointView, k: int)
    requires
        l.wf(),
        l.kind != SnapGridType::Quad,
    ensures
        l.kind == SnapGridType::HexPointy ==> {
            let row = l.snap_cell(p).row;
            &&& l.snapped(p).y == row * l.row_pitch()
            &&& vstd::math::abs(p.y - l.snapped(p).y) <= vstd::math::abs(p.y - k * l.row_pitch())
            &&& vstd::math::abs(p.x - l.snapped(p).x) <= vstd::math::abs(
                p.x - l.vertex(Cell { col: k, row }).x,
            )
        },
        l.kind == SnapGridType::HexFlat ==> {
            let col = l.snap_cell(p).col;
            &&& l.snapped(p).x == col * l.col_pitch()
            &&& vstd::math::abs(p.x - l.snapped(p).x) <= vstd::math::abs(p.x - k * l.col_pitch())
            &&& vstd::math::abs(p.y - l.snapped(p).y) <= vstd::math::abs(
                p.y - l.vertex(Cell { col, row: k }).y,
            )
        },
{
    lemma_pitch_bounds(l);
    if l.kind == SnapGridType::HexPointy {
        let row = l.snap_cell(p).row;
        lemma_round_div_nearest(p.y, l.row_pitch(), k);
        lemma_round_div_nearest(p.x - l.row_shift(row), l.col_pitch(), k);
    } else {
        let col = l.snap_cell(p).col;
        lemma_round_div_nearest(p.x, l.col_pitch(), k);
        lemma_round_div_nearest(p.y - l.col_shift(col), l.row_pitch(), k);
    }
}

/// On the lattice with pointed tops an odd row stands half a cell to the
/// right of the even rows above and below it; on the square lattice and on
/// the one with flat tops no row is shifted.
pub proof fn lemma_odd_rows_are_shifted(l: Lattice, col: int, row: int)
    requires
        is_odd(row),
    ensures
        l.kind == SnapGridType::HexPointy ==> {
            &&& l.vertex(Cell { col, row }).x == l.vertex(Cell { col, row: row - 1 }).x + l.size
                / 2
            &&& l.vertex(Cell { col, row }).x == l.vertex(Cell { col, row: row + 1 }).x + l.size
                / 2
        },
        l.kind != SnapGridType::HexPointy ==> {
            &&& l.vertex(Cell { col, row }).x == l.vertex(Cell { col, row: row - 1 }).x
            &&& l.vertex(Cell { col, row }).x == l.vertex(Cell { col, row: row + 1 }).x
        },
{
}

/// On the lattice with flat tops an odd column stands half a cell below
/// the even columns on either side; on the other two no column is shifted.
pub proof fn lemma_odd_cols_are_shifted(l: Lattice, col: int, row: int)
    requires
        is_odd(col),
    ensures
        l.kind == SnapGridType::HexFlat ==> {
            &&& l.vertex(Cell { col, row }).y == l.vertex(Cell { col: col - 1, row }).y + l.size
                / 2
            &&& l.vertex(Cell { col, row }).y == l.vertex(Cell { col: col + 1, row }).y + l.size
                / 2
        },
        l.kind != SnapGridType::HexFlat ==> {
            &&& l.vertex(Cell { col, row }).y == l.vertex(Cell { col: col - 1, row }).y
            &&& l.vertex(Cell { col, row }).y == l.vertex(Cell { col: col + 1, row }).y
        },
{
}

} // verus!
