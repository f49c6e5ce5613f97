//! Drawing the grid: one filled circle for every vertex the viewport shows.

use vstd::prelude::*;
use crate::color::Color;
use crate::geometry::{Point, PointView, Rect};
use crate::grid::{SnapGrid, is_odd_index};
use crate::lattice::SnapGridType;
use crate::rounding::{floor_div_i64, ceil_div_i64};
use crate::sweep::{lemma_shown_after_none, lemma_shown_after_step, lemma_shown_after_all,
    lemma_candidate_at, lemma_sweep_bounds, lemma_visited_col_bounded, lemma_visited_row_bounded};

verus! {

/// A filled circle to be painted.
#[derive(Clone, Copy, Debug, PartialEq, Eq, Structural)]
pub struct Circle {
    pub center: Point,
    pub radius: i64,
    pub color: Color,
}

/// The centres of a run of circles, in order.
pub open spec fn centers(circles: Seq<Circle>) -> Seq<PointView> {
    circles.map_values(|c: Circle| c.center@)
}

/// Every circle of the run has radius `radius` and colour `color`.
pub open spec fn all_styled(circles: Seq<Circle>, radius: i64, color: Color) -> bool {
    forall|i: int|
        0 <= i < circles.len() ==> (#[trigger] circles[i]).radius == radius && circles[i].color
            == color
}

/// Two runs of circles with the same centres, one radius and one colour are
/// the same run. So what `draw` gives is settled by the grid and the
/// viewport: drawing twice gives the same circles in the same order.
pub proof fn lemma_drawing_is_determined(a: Seq<Circle>, b: Seq<Circle>, radius: i64, color: Color)
    requires
        centers(a) == centers(b),
        all_styled(a, radius, color),
        all_styled(b, radius, color),
    ensures
        a == b,
{
    assert(a.len() == centers(a).len());
    assert(b.len() == centers(b).len());
    assert forall|i: int| 0 <= i < a.len() implies a[i] == b[i] by {
        assert(centers(a)[i] == a[i].center@);
        assert(centers(b)[i] == b[i].center@);
    }
    assert(a =~= b);
}

/// Appends the circle at `center` and tells what that does to the centres.
fn push_circle(circles: &mut Vec<Circle>, center: Point, radius: i64, color: Color)
    requires
        all_styled(old(circles)@, radius, color),
    ensures
        centers(final(circles)@) == centers(old(circles)@).push(center@),
        all_styled(final(circles)@, radius, color),
{
    circles.push(Circle { center, radius, color });
    assert(centers(circles@) =~= centers(old(circles)@).push(center@));
}

impl SnapGrid {
    /// The circles that show the grid within `viewport`: one for each
    /// vertex of `self@.visible_vertices(viewport@)`, in that order, each
    /// with the grid's marker radius and colour. A hidden grid gives none,
    /// whatever its size and whatever the viewport.
    pub fn draw(&self, viewport: &Rect) -> (circles: Vec<Circle>)
        requires
            self.visible ==> self.wf() && viewport.in_range(),
        ensures
            !self.visible ==> circles@.len() == 0,
            self.visible ==> centers(circles@) == self@.visible_vertices(viewport@),
            all_styled(circles@, self.point_size, self.point_color_value()),
    {
        if !self.visible {
            return Vec::new();
        }
        let color = self.point_color();
        let point_size = self.point_size;
        match self.grid_type {
            SnapGridType::Quad => self.draw_quad(viewport, color, point_size),
            SnapGridType::HexPointy => self.draw_hex_pointy(viewport, color, point_size),
            SnapGridType::HexFlat => self.draw_hex_flat(viewport, color, point_size),
        }
    }

    /// The square lattice: every vertex of every column and row that
    /// touches the viewport, column by column, none dropped.
    #[verifier::loop_isolation(false)]
    fn draw_quad(&self, viewport: &Rect, color: Color, point_size: i64) -> (circles: Vec<Circle>)
        requires
            self.wf(),
            self.grid_type == SnapGridType::Quad,
            viewport.in_range(),
        ensures
            centers(circles@) == self@.visible_vertices(viewport@),
            all_styled(circles@, point_size, color),
    {
        let ghost l = self@;
        let ghost v = viewport@;
        let min_x: i64 = floor_div_i64(viewport.min.x, self.size);
        let max_x: i64 = ceil_div_i64(viewport.max.x, self.size);
        let min_y: i64 = floor_div_i64(viewport.min.y, self.size);
        let max_y: i64 = ceil_div_i64(viewport.max.y, self.size);
        proof {
            lemma_sweep_bounds(l, v);
            lemma_shown_after_none(l, v);
        }
        let mut circles: Vec<Circle> = Vec::new();
        let mut xi: i64 = min_x;
        while xi <= max_x
            invariant
                min_x <= xi,
                xi - min_x <= l.cols(v),
                centers(circles@) == l.shown_after(v, (xi - min_x) * l.rows(v)),
                all_styled(circles@, point_size, color),
            decreases max_x - xi + 1,
        {
            let mut yi: i64 = min_y;
            while yi <= max_y
                invariant
                    min_y <= yi,
                    yi - min_y <= l.rows(v),
                    centers(circles@) == l.shown_after(v, (xi - min_x) * l.rows(v) + (yi - min_y)),
                    all_styled(circles@, point_size, color),
                decreases max_y - yi + 1,
            {
                proof {
                    lemma_visited_col_bounded(l, v, xi as int);
                    lemma_visited_row_bounded(l, v, yi as int);
                    lemma_candidate_at(l, v, xi - min_x, yi - min_y);
                    lemma_shown_after_step(l, v, (xi - min_x) * l.rows(v) + (yi - min_y));
                }
                let x: i64 = xi * self.size;
                let y: i64 = yi * self.size;
                push_circle(&mut circles, Point { x, y }, point_size, color);
                yi = yi + 1;
            }
            proof {
                assert((xi - min_x) * l.rows(v) + l.rows(v) == (xi + 1 - min_x) * l.rows(v))
                    by (nonlinear_arith);
            }
            xi = xi + 1;
        }
        proof {
            lemma_shown_after_all(l, v);
            assert(l.cols(v) * l.rows(v) == (xi - min_x) * l.rows(v)) by (nonlinear_arith)
                requires
                    l.cols(v) == xi - min_x || l.rows(v) == 0,
            ;
        }
        circles
    }

    /// The lattice with pointed tops: row by row, one row and one column
    /// beyond the viewport on every side, keeping the vertices that lie in
    /// the viewport.
    #[verifier::loop_isolation(false)]
    fn draw_hex_pointy(&self, viewport: &Rect, color: Color, point_size: i64) -> (circles: Vec<
        Circle,
    >)
        requires
            self.wf(),
            self.grid_type == SnapGridType::HexPointy,
            viewport.in_range(),
        ensures
            centers(circles@) == self@.visible_vertices(viewport@),
            all_styled(circles@, point_size, color),
    {
        let ghost l = self@;
        let ghost v = viewport@;
        let vert_spacing: i64 = self.minor_pitch();
        let horiz_spacing: i64 = self.size;
        proof {
            lemma_sweep_bounds(l, v);
            lemma_shown_after_none(l, v);
        }
        let min_row: i64 = floor_div_i64(viewport.min.y, vert_spacing) - 1;
        let max_row: i64 = ceil_div_i64(viewport.max.y, vert_spacing) + 1;
        let min_col: i64 = floor_div_i64(viewport.min.x, horiz_spacing) - 1;
        let max_col: i64 = ceil_div_i64(viewport.max.x, horiz_spacing) + 1;
        let mut circles: Vec<Circle> = Vec::new();
        let mut row: i64 = min_row;
        while row <= max_row
            invariant
                min_row <= row,
                row - min_row <= l.rows(v),
                centers(circles@) == l.shown_after(v, (row - min_row) * l.cols(v)),
                all_styled(circles@, point_size, color),
            decreases max_row - row + 1,
        {
            proof {
                lemma_visited_row_bounded(l, v, row as int);
            }
            let y: i64 = row * vert_spacing;
            let x_offset: i64 = if is_odd_index(row) {
                horiz_spacing / 2
            } else {
                0
            };
            let mut col: i64 = min_col;
            while col <= max_col
                invariant
                    min_col <= col,
                    col - min_col <= l.cols(v),
                    centers(circles@) == l.shown_after(
                        v,
                        (row - min_row) * l.cols(v) + (col - min_col),
                    ),
                    all_styled(circles@, point_size, color),
                decreases max_col - col + 1,
            {
                proof {
                    lemma_visited_col_bounded(l, v, col as int);
                    lemma_candidate_at(l, v, row - min_row, col - min_col);
                    lemma_shown_after_step(l, v, (row - min_row) * l.cols(v) + (col - min_col));
                }
                let x: i64 = col * horiz_spacing + x_offset;
                let pos = Point { x, y };
                if viewport.contains(pos) {
                    push_circle(&mut circles, pos, point_size, color);
                }
                col = col + 1;
            }
            proof {
                assert((row - min_row) * l.cols(v) + l.cols(v) == (row + 1 - min_row) * l.cols(v))
                    by (nonlinear_arith);
            }
            row = row + 1;
        }
        proof {
            lemma_shown_after_all(l, v);
            assert(l.cols(v) * l.rows(v) == (row - min_row) * l.cols(v)) by (nonlinear_arith)
                requires
                    l.rows(v) == row - min_row || l.cols(v) == 0,
            ;
        }
        circles
    }

    /// The lattice with flat tops: column by column, one column and one row
    /// beyond the viewport on every side, keeping the vertices that lie in
    /// the viewport.
    #[verifier::loop_isolation(false)]
    fn draw_hex_flat(&self, viewport: &Rect, color: Color, point_size: i64) -> (circles: Vec<
        Circle,
    >)
        requires
            self.wf(),
            self.grid_type == SnapGridType::HexFlat,
            viewport.in_range(),
        ensures
            centers(circles@) == self@.visible_vertices(viewport@),
            all_styled(circles@, point_size, color),
    {
        let ghost l = self@;
        let ghost v = viewport@;
        let horiz_spacing: i64 = self.minor_pitch();
        let vert_spacing: i64 = self.size;
        proof {
            lemma_sweep_bounds(l, v);
            lemma_shown_after_none(l, v);
        }
        let min_col: i64 = floor_div_i64(viewport.min.x, horiz_spacing) - 1;
        let max_col: i64 = ceil_div_i64(viewport.max.x, horiz_spacing) + 1;
        let min_row: i64 = floor_div_i64(viewport.min.y, vert_spacing) - 1;
        let max_row: i64 = ceil_div_i64(viewport.max.y, vert_spacing) + 1;
        let mut circles: Vec<Circle> = Vec::new();
        let mut col: i64 = min_col;
        while col <= max_col
            invariant
                min_col <= col,
                col - min_col <= l.cols(v),
                centers(circles@) == l.shown_after(v, (col - min_col) * l.rows(v)),
                all_styled(circles@, point_size, color),
            decreases max_col - col + 1,
        {
            proof {
                lemma_visited_col_bounded(l, v, col as int);
            }
            let x: i64 = col * horiz_spacing;
            let y_offset: i64 = if is_odd_index(col) {
                vert_spacing / 2
            } else {
                0
            };
            let mut row: i64 = min_row;
            while row <= max_row
                invariant
                    min_row <= row,
                    row - min_row <= l.rows(v),
                    centers(circles@) == l.shown_after(
                        v,
                        (col - min_col) * l.rows(v) + (row - min_row),
                    ),
                    all_styled(circles@, point_size, color),
                decreases max_row - row + 1,
            {
                proof {
                    lemma_visited_row_bounded(l, v, row as int);
                    lemma_candidate_at(l, v, col - min_col, row - min_row);
                    lemma_shown_after_step(l, v, (col - min_col) * l.rows(v) + (row - min_row));
                }
                let y: i64 = row * vert_spacing + y_offset;
                let pos = Point { x, y };
                if viewport.contains(pos) {
                    push_circle(&mut circles, pos, point_size, color);
                }
                row = row + 1;
            }
            proof {
                assert((col - min_col) * l.rows(v) + l.rows(v) == (col + 1 - min_col) * l.rows(v))
                    by (nonlinear_arith);
            }
            col = col + 1;
        }
        proof {
            lemma_shown_after_all(l, v);
            assert(l.cols(v) * l.rows(v) == (col - min_col) * l.rows(v)) by (nonlinear_arith)
                requires
                    l.cols(v) == col - min_col || l.rows(v) == 0,
            ;
        }
        circles
    }
}

} // verus!
