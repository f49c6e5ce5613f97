//! Which vertices a viewport shows, and in what order they are visited.

use vstd::prelude::*;
use vstd::arithmetic::div_mod::{lemma_fundamental_div_mod_converse, lemma_fundamental_div_mod,
    lemma_mod_bound};
use crate::geometry::{PointView, RectView, COORD_LIMIT, MAX_SIZE};
use crate::lattice::{SnapGridType, Lattice, Cell, lemma_pitch_bounds, lemma_vertex_injective};
use crate::rounding::{floor_div, ceil_div, lemma_floor_div_bounds, lemma_ceil_div_bounds};

verus! {

/// How many integers lie in `lo ..= hi`.
pub open spec fn span(lo: int, hi: int) -> nat {
    if hi >= lo {
        (hi - lo + 1) as nat
    } else {
        0
    }
}

/// The test "lies in `view`", as a predicate on positions.
pub open spec fn inside(view: RectView) -> spec_fn(PointView) -> bool {
    |p: PointView| view.contains(p)
}

impl Lattice {
    /// How many extra columns and rows are visited beyond the viewport's
    /// edges on each side: one on the hexagonal lattices, whose shifted
    /// lines could otherwise lose a vertex at an edge, none on the square.
    pub open spec fn margin(self) -> int {
        match self.kind {
            SnapGridType::Quad => 0,
            _ => 1,
        }
    }

    /// Whether visited vertices outside the viewport are dropped: on the
    /// hexagonal lattices they are, on the square lattice they are not.
    pub open spec fn clips(self) -> bool {
        self.kind != SnapGridType::Quad
    }

    /// Whether the sweep goes row by row (pointy tops) rather than column by
    /// column (square, flat tops).
    pub open spec fn row_major(self) -> bool {
        self.kind == SnapGridType::HexPointy
    }

    /// The first column visited.
    pub open spec fn first_col(self, view: RectView) -> int {
        floor_div(view.min.x, self.col_pitch()) - self.margin()
    }

    /// The last column visited.
    pub open spec fn last_col(self, view: RectView) -> int {
        ceil_div(view.max.x, self.col_pitch()) + self.margin()
    }

    /// The first row visited.
    pub open spec fn first_row(self, view: RectView) -> int {
        floor_div(view.min.y, self.row_pitch()) - self.margin()
    }

    /// The last row visited.
    pub open spec fn last_row(self, view: RectView) -> int {
        ceil_div(view.max.y, self.row_pitch()) + self.margin()
    }

    /// The number of columns visited.
    pub open spec fn cols(self, view: RectView) -> nat {
        span(self.first_col(view), self.last_col(view))
    }

    /// The number of rows visited.
    pub open spec fn rows(self, view: RectView) -> nat {
        span(self.first_row(view), self.last_row(view))
    }

    /// The `k`-th cell visited.
    pub open spec fn cell_at(self, view: RectView, k: int) -> Cell {
        if self.row_major() {
            Cell {
                col: self.first_col(view) + k % (self.cols(view) as int),
                row: self.first_row(view) + k / (self.cols(view) as int),
            }
        } else {
            Cell {
                col: self.first_col(view) + k / (self.rows(view) as int),
                row: self.first_row(view) + k % (self.rows(view) as int),
            }
        }
    }

    /// Every vertex visited, in the order of the visit: all columns from
    /// first to last crossed with all rows from first to last.
    pub open spec fn candidates(self, view: RectView) -> Seq<PointView> {
        Seq::new(self.cols(view) * self.rows(view), |k: int| self.vertex(self.cell_at(view, k)))
    }

    /// The vertices shown for `view`, in drawing order.
    pub open spec fn visible_vertices(self, view: RectView) -> Seq<PointView> {
        if self.clips() {
            self.candidates(view).filter(inside(view))
        } else {
            self.candidates(view)
        }
    }

    /// What has been shown once the first `k` candidates have been visited.
    pub open spec fn shown_after(self, view: RectView, k: int) -> Seq<PointView> {
        if self.clips() {
            self.candidates(view).take(k).filter(inside(view))
        } else {
            self.candidates(view).take(k)
        }
    }
}

/// `i * n + j` is below `m * n` and splits back into `i` and `j`.
proof fn lemma_flat_index(i: int, j: int, m: int, n: int)
    requires
        0 <= i < m,
        0 <= j < n,
    ensures
        0 <= i * n + j < m * n,
        (i * n + j) / n == i,
        (i * n + j) % n == j,
{
    assert(0 <= i * n && i * n + n <= m * n) by (nonlinear_arith)
        requires
            0 <= i,
            i + 1 <= m,
            0 < n,
    ;
    lemma_fundamental_div_mod_converse(i * n + j, n, i, j);
}

/// Multiplying by a positive pitch keeps the order of indices.
proof fn lemma_scaled_between(lo: int, k: int, hi: int, d: int)
    requires
        lo <= k <= hi,
        d > 0,
    ensures
        lo * d <= k * d <= hi * d,
{
    assert(lo * d <= k * d) by (nonlinear_arith)
        requires
            lo <= k,
            d > 0,
    ;
    assert(k * d <= hi * d) by (nonlinear_arith)
        requires
            k <= hi,
            d > 0,
    ;
}

/// Nothing has been shown before the first candidate is visited.
pub(crate) proof fn lemma_shown_after_none(l: Lattice, view: RectView)
    ensures
        l.shown_after(view, 0) == Seq::<PointView>::empty(),
{
    reveal(Seq::filter);
    assert(l.candidates(view).take(0) =~= Seq::<PointView>::empty());
}

/// Visiting one more candidate shows it, unless the lattice clips and the
/// candidate lies outside the viewport.
pub(crate) proof fn lemma_shown_after_step(l: Lattice, view: RectView, k: int)
    requires
        0 <= k < l.candidates(view).len(),
    ensures
        l.shown_after(view, k + 1) == if !l.clips() || view.contains(l.candidates(view)[k]) {
            l.shown_after(view, k).push(l.candidates(view)[k])
        } else {
            l.shown_after(view, k)
        },
{
    let all = l.candidates(view);
    assert(all.take(k + 1).drop_last() =~= all.take(k));
    assert(all.take(k + 1).last() == all[k]);
    assert(all.take(k + 1) =~= all.take(k).push(all[k]));
    reveal(Seq::filter);
}

/// Once every candidate has been visited, what has been shown is all that
/// the viewport shows.
pub(crate) proof fn lemma_shown_after_all(l: Lattice, view: RectView)
    ensures
        l.shown_after(view, l.candidates(view).len() as int) == l.visible_vertices(view),
{
    let all = l.candidates(view);
    assert(all.take(all.len() as int) =~= all);
}

/// The candidate met in the `i`-th outer and `j`-th inner step of the
/// sweep: its place in the order of the visit, and its vertex.
pub(crate) proof fn lemma_candidate_at(l: Lattice, view: RectView, i: int, j: int)
    requires
        l.row_major() ==> 0 <= i < l.rows(view) && 0 <= j < l.cols(view),
        !l.row_major() ==> 0 <= i < l.cols(view) && 0 <= j < l.rows(view),
    ensures
        ({
            let inner = if l.row_major() {
                l.cols(view) as int
            } else {
                l.rows(view) as int
            };
            let k = i * inner + j;
            let cell = if l.row_major() {
                Cell { col: l.first_col(view) + j, row: l.first_row(view) + i }
            } else {
                Cell { col: l.first_col(view) + i, row: l.first_row(view) + j }
            };
            &&& 0 <= k < l.candidates(view).len()
            &&& l.candidates(view)[k] == l.vertex(cell)
        }),
{
    let cols = l.cols(view) as int;
    let rows = l.rows(view) as int;
    if l.row_major() {
        lemma_flat_index(i, j, rows, cols);
        assert(rows * cols == cols * rows) by (nonlinear_arith);
    } else {
        lemma_flat_index(i, j, cols, rows);
    }
}

/// The sweep starts and ends within two lines of where a coordinate limit
/// would put it, so its indices stay far from the ends of the integer range.
pub(crate) proof fn lemma_sweep_bounds(l: Lattice, view: RectView)
    requires
        l.wf(),
        l.size <= MAX_SIZE,
        view.in_range(),
    ensures
        0 < l.col_pitch() <= MAX_SIZE,
        0 < l.row_pitch() <= MAX_SIZE,
        -(COORD_LIMIT as int) - 2 <= l.first_col(view) <= COORD_LIMIT as int,
        -(COORD_LIMIT as int) <= l.last_col(view) <= COORD_LIMIT as int + 2,
        -(COORD_LIMIT as int) - 2 <= l.first_row(view) <= COORD_LIMIT as int,
        -(COORD_LIMIT as int) <= l.last_row(view) <= COORD_LIMIT as int + 2,
{
    lemma_pitch_bounds(l);
    lemma_index_within(view.min.x, l.col_pitch());
    lemma_index_within(view.max.x, l.col_pitch());
    lemma_index_within(view.min.y, l.row_pitch());
    lemma_index_within(view.max.y, l.row_pitch());
}

/// A visited column lies within two columns of the viewport.
pub(crate) proof fn lemma_visited_col_bounded(l: Lattice, view: RectView, col: int)
    requires
        l.wf(),
        l.first_col(view) <= col <= l.last_col(view),
    ensures
        view.min.x - 2 * l.col_pitch() < col * l.col_pitch() < view.max.x + 2 * l.col_pitch(),
        l.kind == SnapGridType::Quad ==> view.min.x - l.size < col * l.size < view.max.x
            + l.size,
{
    lemma_pitch_bounds(l);
    let cp = l.col_pitch();
    lemma_floor_div_bounds(view.min.x, cp);
    lemma_ceil_div_bounds(view.max.x, cp);
    lemma_scaled_between(l.first_col(view), col, l.last_col(view), cp);
    assert((floor_div(view.min.x, cp) - l.margin()) * cp == floor_div(view.min.x, cp) * cp
        - l.margin() * cp) by (nonlinear_arith);
    assert((ceil_div(view.max.x, cp) + l.margin()) * cp == ceil_div(view.max.x, cp) * cp
        + l.margin() * cp) by (nonlinear_arith);
}

/// A visited row lies within two rows of the viewport.
pub(crate) proof fn lemma_visited_row_bounded(l: Lattice, view: RectView, row: int)
    requires
        l.wf(),
        l.first_row(view) <= row <= l.last_row(view),
    ensures
        view.min.y - 2 * l.row_pitch() < row * l.row_pitch() < view.max.y + 2 * l.row_pitch(),
        l.kind == SnapGridType::Quad ==> view.min.y - l.size < row * l.size < view.max.y
            + l.size,
{
    lemma_pitch_bounds(l);
    let rp = l.row_pitch();
    lemma_floor_div_bounds(view.min.y, rp);
    lemma_ceil_div_bounds(view.max.y, rp);
    lemma_scaled_between(l.first_row(view), row, l.last_row(view), rp);
    assert((floor_div(view.min.y, rp) - l.margin()) * rp == floor_div(view.min.y, rp) * rp
        - l.margin() * rp) by (nonlinear_arith);
    assert((ceil_div(view.max.y, rp) + l.margin()) * rp == ceil_div(view.max.y, rp) * rp
        + l.margin() * rp) by (nonlinear_arith);
}

/// Dividing by a positive pitch does not increase a magnitude.
proof fn lemma_index_within(a: int, d: int)
    requires
        d > 0,
    ensures
        -vstd::math::abs(a) <= floor_div(a, d) <= vstd::math::abs(a),
        -vstd::math::abs(a) <= ceil_div(a, d) <= vstd::math::abs(a),
{
    lemma_floor_div_bounds(a, d);
    lemma_ceil_div_bounds(a, d);
    let f = floor_div(a, d);
    let c = ceil_div(a, d);
    let m = vstd::math::abs(a) as int;
    if f > m {
        assert(f * d >= (m + 1) * d) by (nonlinear_arith)
            requires
                f >= m + 1,
                d > 0,
        ;
        assert((m + 1) * d >= m + 1) by (nonlinear_arith)
            requires
                m + 1 >= 0,
                d >= 1,
        ;
    }
    if f < -m {
        assert(f * d + d <= (-m) * d) by (nonlinear_arith)
            requires
                f + 1 <= -m,
                d > 0,
        ;
        assert((-m) * d <= -m) by (nonlinear_arith)
            requires
                m >= 0,
                d >= 1,
        ;
    }
    if c > m {
        assert(c * d - d >= m * d) by (nonlinear_arith)
            requires
                c - 1 >= m,
                d > 0,
        ;
        assert(m * d >= m) by (nonlinear_arith)
            requires
                m >= 0,
                d >= 1,
        ;
    }
    if c < -m {
        assert(c * d <= (-m - 1) * d) by (nonlinear_arith)
            requires
                c <= -m - 1,
                d > 0,
        ;
        assert((-m - 1) * d <= -m - 1) by (nonlinear_arith)
            requires
                m + 1 >= 0,
                d >= 1,
        ;
    }
}

/// Between the floor of `a / d` and the ceiling of `b / d` lie at most
/// `(b - a) / d + 3` integers.
proof fn lemma_span_bounded(a: int, b: int, d: int)
    requires
        d > 0,
        a <= b,
    ensures
        floor_div(a, d) <= ceil_div(b, d),
        ceil_div(b, d) - floor_div(a, d) <= (b - a) / d + 2,
        (b - a) / d >= 0,
{
    let f = floor_div(a, d);
    let c = ceil_div(b, d);
    let q = (b - a) / d;
    lemma_floor_div_bounds(a, d);
    lemma_ceil_div_bounds(b, d);
    lemma_floor_div_bounds(b - a, d);
    if f > c {
        assert(f * d >= c * d + d) by (nonlinear_arith)
            requires
                f >= c + 1,
                d > 0,
        ;
    }
    if c - f > q + 2 {
        assert(c * d - f * d >= q * d + 3 * d) by (nonlinear_arith)
            requires
                c - f >= q + 3,
                d > 0,
        ;
    }
    if q < 0 {
        assert(q * d + d <= 0) by (nonlinear_arith)
            requires
                q + 1 <= 0,
                d > 0,
        ;
    }
}

/// The number of vertices shown is bounded by the viewport's extent
/// measured in cells.
///
/// For a viewport with `min <= max` on both axes, no more than
/// `(width / col_pitch + 5) * (height / row_pitch + 5)` vertices are
/// visited, on the square lattice no more than
/// `(width / size + 3) * (height / size + 3)`, and no more are shown than
/// are visited.
pub proof fn lemma_vertex_count_bounded(l: Lattice, view: RectView)
    requires
        l.wf(),
        view.min.x <= view.max.x,
        view.min.y <= view.max.y,
    ensures
        l.visible_vertices(view).len() <= l.candidates(view).len(),
        l.candidates(view).len() == l.cols(view) * l.rows(view),
        l.cols(view) <= view.width() / l.col_pitch() + 3 + 2 * l.margin(),
        l.rows(view) <= view.height() / l.row_pitch() + 3 + 2 * l.margin(),
        l.visible_vertices(view).len() <= (view.width() / l.col_pitch() + 5) * (view.height()
            / l.row_pitch() + 5),
        l.kind == SnapGridType::Quad ==> l.visible_vertices(view).len() == l.cols(view)
            * l.rows(view) && l.visible_vertices(view).len() <= (view.width() / l.size + 3) * (
        view.height() / l.size + 3),
{
    lemma_pitch_bounds(l);
    lemma_span_bounded(view.min.x, view.max.x, l.col_pitch());
    lemma_span_bounded(view.min.y, view.max.y, l.row_pitch());
    l.candidates(view).lemma_filter_len(inside(view));
    let c = l.cols(view) as int;
    let r = l.rows(view) as int;
    let cb = view.width() / l.col_pitch() + 3 + 2 * l.margin();
    let rb = view.height() / l.row_pitch() + 3 + 2 * l.margin();
    assert(c * r <= cb * rb) by (nonlinear_arith)
        requires
            0 <= c <= cb,
            0 <= r <= rb,
    ;
    let cw = view.width() / l.col_pitch() + 5;
    let rw = view.height() / l.row_pitch() + 5;
    assert(cb * rb <= cw * rw) by (nonlinear_arith)
        requires
            0 <= cb <= cw,
            0 <= rb <= rw,
    ;
}

/// Every vertex shown is a vertex of the lattice.
pub proof fn lemma_shown_are_vertices(l: Lattice, view: RectView, i: int)
    requires
        0 <= i < l.visible_vertices(view).len(),
    ensures
        l.is_vertex(l.visible_vertices(view)[i]),
{
    let all = l.candidates(view);
    let p = l.visible_vertices(view)[i];
    if l.clips() {
        assert(all.filter(inside(view)).contains(p));
        all.lemma_filter_contains_rev(inside(view), p);
    }
    assert(all.contains(p));
    let k = choose|k: int| 0 <= k < all.len() && all[k] == p;
    assert(l.vertex(l.cell_at(view, k)) == p);
}

/// On the hexagonal lattices every vertex shown lies in the viewport, its
/// edges included.
pub proof fn lemma_hex_shown_lie_inside(l: Lattice, view: RectView, i: int)
    requires
        l.clips(),
        0 <= i < l.visible_vertices(view).len(),
    ensures
        view.contains(l.visible_vertices(view)[i]),
{
    l.candidates(view).lemma_filter_pred(inside(view), i);
}

/// On the square lattice a vertex shown may lie outside the viewport, but
/// by less than one cell on either axis.
pub proof fn lemma_quad_shown_lie_near(l: Lattice, view: RectView, i: int)
    requires
        l.wf(),
        l.kind == SnapGridType::Quad,
        0 <= i < l.visible_vertices(view).len(),
    ensures
        view.min.x - l.size < l.visible_vertices(view)[i].x < view.max.x + l.size,
        view.min.y - l.size < l.visible_vertices(view)[i].y < view.max.y + l.size,
{
    let cols = l.cols(view) as int;
    let rows = l.rows(view) as int;
    assert(rows > 0 && cols > 0) by (nonlinear_arith)
        requires
            0 <= i < cols * rows,
            cols >= 0,
            rows >= 0,
    ;
    lemma_fundamental_div_mod(i, rows);
    lemma_mod_bound(i, rows);
    let c = i / rows;
    assert(0 <= c < cols) by (nonlinear_arith)
        requires
            0 <= i < cols * rows,
            i == rows * c + i % rows,
            0 <= i % rows < rows,
    ;
    let cell = l.cell_at(view, i);
    lemma_visited_col_bounded(l, view, cell.col);
    lemma_visited_row_bounded(l, view, cell.row);
}

/// No vertex is missed: a vertex of the lattice that lies in the viewport
/// is among those shown.
pub proof fn lemma_vertices_inside_are_shown(l: Lattice, view: RectView, c: Cell)
    requires
        l.wf(),
        view.contains(l.vertex(c)),
    ensures
        l.visible_vertices(view).contains(l.vertex(c)),
{
    lemma_pitch_bounds(l);
    let cp = l.col_pitch();
    let rp = l.row_pitch();
    let p = l.vertex(c);
    lemma_floor_div_bounds(view.min.x, cp);
    lemma_ceil_div_bounds(view.max.x, cp);
    lemma_floor_div_bounds(view.min.y, rp);
    lemma_ceil_div_bounds(view.max.y, rp);
    let fc = floor_div(view.min.x, cp);
    let lc = ceil_div(view.max.x, cp);
    let fr = floor_div(view.min.y, rp);
    let lr = ceil_div(view.max.y, rp);
    // The column: c.col * cp is within [min.x - shift, max.x].
    if c.col < fc - l.margin() {
        assert(c.col * cp + cp <= (fc - l.margin()) * cp) by (nonlinear_arith)
            requires
                c.col + 1 <= fc - l.margin(),
                cp > 0,
        ;
        assert((fc - l.margin()) * cp == fc * cp - l.margin() * cp) by (nonlinear_arith);
    }
    if c.col > lc + l.margin() {
        assert(c.col * cp >= (lc + l.margin()) * cp + cp) by (nonlinear_arith)
            requires
                c.col >= lc + l.margin() + 1,
                cp > 0,
        ;
        assert((lc + l.margin()) * cp == lc * cp + l.margin() * cp) by (nonlinear_arith);
    }
    if c.row < fr - l.margin() {
        assert(c.row * rp + rp <= (fr - l.margin()) * rp) by (nonlinear_arith)
            requires
                c.row + 1 <= fr - l.margin(),
                rp > 0,
        ;
        assert((fr - l.margin()) * rp == fr * rp - l.margin() * rp) by (nonlinear_arith);
    }
    if c.row > lr + l.margin() {
        assert(c.row * rp >= (lr + l.margin()) * rp + rp) by (nonlinear_arith)
            requires
                c.row >= lr + l.margin() + 1,
                rp > 0,
        ;
        assert((lr + l.margin()) * rp == lr * rp + l.margin() * rp) by (nonlinear_arith);
    }
    assert(l.first_col(view) <= c.col <= l.last_col(view));
    assert(l.first_row(view) <= c.row <= l.last_row(view));
    let all = l.candidates(view);
    let i = if l.row_major() {
        c.row - l.first_row(view)
    } else {
        c.col - l.first_col(view)
    };
    let j = if l.row_major() {
        c.col - l.first_col(view)
    } else {
        c.row - l.first_row(view)
    };
    lemma_candidate_at(l, view, i, j);
    let inner = if l.row_major() {
        l.cols(view) as int
    } else {
        l.rows(view) as int
    };
    let k = i * inner + j;
    assert(all[k] == p);
    if l.clips() {
        all.lemma_filter_contains(inside(view), k);
    } else {
        assert(all.contains(p));
    }
}

/// Dropping elements from a run without repeats leaves no repeats.
proof fn lemma_filter_keeps_distinct<A>(s: Seq<A>, pred: spec_fn(A) -> bool)
    requires
        s.no_duplicates(),
    ensures
        s.filter(pred).no_duplicates(),
    decreases s.len(),
{
    reveal(Seq::filter);
    if s.len() > 0 {
        let head = s.drop_last();
        lemma_filter_keeps_distinct(head, pred);
        let kept = head.filter(pred);
        if pred(s.last()) {
            assert forall|i: int| 0 <= i < kept.len() implies kept[i] != s.last() by {
                assert(kept.contains(kept[i]));
                head.lemma_filter_contains_rev(pred, kept[i]);
                let j = choose|j: int| 0 <= j < head.len() && head[j] == kept[i];
                assert(s[j] == head[j]);
            }
        }
    }
}

/// No vertex is visited twice.
pub proof fn lemma_candidates_distinct(l: Lattice, view: RectView)
    requires
        l.wf(),
    ensures
        l.candidates(view).no_duplicates(),
{
    let all = l.candidates(view);
    let d = if l.row_major() {
        l.cols(view) as int
    } else {
        l.rows(view) as int
    };
    assert forall|i: int, j: int| 0 <= i < all.len() && 0 <= j < all.len() && i != j implies all[i]
        != all[j] by {
        assert(d > 0) by (nonlinear_arith)
            requires
                0 <= i < l.cols(view) * l.rows(view),
                d == l.cols(view) || d == l.rows(view),
        ;
        lemma_fundamental_div_mod(i, d);
        lemma_fundamental_div_mod(j, d);
        if all[i] == all[j] {
            lemma_vertex_injective(l, l.cell_at(view, i), l.cell_at(view, j));
        }
    }
}

/// No vertex is shown twice.
pub proof fn lemma_shown_once(l: Lattice, view: RectView)
    requires
        l.wf(),
    ensures
        l.visible_vertices(view).no_duplicates(),
{
    lemma_candidates_distinct(l, view);
    lemma_filter_keeps_distinct(l.candidates(view), inside(view));
}

} // verus!
