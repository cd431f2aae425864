//! Closed-form layout arithmetic for a uniformly gapped grid of cells.
//!
//! Every value is a percentage of the parent container.  A grid of
//! `cols x rows` cells keeps `gap` percent of free space before, between and
//! after the cells on each axis, so one column is
//! `(100 - gap*(cols+1)) / cols` percent wide.  That quotient is rarely a
//! whole number, so positions and sizes are returned as exact fractions; the
//! rendering shell divides only when it hands a value to the screen.

use vstd::prelude::*;

verus! {

/// An exact fraction: the value is `num / den` percent of the parent
/// container's extent.
#[derive(Clone, Copy, Debug, PartialEq, Eq, Structural)]
pub struct Frac {
    pub num: u64,
    pub den: u64,
}

/// A point or an extent of the grid plane: one fraction per axis.
#[derive(Clone, Copy, Debug, PartialEq, Eq, Structural)]
pub struct GridPoint {
    pub x: Frac,
    pub y: Frac,
}

/// A uniformly gapped grid of `cols x rows` cells measured in percent of the
/// parent container.
#[derive(Clone, Copy, Debug, PartialEq, Eq, Structural)]
pub struct GridLayout {
    pub cols: u16,
    pub rows: u16,
    pub gap: u16,
}

impl GridLayout {
    /// The gaps alone must not fill the container: on each axis the cells
    /// keep a positive share of the 100 percent.
    pub open spec fn wf(self) -> bool {
        &&& 1 <= self.cols
        &&& 1 <= self.rows
        &&& self.gap * (self.cols + 1) < 100
        &&& self.gap * (self.rows + 1) < 100
    }

    /// Numerator of one column's width over the denominator `cols`.
    pub open spec fn col_width_num(self) -> int {
        100 - self.gap * (self.cols + 1)
    }

    /// Numerator of one row's height over the denominator `rows`.
    pub open spec fn row_height_num(self) -> int {
        100 - self.gap * (self.rows + 1)
    }

    /// Numerator of the horizontal position of column `x`, over `cols`:
    /// `x+1` gaps followed by `x` columns.
    pub open spec fn pos_x_num(self, x: int) -> int {
        self.gap * (x + 1) * self.cols + x * self.col_width_num()
    }

    /// Numerator of the vertical position of row `y`, over `rows`.
    pub open spec fn pos_y_num(self, y: int) -> int {
        self.gap * (y + 1) * self.rows + y * self.row_height_num()
    }

    /// Numerator of the width of a `cs`-column span, over `cols`: `cs`
    /// columns plus the `cs - 1` gaps they enclose.
    pub open spec fn size_x_num(self, cs: int) -> int {
        cs * self.col_width_num() + (if cs >= 1 { (cs - 1) * self.gap * self.cols } else { 0 })
    }

    /// Numerator of the height of an `rs`-row span, over `rows`.
    pub open spec fn size_y_num(self, rs: int) -> int {
        rs * self.row_height_num() + (if rs >= 1 { (rs - 1) * self.gap * self.rows } else { 0 })
    }

    /// Normalized position of the cell in column `x`, row `y`.
    pub fn get_pos(&self, x: u16, y: u16) -> (r: GridPoint)
        requires
            self.wf(),
        ensures
            r.x.num == self.pos_x_num(x as int),
            r.x.den == self.cols,
            r.y.num == self.pos_y_num(y as int),
            r.y.den == self.rows,
    {
        proof {
            lemma_gap_small(*self);
        }
        let gap: u64 = self.gap as u64;
        let cols: u64 = self.cols as u64;
        let rows: u64 = self.rows as u64;
        let xw: u64 = 100 - gap * (cols + 1);
        let yw: u64 = 100 - gap * (rows + 1);
        let xi: u64 = x as u64;
        let yi: u64 = y as u64;
        proof {
            assert(gap * (xi + 1) <= 49 * 65536 && gap * (xi + 1) * cols <= 49 * 65536 * 65535
                && (xi * xw) <= 65535 * 100) by (nonlinear_arith)
                requires
                    gap <= 49,
                    xi <= 65535,
                    cols <= 65535,
                    xw <= 100,
            ;
            assert(gap * (yi + 1) <= 49 * 65536 && gap * (yi + 1) * rows <= 49 * 65536 * 65535
                && (yi * yw) <= 65535 * 100) by (nonlinear_arith)
                requires
                    gap <= 49,
                    yi <= 65535,
                    rows <= 65535,
                    yw <= 100,
            ;
        }
        GridPoint {
            x: Frac { num: gap * (xi + 1) * cols + xi * xw, den: cols },
            y: Frac { num: gap * (yi + 1) * rows + yi * yw, den: rows },
        }
    }

    /// Normalized size of a span of `colspan` columns and `rowspan` rows.
    pub fn get_size(&self, colspan: u16, rowspan: u16) -> (r: GridPoint)
        requires
            self.wf(),
        ensures
            r.x.num == self.size_x_num(colspan as int),
            r.x.den == self.cols,
            r.y.num == self.size_y_num(rowspan as int),
            r.y.den == self.rows,
    {
        proof {
            lemma_gap_small(*self);
        }
        let gap: u64 = self.gap as u64;
        let cols: u64 = self.cols as u64;
        let rows: u64 = self.rows as u64;
        let xw: u64 = 100 - gap * (cols + 1);
        let yw: u64 = 100 - gap * (rows + 1);
        let cs: u64 = colspan as u64;
        let rs: u64 = rowspan as u64;
        let cs1: u64 = if cs >= 1 { cs - 1 } else { 0 };
        let rs1: u64 = if rs >= 1 { rs - 1 } else { 0 };
        proof {
            assert(cs * xw <= 65535 * 100 && cs1 * gap <= 65535 * 49 && cs1 * gap * cols <= 65535
                * 49 * 65535) by (nonlinear_arith)
                requires
                    gap <= 49,
                    cs <= 65535,
                    cs1 <= 65535,
                    cols <= 65535,
                    xw <= 100,
            ;
            assert(rs * yw <= 65535 * 100 && rs1 * gap <= 65535 * 49 && rs1 * gap * rows <= 65535
                * 49 * 65535) by (nonlinear_arith)
                requires
                    gap <= 49,
                    rs <= 65535,
                    rs1 <= 65535,
                    rows <= 65535,
                    yw <= 100,
            ;
        }
        let num_x: u64 = cs * xw + cs1 * gap * cols;
        let num_y: u64 = rs * yw + rs1 * gap * rows;
        proof {
            assert(cs * xw == colspan * self.col_width_num() && rs * yw == rowspan
                * self.row_height_num()) by (nonlinear_arith)
                requires
                    cs == colspan,
                    xw == self.col_width_num(),
                    rs == rowspan,
                    yw == self.row_height_num(),
            ;
            if colspan >= 1 {
                assert(cs1 * gap * cols == (colspan - 1) * self.gap * self.cols)
                    by (nonlinear_arith)
                    requires
                        cs1 == colspan - 1,
                        gap == self.gap,
                        cols == self.cols,
                ;
            } else {
                assert(cs1 * gap * cols == 0) by (nonlinear_arith)
                    requires
                        cs1 == 0,
                ;
            }
            if rowspan >= 1 {
                assert(rs1 * gap * rows == (rowspan - 1) * self.gap * self.rows)
                    by (nonlinear_arith)
                    requires
                        rs1 == rowspan - 1,
                        gap == self.gap,
                        rows == self.rows,
                ;
            } else {
                assert(rs1 * gap * rows == 0) by (nonlinear_arith)
                    requires
                        rs1 == 0,
                ;
            }
            assert(num_x == self.size_x_num(colspan as int));
            assert(num_y == self.size_y_num(rowspan as int));
        }
        GridPoint {
            x: Frac { num: num_x, den: cols },
            y: Frac { num: num_y, den: rows },
        }
    }
}

/// In a well-formed grid the gap is below half of the container, since at
/// least two gaps fit on each axis.
proof fn lemma_gap_small(g: GridLayout)
    requires
        g.wf(),
    ensures
        g.gap <= 49,
        g.col_width_num() <= 100,
        g.row_height_num() <= 100,
        0 < g.col_width_num(),
        0 < g.row_height_num(),
{
    assert(g.gap * 2 <= g.gap * (g.cols + 1)) by (nonlinear_arith)
        requires
            1 <= g.cols,
            0 <= g.gap,
    ;
    assert(0 <= g.gap * (g.cols + 1)) by (nonlinear_arith)
        requires
            0 <= g.gap,
            1 <= g.cols,
    ;
    assert(0 <= g.gap * (g.rows + 1)) by (nonlinear_arith)
        requires
            0 <= g.gap,
            1 <= g.rows,
    ;
}

/// Law of the grid: every cell lies inside the container.  For any valid
/// column `x` and row `y`, the cell's position plus the size of a single
/// `1 x 1` span stays within `[0, 100]` percent on both axes.  Positions and
/// sizes over one axis share the denominator (`cols` or `rows`), so the
/// bounds are stated over the numerators: a fraction `n / den` lies in
/// `[0, 100]` exactly when `0 <= n <= 100 * den`.
pub proof fn lemma_cell_within_bounds(g: GridLayout, x: int, y: int)
    requires
        g.wf(),
        0 <= x < g.cols,
        0 <= y < g.rows,
    ensures
        0 <= g.pos_x_num(x),
        g.pos_x_num(x) + g.size_x_num(1) <= 100 * g.cols,
        0 <= g.pos_y_num(y),
        g.pos_y_num(y) + g.size_y_num(1) <= 100 * g.rows,
{
    lemma_cell_axis(g.gap as int, g.cols as int, x);
    lemma_cell_axis(g.gap as int, g.rows as int, y);
    assert((1 - 1) * g.gap * g.cols == 0) by (nonlinear_arith);
    assert((1 - 1) * g.gap * g.rows == 0) by (nonlinear_arith);
    assert(1 * g.col_width_num() == g.col_width_num()) by (nonlinear_arith);
    assert(1 * g.row_height_num() == g.row_height_num()) by (nonlinear_arith);
    assert(g.size_x_num(1) == g.col_width_num());
    assert(g.size_y_num(1) == g.row_height_num());
}

/// One axis of `lemma_cell_within_bounds`: on an axis of `n` cells with a
/// `gap` that leaves the cells room, cell `x` ends at most at the container's
/// far edge.
proof fn lemma_cell_axis(gap: int, n: int, x: int)
    requires
        0 <= x < n,
        0 <= gap,
        gap * (n + 1) < 100,
    ensures
        0 <= gap * (x + 1) * n + x * (100 - gap * (n + 1)),
        gap * (x + 1) * n + x * (100 - gap * (n + 1)) + (100 - gap * (n + 1)) <= 100 * n,
{
    let w = 100 - gap * (n + 1);
    assert(gap <= gap * (n + 1)) by (nonlinear_arith)
        requires
            0 <= gap,
            1 <= n,
    ;
    assert(0 <= gap * (x + 1) * n && 0 <= x * w) by (nonlinear_arith)
        requires
            0 <= gap,
            0 <= x,
            0 < n,
            0 < w,
    ;
    assert(gap * (x + 1) * n + (x + 1) * w == (x + 1) * (100 - gap)) by (nonlinear_arith)
        requires
            w == 100 - gap * (n + 1),
    ;
    assert((x + 1) * (100 - gap) <= n * (100 - gap) && n * (100 - gap) <= 100 * n)
        by (nonlinear_arith)
        requires
            x + 1 <= n,
            0 <= gap <= 100,
            0 < n,
    ;
    assert(gap * (x + 1) * n + x * w + w == gap * (x + 1) * n + (x + 1) * w) by (nonlinear_arith);
}

} // verus!
