//! The tile grid of a level: rows and columns of tile ids, and the size of a
//! cell.
//!
//! Cells are addressed row by row; the cell in row `r` and column `c` has the
//! linear index `r * columns + c`. The grid's top-left corner is the origin of
//! the world, x grows to the right and y grows downward.

use vstd::prelude::*;
use vstd::arithmetic::div_mod::{lemma_fundamental_div_mod, lemma_div_pos_is_pos};
use vstd::arithmetic::mul::{lemma_mul_inequality, lemma_mul_is_commutative};
use crate::units::UNIT;

verus! {

/// What a tile grid is, as a value.
pub struct GridView {
    pub columns: nat,
    pub rows: nat,
    /// Width of a cell in pixels.
    pub tile_width: nat,
    /// Height of a cell in pixels.
    pub tile_height: nat,
    /// The tile id of every cell, row by row.
    pub cells: Seq<u16>,
}

impl GridView {
    /// The grid has a cell for every row and column, as many as can be
    /// addressed, and a cell has a size.
    pub open spec fn wf(self) -> bool {
        &&& self.cells.len() == self.rows * self.columns
        &&& self.cells.len() <= usize::MAX
        &&& 0 < self.tile_width <= u16::MAX
        &&& 0 < self.tile_height <= u16::MAX
    }

    /// Width of a cell in sub-pixel units.
    pub open spec fn cell_width(self) -> int {
        self.tile_width * UNIT
    }

    /// Height of a cell in sub-pixel units.
    pub open spec fn cell_height(self) -> int {
        self.tile_height * UNIT
    }

    /// The column that a world x-coordinate falls in; columns left of the
    /// grid have negative numbers.
    pub open spec fn column_at(self, x: int) -> int {
        x / self.cell_width()
    }

    /// The row that a world y-coordinate falls in.
    pub open spec fn row_at(self, y: int) -> int {
        y / self.cell_height()
    }

    /// The point lies on a cell of the grid.
    pub open spec fn covers(self, x: int, y: int) -> bool {
        &&& 0 <= self.column_at(x) < self.columns
        &&& 0 <= self.row_at(y) < self.rows
    }

    /// The linear index of the cell under a point.
    pub open spec fn loc_at(self, x: int, y: int) -> int
        recommends
            self.covers(x, y),
    {
        self.row_at(y) * self.columns + self.column_at(x)
    }

    /// The linear index of the cell directly above a cell, if there is one.
    pub open spec fn loc_above(self, loc: int) -> Option<int> {
        if loc >= self.columns {
            Some(loc - self.columns)
        } else {
            None
        }
    }
}

/// A level's tile grid.
pub struct TileGrid {
    columns: usize,
    rows: usize,
    tile_width: u16,
    tile_height: u16,
    data: Vec<u16>,
}

impl View for TileGrid {
    type V = GridView;

    closed spec fn view(&self) -> GridView {
        GridView {
            columns: self.columns as nat,
            rows: self.rows as nat,
            tile_width: self.tile_width as nat,
            tile_height: self.tile_height as nat,
            cells: self.data@,
        }
    }
}

/// The linear index of a cell lies within the grid's cells.
pub proof fn lemma_loc_in_range(grid: GridView, row: int, column: int)
    requires
        grid.wf(),
        0 <= row < grid.rows,
        0 <= column < grid.columns,
    ensures
        0 <= row * grid.columns + column < grid.cells.len(),
{
    assert(0 <= row * grid.columns) by (nonlinear_arith)
        requires
            0 <= row,
            0 <= grid.columns,
    ;
    assert(row * grid.columns + grid.columns <= grid.rows * grid.columns) by (nonlinear_arith)
        requires
            row + 1 <= grid.rows,
            0 <= grid.columns,
    ;
}

/// A coordinate lies between the two boundaries of the cell it falls in.
pub proof fn lemma_cell_bounds(v: int, span: int)
    requires
        span > 0,
    ensures
        (v / span) * span <= v < (v / span) * span + span,
        v >= 0 ==> v / span >= 0,
        v < 0 ==> v / span < 0,
{
    lemma_fundamental_div_mod(v, span);
    lemma_mul_is_commutative(v / span, span);
    if v >= 0 {
        lemma_div_pos_is_pos(v, span);
    } else {
        if v / span >= 0 {
            lemma_mul_inequality(0, v / span, span);
        }
    }
}

impl TileGrid {
    /// The grid has a cell for every row and column, and a cell has a size.
    #[verifier::type_invariant]
    pub open spec fn wf(&self) -> bool {
        self@.wf()
    }

    /// A grid of `rows` by `columns` cells of the given pixel size, with the
    /// tile ids of its cells row by row. There is no such grid when a cell
    /// has no size or when `data` has not exactly one id for each cell.
    pub fn new(columns: usize, rows: usize, tile_width: u16, tile_height: u16, data: Vec<u16>) -> (g:
        Option<TileGrid>)
        ensures
            g is Some <==> (tile_width > 0 && tile_height > 0 && data@.len() == rows * columns),
            g matches Some(grid) ==> grid.wf() && grid@ == (GridView {
                columns: columns as nat,
                rows: rows as nat,
                tile_width: tile_width as nat,
                tile_height: tile_height as nat,
                cells: data@,
            }),
    {
        if tile_width == 0 || tile_height == 0 {
            return None;
        }
        assert(data@.len() == data.len());
        match rows.checked_mul(columns) {
            Some(n) => {
                if n == data.len() {
                    Some(TileGrid { columns, rows, tile_width, tile_height, data })
                } else {
                    None
                }
            },
            None => None,
        }
    }

    /// The number of columns.
    pub fn columns(&self) -> (n: usize)
        ensures
            n == self@.columns,
    {
        self.columns
    }

    /// The number of rows.
    pub fn rows(&self) -> (n: usize)
        ensures
            n == self@.rows,
    {
        self.rows
    }

    /// Width of a cell in pixels.
    pub fn tile_width(&self) -> (w: u16)
        ensures
            w == self@.tile_width,
    {
        self.tile_width
    }

    /// Height of a cell in pixels.
    pub fn tile_height(&self) -> (h: u16)
        ensures
            h == self@.tile_height,
    {
        self.tile_height
    }

    /// The number of cells.
    pub fn len(&self) -> (n: usize)
        ensures
            n == self@.cells.len(),
    {
        self.data.len()
    }

    /// The tile id of a cell.
    pub fn tile(&self, loc: usize) -> (id: u16)
        requires
            loc < self@.cells.len(),
        ensures
            id == self@.cells[loc as int],
    {
        self.data[loc]
    }

    /// The linear index of the cell under a point, if the point lies on the
    /// grid.
    pub fn locate(&self, x: i64, y: i64) -> (loc: Option<usize>)
        ensures
            loc is Some <==> self@.covers(x as int, y as int),
            loc matches Some(l) ==> l == self@.loc_at(x as int, y as int) && l < self@.cells.len(),
    {
        proof {
            use_type_invariant(self);
        }
        let cell_w: i64 = (self.tile_width as i64) * UNIT;
        let cell_h: i64 = (self.tile_height as i64) * UNIT;
        proof {
            lemma_cell_bounds(x as int, cell_w as int);
            lemma_cell_bounds(y as int, cell_h as int);
        }
        if x < 0 || y < 0 {
            return None;
        }
        let column: u64 = (x / cell_w) as u64;
        let row: u64 = (y / cell_h) as u64;
        if column >= self.columns as u64 || row >= self.rows as u64 {
            return None;
        }
        let r: usize = row as usize;
        let c: usize = column as usize;
        proof {
            lemma_loc_in_range(self@, r as int, c as int);
            assert(0 <= r * self.columns) by (nonlinear_arith);
            assert(self@.cells.len() == self.data.len());
        }
        Some(r * self.columns + c)
    }

    /// The linear index of the cell directly above a cell, if there is one.
    pub fn above(&self, loc: usize) -> (up: Option<usize>)
        ensures
            up is Some <==> self@.loc_above(loc as int) is Some,
            up matches Some(l) ==> self@.loc_above(loc as int) == Some(l as int),
    {
        if loc >= self.columns {
            Some(loc - self.columns)
        } else {
            None
        }
    }
}

} // verus!
