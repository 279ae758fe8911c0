//! Terminal sizes.
use vstd::prelude::*;

verus! {

/// The size of a terminal.
#[derive(Clone, Copy, Debug, PartialEq, Eq, Structural)]
pub struct Size {
    /// The number of horizontal cells.
    pub columns: u32,
    /// The number of vertical cells.
    pub rows: u32,
    /// The number of horizontal pixels.
    pub width: u32,
    /// The number of vertical pixels.
    pub height: u32,
}

/// The size of a cell in pixels: none where the pixel size is unknown.
pub open spec fn cell_of(size: Size) -> (u32, u32) {
    if size.width == 0 || size.height == 0 {
        (0, 0)
    } else {
        ((size.width / size.columns) as u32, (size.height / size.rows) as u32)
    }
}

/// The cells of a known pixel size tile the terminal: the cells of a row
/// take at most its width and less than one cell more, and the same holds
/// of a column and its height.
pub proof fn lemma_cells_fit(size: Size)
    requires
        size.width != 0,
        size.height != 0,
        size.columns != 0,
        size.rows != 0,
    ensures
        cell_of(size).0 * size.columns <= size.width < (cell_of(size).0 + 1) * size.columns,
        cell_of(size).1 * size.rows <= size.height < (cell_of(size).1 + 1) * size.rows,
{
    let (w, h, c, r) = (size.width as int, size.height as int, size.columns as int, size.rows as int);
    assert(w / c * c <= w < (w / c + 1) * c) by (nonlinear_arith)
        requires
            c > 0,
    {
        vstd::arithmetic::div_mod::lemma_fundamental_div_mod(w, c);
    }
    assert(h / r * r <= h < (h / r + 1) * r) by (nonlinear_arith)
        requires
            r > 0,
    {
        vstd::arithmetic::div_mod::lemma_fundamental_div_mod(h, r);
    }
}

impl Size {
    /// The number of horizontal cells.
    pub fn columns(&self) -> (r: u32)
        ensures
            r == self.columns,
    {
        self.columns
    }

    /// The number of vertical cells.
    pub fn rows(&self) -> (r: u32)
        ensures
            r == self.rows,
    {
        self.rows
    }

    /// The number of horizontal pixels.
    pub fn width(&self) -> (r: u32)
        ensures
            r == self.width,
    {
        self.width
    }

    /// The number of vertical pixels.
    pub fn height(&self) -> (r: u32)
        ensures
            r == self.height,
    {
        self.height
    }

    /// The size of a single cell in pixels.
    pub fn cell(&self) -> (r: (u32, u32))
        requires
            self.width != 0 && self.height != 0 ==> self.columns != 0 && self.rows != 0,
        ensures
            r == cell_of(*self),
    {
        if self.width == 0 || self.height == 0 {
            (0, 0)
        } else {
            (self.width / self.columns, self.height / self.rows)
        }
    }
}

} // verus!
