//! Rendering surfaces and the terminal context that owns the primary one.

use vstd::prelude::*;

verus! {

/// A rectangular rendering destination: a grid of `rows` by `cols` cells.
#[derive(Clone, Copy, Debug, PartialEq, Eq, Structural)]
pub struct NcPlane {
    pub rows: i32,
    pub cols: i32,
}

impl NcPlane {
    /// Returns a surface of `rows` by `cols` cells.
    pub fn new(rows: i32, cols: i32) -> (r: NcPlane)
        ensures
            r.rows == rows,
            r.cols == cols,
    {
        NcPlane { rows, cols }
    }

    /// Changes the extent of the surface to `rows` by `cols` cells.
    pub fn resize(&mut self, rows: i32, cols: i32)
        ensures
            final(self).rows == rows,
            final(self).cols == cols,
    {
        self.rows = rows;
        self.cols = cols;
    }

    /// Writes the current extent of the surface to `y` (rows) and `x` (columns).
    pub fn dim_yx(&self, y: &mut i32, x: &mut i32)
        ensures
            *final(y) == self.rows,
            *final(x) == self.cols,
    {
        *y = self.rows;
        *x = self.cols;
    }
}

/// A terminal context, owning the primary drawing surface.
#[derive(Debug)]
pub struct Notcurses {
    pub stdplane: NcPlane,
}

impl Notcurses {
    /// Returns a context whose primary surface spans `rows` by `cols` cells.
    pub fn new(rows: i32, cols: i32) -> (r: Notcurses)
        ensures
            r.stdplane.rows == rows,
            r.stdplane.cols == cols,
    {
        Notcurses { stdplane: NcPlane::new(rows, cols) }
    }
}

/// Returns the primary surface, and writes its extent to `y` (rows) and
/// `x` (columns).
pub fn notcurses_stddim_yx(nc: &mut Notcurses, y: &mut i32, x: &mut i32) -> (r: NcPlane)
    ensures
        *final(nc) == *old(nc),
        r == old(nc).stdplane,
        *final(y) == old(nc).stdplane.rows,
        *final(x) == old(nc).stdplane.cols,
{
    nc.stdplane.dim_yx(y, x);
    nc.stdplane
}

/// Writes the current terminal extent, that of the primary surface, to
/// `rows` and `cols`.
pub fn notcurses_term_dim_yx(nc: &Notcurses, rows: &mut i32, cols: &mut i32)
    ensures
        *final(rows) == nc.stdplane.rows,
        *final(cols) == nc.stdplane.cols,
{
    nc.stdplane.dim_yx(rows, cols);
}

} // verus!
