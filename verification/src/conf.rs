//! Immutable board configuration: grid extent in cells, the pixel size of
//! one cell, and the simulation tick rate. Created once at startup and
//! never mutated; the derived window size in pixels is computed here so
//! that the rendering layer only reads it.

use vstd::prelude::*;

verus! {

/// The fixed parameters of a game session.
///
/// All four inputs must be positive; `GameConf::new` demands this rather
/// than accept a degenerate board, so a zero or negative grid can never
/// reach the simulation.
#[derive(Copy, Clone, Debug)]
pub struct GameConf {
    /// Number of grid columns (cells along the x axis).
    pub cols: u32,
    /// Number of grid rows (cells along the y axis).
    pub rows: u32,
    /// Side length of one cell, in pixels.
    pub cell_size: u32,
    /// Simulation ticks per second.
    pub fps: u32,
    /// Window width in pixels: `cols * cell_size`.
    pub window_w: u64,
    /// Window height in pixels: `rows * cell_size`.
    pub window_h: u64,
}

impl GameConf {
    /// A configuration is well formed when every parameter is positive and
    /// the window size is exactly the grid extent scaled by the cell size.
    pub open spec fn wf(self) -> bool {
        &&& self.cols >= 1
        &&& self.rows >= 1
        &&& self.cell_size >= 1
        &&& self.fps >= 1
        &&& self.window_w == self.cols * self.cell_size
        &&& self.window_h == self.rows * self.cell_size
    }

    /// Builds the configuration and derives the window pixel size.
    pub fn new(cols: u32, rows: u32, cell_size: u32, fps: u32) -> (c: GameConf)
        requires
            cols >= 1,
            rows >= 1,
            cell_size >= 1,
            fps >= 1,
        ensures
            c.cols == cols,
            c.rows == rows,
            c.cell_size == cell_size,
            c.fps == fps,
            c.wf(),
    {
        proof {
            assert(cols * cell_size <= u64::MAX && rows * cell_size <= u64::MAX)
                by (nonlinear_arith)
                requires
                    cols <= u32::MAX,
                    rows <= u32::MAX,
                    cell_size <= u32::MAX,
            ;
        }
        GameConf {
            cols,
            rows,
            cell_size,
            fps,
            window_w: cols as u64 * cell_size as u64,
            window_h: rows as u64 * cell_size as u64,
        }
    }
}

} // verus!
