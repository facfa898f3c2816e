//! The coordinate scheme: the strategy that maps a grid cell address to a
//! drawing-surface rectangle and fixes the overall canvas size.
//!
//! Lengths are integers in thousandths of their unit (pixels or percent), so
//! every position the markup carries is computed exactly.

use vstd::prelude::*;

verus! {

/// Largest terminal dimension (columns or rows) a renderer accepts. The
/// bound keeps position arithmetic in `u64` and is small enough that two
/// distinct columns can never round to the same percentage position.
pub const MAX_TERM_DIM: u64 = 20_000;

/// Largest font size, in pixels, a renderer accepts.
pub const MAX_FONT_SIZE: u64 = 10_000;

/// Largest line-height multiplier, in thousandths, a renderer accepts.
pub const MAX_LINE_HEIGHT_MILLI: u64 = 1_000_000;

/// The unit a coordinate is expressed in.
#[derive(Clone, Copy, PartialEq, Eq, Structural, Debug)]
pub enum Unit {
    Px,
    Percent,
}

/// One coordinate or length: a count of thousandths of its unit.
#[derive(Clone, Copy, PartialEq, Eq, Structural, Debug)]
pub struct Coord {
    pub milli: u64,
    pub unit: Unit,
}

/// The drawing-surface rectangle of one cell span.
#[derive(Clone, Copy, PartialEq, Eq, Structural, Debug)]
pub struct CellRect {
    pub x: Coord,
    pub y: Coord,
    pub w: Coord,
    pub h: Coord,
}

/// The three interchangeable layout strategies.
///
/// - `AbsolutePixel`: the canvas size is dictated by the caller; cells sit at
///   absolute pixel positions with no margin.
/// - `Percentage`: cell positions and widths are percentages of the terminal
///   size, with a one-column / half-row margin baked into the denominators;
///   the row height stays an absolute pixel value.
/// - `CharDerived`: absolute pixel positions as in `AbsolutePixel`, with the
///   same one-column / half-row margin as `Percentage`, expressed in pixels;
///   the canvas size derives from terminal size and font metrics.
#[derive(Clone, Copy, PartialEq, Eq, Structural, Debug)]
pub enum SchemeKind {
    AbsolutePixel,
    Percentage,
    CharDerived,
}

/// A coordinate scheme: a strategy plus the fixed geometry it works from.
/// `char_width` and `row_height` are in thousandths of a pixel.
#[derive(Clone, Copy, PartialEq, Eq, Structural, Debug)]
pub struct CoordinateScheme {
    pub kind: SchemeKind,
    pub cols: usize,
    pub rows: usize,
    pub char_width: u64,
    pub row_height: u64,
}

impl CoordinateScheme {
    /// The geometry bounds every renderer instance establishes at
    /// construction; they keep all position arithmetic inside `u64`.
    pub open spec fn wf(&self) -> bool {
        &&& 1 <= self.cols <= MAX_TERM_DIM
        &&& 1 <= self.rows <= MAX_TERM_DIM
        &&& 1 <= self.char_width <= 600 * MAX_FONT_SIZE
        &&& 1 <= self.row_height <= MAX_FONT_SIZE * MAX_LINE_HEIGHT_MILLI
    }

    /// The rectangle of the cell span starting at `(row, col)` and spanning
    /// `width` display columns.
    pub open spec fn spec_cell_rect(&self, row: int, col: int, width: int) -> CellRect {
        match self.kind {
            SchemeKind::Percentage => CellRect {
                x: Coord { milli: (100_000int * col / (self.cols + 2)) as u64, unit: Unit::Percent },
                y: Coord { milli: (100_000int * row / (self.rows + 1)) as u64, unit: Unit::Percent },
                w: Coord {
                    milli: (100_000int * width / (self.cols + 2)) as u64,
                    unit: Unit::Percent,
                },
                h: Coord { milli: self.row_height, unit: Unit::Px },
            },
            _ => CellRect {
                x: Coord { milli: (col * self.char_width) as u64, unit: Unit::Px },
                y: Coord { milli: (row * self.row_height) as u64, unit: Unit::Px },
                w: Coord { milli: (width * self.char_width) as u64, unit: Unit::Px },
                h: Coord { milli: self.row_height, unit: Unit::Px },
            },
        }
    }

    /// Computes the rectangle of one cell span.
    pub fn cell_rect(&self, row: usize, col: usize, width: usize) -> (r: CellRect)
        requires
            self.wf(),
            row <= self.rows,
            col + width <= self.cols + 2,
            width <= 2,
        ensures
            r == self.spec_cell_rect(row as int, col as int, width as int),
    {
        match self.kind {
            SchemeKind::Percentage => CellRect {
                x: Coord {
                    milli: 100_000 * (col as u64) / (self.cols as u64 + 2),
                    unit: Unit::Percent,
                },
                y: Coord {
                    milli: 100_000 * (row as u64) / (self.rows as u64 + 1),
                    unit: Unit::Percent,
                },
                w: Coord {
                    milli: 100_000 * (width as u64) / (self.cols as u64 + 2),
                    unit: Unit::Percent,
                },
                h: Coord { milli: self.row_height, unit: Unit::Px },
            },
            _ => {
                proof {
                    assert((col as u64) * self.char_width <= 100_002u64 * 6_000_000u64)
                        by (nonlinear_arith)
                        requires
                            col as u64 <= 100_002,
                            self.char_width <= 6_000_000,
                    ;
                    assert((row as u64) * self.row_height <= 20_000u64 * 10_000_000_000u64)
                        by (nonlinear_arith)
                        requires
                            row as u64 <= 20_000,
                            self.row_height <= 10_000_000_000,
                    ;
                    assert((width as u64) * self.char_width <= 2u64 * 6_000_000u64)
                        by (nonlinear_arith)
                        requires
                            width as u64 <= 2,
                            self.char_width <= 6_000_000,
                    ;
                }
                CellRect {
                    x: Coord { milli: (col as u64) * self.char_width, unit: Unit::Px },
                    y: Coord { milli: (row as u64) * self.row_height, unit: Unit::Px },
                    w: Coord { milli: (width as u64) * self.char_width, unit: Unit::Px },
                    h: Coord { milli: self.row_height, unit: Unit::Px },
                }
            },
        }
    }

    /// The inner drawing origin: the one-column / half-row margin of the
    /// `Percentage` and `CharDerived` schemes, and zero for `AbsolutePixel`.
    pub open spec fn spec_margin(&self) -> (Coord, Coord) {
        match self.kind {
            SchemeKind::AbsolutePixel => (
                Coord { milli: 0, unit: Unit::Px },
                Coord { milli: 0, unit: Unit::Px },
            ),
            SchemeKind::Percentage => (
                Coord { milli: (100_000int / (self.cols + 2)) as u64, unit: Unit::Percent },
                Coord { milli: (50_000int / (self.rows + 1)) as u64, unit: Unit::Percent },
            ),
            SchemeKind::CharDerived => (
                Coord { milli: self.char_width, unit: Unit::Px },
                Coord { milli: self.row_height / 2, unit: Unit::Px },
            ),
        }
    }

    /// Computes the inner drawing origin.
    pub fn margin(&self) -> (r: (Coord, Coord))
        requires
            self.wf(),
        ensures
            r == self.spec_margin(),
    {
        match self.kind {
            SchemeKind::AbsolutePixel => (
                Coord { milli: 0, unit: Unit::Px },
                Coord { milli: 0, unit: Unit::Px },
            ),
            SchemeKind::Percentage => (
                Coord { milli: 100_000 / (self.cols as u64 + 2), unit: Unit::Percent },
                Coord { milli: 50_000 / (self.rows as u64 + 1), unit: Unit::Percent },
            ),
            SchemeKind::CharDerived => (
                Coord { milli: self.char_width, unit: Unit::Px },
                Coord { milli: self.row_height / 2, unit: Unit::Px },
            ),
        }
    }

    /// The natural canvas width in thousandths of a pixel: one spare column on
    /// each side of the terminal's columns.
    pub fn natural_width_milli(&self) -> (r: u64)
        requires
            self.wf(),
        ensures
            r == (self.cols + 2) * self.char_width,
    {
        proof {
            assert((self.cols as u64 + 2) * self.char_width <= 100_002u64 * 6_000_000u64)
                by (nonlinear_arith)
                requires
                    self.cols as u64 + 2 <= 100_002,
                    self.char_width <= 6_000_000,
            ;
        }
        (self.cols as u64 + 2) * self.char_width
    }

    /// The natural canvas height in thousandths of a pixel: half a spare row
    /// above and below the terminal's rows.
    pub fn natural_height_milli(&self) -> (r: u64)
        requires
            self.wf(),
        ensures
            r == (self.rows + 1) * self.row_height,
    {
        proof {
            assert((self.rows as u64 + 1) * self.row_height <= 20_001u64 * 10_000_000_000u64)
                by (nonlinear_arith)
                requires
                    self.rows as u64 + 1 <= 20_001,
                    self.row_height <= 10_000_000_000,
            ;
        }
        (self.rows as u64 + 1) * self.row_height
    }
}

} // verus!
