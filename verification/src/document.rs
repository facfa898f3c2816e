//! The markup compiler's first half: walking the grid in two passes
//! (background, then text) and assembling the vector-description document,
//! one fill rectangle per cell with a resolved background and one text run
//! per cell with a non-blank glyph.

use vstd::prelude::*;
use crate::attrs::{spec_text_attrs, text_attrs};
use crate::color::{Rgb, Theme, color_to_rgb, spec_color_to_rgb};
use crate::coords::{CellRect, Coord, CoordinateScheme};
use crate::grid::{Cell, Line, lemma_cell_col_le_width, spec_cell_col, spec_line_fits,
    spec_line_width};

verus! {

/// Why a render or construction call was rejected.
#[derive(Clone, Copy, PartialEq, Eq, Structural, Debug)]
pub enum RenderError {
    /// Construction: the font metrics or the terminal size are out of range.
    BadMetrics,
    /// Construction: the bootstrap compile of the empty document was refused
    /// by the vector-graphics engine.
    ProbeFailed,
    /// The grid has more rows than the terminal the renderer was built for.
    GridTooTall,
    /// The row at this index has a malformed cell width or spans more display
    /// columns than the terminal has; rendering rejects such a grid rather
    /// than drawing outside the canvas.
    RowMisfit(usize),
    /// The vector-graphics engine could not rasterize the compiled document.
    RasterFailed,
}

/// One background fill rectangle of the document.
#[derive(Clone, Copy, PartialEq, Eq, Structural, Debug)]
pub struct FillRect {
    pub rect: CellRect,
    pub fill: Rgb,
}

/// One styled text run of the document: a single glyph at a column position,
/// with its style flags and its resolved explicit foreground, if any.
#[derive(Clone, Copy, PartialEq, Eq, Debug)]
pub struct TextRun {
    pub x: Coord,
    pub bold: bool,
    pub italic: bool,
    pub underline: bool,
    pub fill: Option<Rgb>,
    pub ch: char,
}

/// The text runs of one grid row, at the row's vertical position. A row with
/// no visible glyph still appears, with no runs.
#[derive(Clone, PartialEq, Eq, Debug)]
pub struct RowText {
    pub y: Coord,
    pub runs: Vec<TextRun>,
}

/// The vector-description document: all background rectangles in row-major
/// order, then the text runs row by row.
#[derive(Clone, PartialEq, Eq, Debug)]
pub struct Document {
    pub rects: Vec<FillRect>,
    pub rows: Vec<RowText>,
}

/// The background fill of one cell: the resolved background color, or `None`
/// when the cell inherits the default and produces no rectangle.
pub open spec fn spec_cell_fill(
    cell: Cell,
    cursor: Option<(usize, usize)>,
    col: int,
    row: int,
    theme: Theme,
) -> Option<Rgb> {
    match spec_text_attrs(cell.pen, cursor, col, row, theme).background {
        Some(c) => Some(spec_color_to_rgb(c, theme)),
        None => None,
    }
}

/// The text run of one cell, whether or not its glyph is blank.
pub open spec fn spec_cell_run(
    cell: Cell,
    cursor: Option<(usize, usize)>,
    col: int,
    row: int,
    theme: Theme,
    scheme: CoordinateScheme,
) -> TextRun {
    let attrs = spec_text_attrs(cell.pen, cursor, col, row, theme);
    TextRun {
        x: scheme.spec_cell_rect(row, col, cell.width as int).x,
        bold: attrs.bold,
        italic: attrs.italic,
        underline: attrs.underline,
        fill: match attrs.foreground {
            Some(c) => Some(spec_color_to_rgb(c, theme)),
            None => None,
        },
        ch: cell.ch,
    }
}

/// The fill rectangles the background pass emits for the cells of one row
/// from index `i` on, the cell at `i` starting at display column `col`.
pub open spec fn spec_row_rects(
    cells: Seq<Cell>,
    i: int,
    col: int,
    row: int,
    cursor: Option<(usize, usize)>,
    theme: Theme,
    scheme: CoordinateScheme,
) -> Seq<FillRect>
    decreases cells.len() - i,
{
    if i < 0 || i >= cells.len() {
        Seq::empty()
    } else {
        let cell = cells[i];
        let rest = spec_row_rects(cells, i + 1, col + cell.width, row, cursor, theme, scheme);
        match spec_cell_fill(cell, cursor, col, row, theme) {
            Some(fill) => seq![
                FillRect { rect: scheme.spec_cell_rect(row, col, cell.width as int), fill },
            ] + rest,
            None => rest,
        }
    }
}

/// The text runs the text pass emits for the cells of one row from index `i`
/// on: one per non-blank glyph.
pub open spec fn spec_row_runs(
    cells: Seq<Cell>,
    i: int,
    col: int,
    row: int,
    cursor: Option<(usize, usize)>,
    theme: Theme,
    scheme: CoordinateScheme,
) -> Seq<TextRun>
    decreases cells.len() - i,
{
    if i < 0 || i >= cells.len() {
        Seq::empty()
    } else {
        let cell = cells[i];
        let rest = spec_row_runs(cells, i + 1, col + cell.width, row, cursor, theme, scheme);
        if cell.ch == ' ' {
            rest
        } else {
            seq![spec_cell_run(cell, cursor, col, row, theme, scheme)] + rest
        }
    }
}

/// All fill rectangles of the grid from row `row` on, in row-major order.
pub open spec fn spec_doc_rects(
    lines: Seq<Line>,
    row: int,
    cursor: Option<(usize, usize)>,
    theme: Theme,
    scheme: CoordinateScheme,
) -> Seq<FillRect>
    decreases lines.len() - row,
{
    if row < 0 || row >= lines.len() {
        Seq::empty()
    } else {
        spec_row_rects(lines[row].cells@, 0, 0, row, cursor, theme, scheme) + spec_doc_rects(
            lines,
            row + 1,
            cursor,
            theme,
            scheme,
        )
    }
}

/// Whether a whole grid fits the terminal the scheme was built for.
pub open spec fn spec_grid_fits(lines: Seq<Line>, scheme: CoordinateScheme) -> bool {
    &&& lines.len() <= scheme.rows
    &&& forall|q: int|
        0 <= q < lines.len() ==> spec_line_fits(#[trigger] lines[q].cells@, scheme.cols)
}

/// Checks that one row's cells are well formed and together span at most
/// `cols` display columns.
pub fn line_fits(line: &Line, cols: usize) -> (b: bool)
    requires
        cols as u64 <= crate::coords::MAX_TERM_DIM,
    ensures
        b == spec_line_fits(line.cells@, cols),
{
    let cells = &line.cells;
    let ghost cs = line.cells@;
    let mut i: usize = 0;
    let mut col: usize = 0;
    while i < cells.len()
        invariant
            cols as u64 <= crate::coords::MAX_TERM_DIM,
            cs == line.cells@,
            cs == cells@,
            0 <= i <= cs.len(),
            col == spec_cell_col(cs, i as int),
            col <= cols,
            forall|k: int| 0 <= k < i ==> #[trigger] cs[k].wf(),
        decreases cs.len() - i,
    {
        let cell = cells[i];
        if cell.width < 1 || cell.width > 2 {
            assert(!cs[i as int].wf());
            return false;
        }
        if col + cell.width > cols {
            proof {
                if forall|k: int| 0 <= k < cs.len() ==> #[trigger] cs[k].wf() {
                    lemma_cell_col_le_width(cs, i as int + 1);
                    assert(spec_line_width(cs) >= spec_cell_col(cs, i as int + 1));
                }
            }
            return false;
        }
        col = col + cell.width;
        i = i + 1;
    }
    proof {
        assert(spec_line_width(cs) == col);
    }
    true
}

/// Appends the background rectangles of one row.
fn push_row_rects(
    out: &mut Vec<FillRect>,
    cells: &Vec<Cell>,
    row: usize,
    cursor: &Option<(usize, usize)>,
    theme: &Theme,
    scheme: &CoordinateScheme,
)
    requires
        theme.wf(),
        scheme.wf(),
        spec_line_fits(cells@, scheme.cols),
        row <= scheme.rows,
    ensures
        final(out)@ == old(out)@ + spec_row_rects(cells@, 0, 0, row as int, *cursor, *theme,
            *scheme),
{
    let ghost cs = cells@;
    let ghost total = spec_row_rects(cs, 0, 0, row as int, *cursor, *theme, *scheme);
    let mut i: usize = 0;
    let mut col: usize = 0;
    while i < cells.len()
        invariant
            theme.wf(),
            scheme.wf(),
            spec_line_fits(cs, scheme.cols),
            row <= scheme.rows,
            cs == cells@,
            0 <= i <= cs.len(),
            col == spec_cell_col(cs, i as int),
            col <= scheme.cols,
            out@ + spec_row_rects(cs, i as int, col as int, row as int, *cursor, *theme, *scheme)
                == old(out)@ + total,
        decreases cs.len() - i,
    {
        let cell = cells[i];
        proof {
            assert(cs[i as int].wf());
            lemma_cell_col_le_width(cs, i as int + 1);
        }
        let attrs = text_attrs(&cell.pen, cursor, col, row, theme);
        let ghost before = out@;
        match attrs.background {
            Some(c) => {
                let rect = scheme.cell_rect(row, col, cell.width);
                let fill = color_to_rgb(&c, theme);
                out.push(FillRect { rect, fill });
            },
            None => {},
        }
        proof {
            assert(out@ + spec_row_rects(cs, i as int + 1, col + cell.width, row as int, *cursor,
                *theme, *scheme) =~= before + spec_row_rects(cs, i as int, col as int, row as int,
                *cursor, *theme, *scheme));
        }
        col = col + cell.width;
        i = i + 1;
    }
    assert(final(out)@ =~= old(out)@ + total);
}

/// The text runs of one row: one per non-blank glyph, in order.
fn row_runs(
    cells: &Vec<Cell>,
    row: usize,
    cursor: &Option<(usize, usize)>,
    theme: &Theme,
    scheme: &CoordinateScheme,
) -> (runs: Vec<TextRun>)
    requires
        theme.wf(),
        scheme.wf(),
        spec_line_fits(cells@, scheme.cols),
        row <= scheme.rows,
    ensures
        runs@ == spec_row_runs(cells@, 0, 0, row as int, *cursor, *theme, *scheme),
{
    let ghost cs = cells@;
    let ghost total = spec_row_runs(cs, 0, 0, row as int, *cursor, *theme, *scheme);
    let mut runs: Vec<TextRun> = Vec::new();
    let mut i: usize = 0;
    let mut col: usize = 0;
    while i < cells.len()
        invariant
            theme.wf(),
            scheme.wf(),
            spec_line_fits(cs, scheme.cols),
            row <= scheme.rows,
            cs == cells@,
            0 <= i <= cs.len(),
            col == spec_cell_col(cs, i as int),
            col <= scheme.cols,
            runs@ + spec_row_runs(cs, i as int, col as int, row as int, *cursor, *theme, *scheme)
                == total,
        decreases cs.len() - i,
    {
        let cell = cells[i];
        proof {
            assert(cs[i as int].wf());
            lemma_cell_col_le_width(cs, i as int + 1);
        }
        let ghost before = runs@;
        if cell.ch != ' ' {
            let attrs = text_attrs(&cell.pen, cursor, col, row, theme);
            let rect = scheme.cell_rect(row, col, cell.width);
            let fill = match attrs.foreground {
                Some(c) => Some(color_to_rgb(&c, theme)),
                None => None,
            };
            runs.push(TextRun {
                x: rect.x,
                bold: attrs.bold,
                italic: attrs.italic,
                underline: attrs.underline,
                fill,
                ch: cell.ch,
            });
        }
        proof {
            assert(runs@ + spec_row_runs(cs, i as int + 1, col + cell.width, row as int, *cursor,
                *theme, *scheme) =~= before + spec_row_runs(cs, i as int, col as int, row as int,
                *cursor, *theme, *scheme));
        }
        col = col + cell.width;
        i = i + 1;
    }
    runs
}

/// Compiles a grid and a cursor into the vector-description document: the
/// background pass first, then the text pass, both in row-major order. A grid
/// that does not fit the terminal the renderer was built for is rejected with
/// the first offending row.
pub fn compile_document(
    lines: &[Line],
    cursor: Option<(usize, usize)>,
    theme: &Theme,
    scheme: &CoordinateScheme,
) -> (r: Result<Document, RenderError>)
    requires
        theme.wf(),
        scheme.wf(),
    ensures
        match r {
            Ok(doc) => {
                &&& spec_grid_fits(lines@, *scheme)
                &&& doc.rects@ == spec_doc_rects(lines@, 0, cursor, *theme, *scheme)
                &&& doc.rows@.len() == lines@.len()
                &&& forall|q: int|
                    0 <= q < lines@.len() ==> (#[trigger] doc.rows@[q]).y
                        == scheme.spec_cell_rect(q, 0, 1).y
                &&& forall|q: int|
                    0 <= q < lines@.len() ==> (#[trigger] doc.rows@[q]).runs@ == spec_row_runs(
                        lines@[q].cells@,
                        0,
                        0,
                        q,
                        cursor,
                        *theme,
                        *scheme,
                    )
            },
            Err(RenderError::GridTooTall) => lines@.len() > scheme.rows,
            Err(RenderError::RowMisfit(q)) => {
                &&& lines@.len() <= scheme.rows
                &&& q < lines@.len()
                &&& !spec_line_fits(lines@[q as int].cells@, scheme.cols)
                &&& forall|p: int|
                    0 <= p < q ==> spec_line_fits(#[trigger] lines@[p].cells@, scheme.cols)
            },
            Err(_) => false,
        },
{
    if lines.len() > scheme.rows {
        return Err(RenderError::GridTooTall);
    }
    let mut r: usize = 0;
    while r < lines.len()
        invariant
            scheme.wf(),
            lines@.len() <= scheme.rows,
            r <= lines@.len(),
            forall|p: int| 0 <= p < r ==> spec_line_fits(#[trigger] lines@[p].cells@, scheme.cols),
        decreases lines@.len() - r,
    {
        if !line_fits(vstd::slice::slice_index_get(lines, r), scheme.cols) {
            return Err(RenderError::RowMisfit(r));
        }
        r = r + 1;
    }
    let ghost total = spec_doc_rects(lines@, 0, cursor, *theme, *scheme);
    let mut rects: Vec<FillRect> = Vec::new();
    let mut rows: Vec<RowText> = Vec::new();
    let mut row: usize = 0;
    while row < lines.len()
        invariant
            theme.wf(),
            scheme.wf(),
            lines@.len() <= scheme.rows,
            forall|p: int|
                0 <= p < lines@.len() ==> spec_line_fits(#[trigger] lines@[p].cells@, scheme.cols),
            row <= lines@.len(),
            rects@ + spec_doc_rects(lines@, row as int, cursor, *theme, *scheme) == total,
            rows@.len() == row,
            forall|q: int|
                0 <= q < row ==> (#[trigger] rows@[q]).y == scheme.spec_cell_rect(q, 0, 1).y,
            forall|q: int|
                0 <= q < row ==> (#[trigger] rows@[q]).runs@ == spec_row_runs(lines@[q].cells@, 0,
                    0, q, cursor, *theme, *scheme),
        decreases lines@.len() - row,
    {
        let line = vstd::slice::slice_index_get(lines, row);
        let ghost before = rects@;
        push_row_rects(&mut rects, &line.cells, row, &cursor, theme, scheme);
        let runs = row_runs(&line.cells, row, &cursor, theme, scheme);
        let y = scheme.cell_rect(row, 0, 1).y;
        rows.push(RowText { y, runs });
        proof {
            assert(rects@ + spec_doc_rects(lines@, row as int + 1, cursor, *theme, *scheme)
                =~= before + spec_doc_rects(lines@, row as int, cursor, *theme, *scheme));
        }
        row = row + 1;
    }
    Ok(Document { rects, rows })
}

} // verus!
