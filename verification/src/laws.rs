//! The laws of the two compiler passes, stated over the grid as a whole:
//! sparsity of the background pass, exactly one text run per visible glyph,
//! and the span and advance of wide cells.

use vstd::prelude::*;
use vstd::arithmetic::div_mod::{lemma_div_is_ordered, lemma_div_nonincreasing,
    lemma_div_plus_one};
use crate::color::Theme;
use crate::coords::{Coord, CoordinateScheme, SchemeKind};
use crate::document::{FillRect, TextRun, spec_cell_fill, spec_cell_run, spec_doc_rects,
    spec_grid_fits, spec_row_rects, spec_row_runs};
use crate::grid::{Cell, Line, lemma_cell_col_le_width, lemma_cell_col_strictly_increasing,
    spec_cell_col, spec_line_fits};

verus! {

/// How many of these runs sit at this horizontal position.
pub open spec fn spec_runs_at(runs: Seq<TextRun>, x: Coord) -> int
    decreases runs.len(),
{
    if runs.len() == 0 {
        0
    } else {
        (if runs[0].x == x {
            1int
        } else {
            0int
        }) + spec_runs_at(runs.skip(1), x)
    }
}

/// How many of these rectangles sit at this horizontal position.
pub open spec fn spec_rects_at(rects: Seq<FillRect>, x: Coord) -> int
    decreases rects.len(),
{
    if rects.len() == 0 {
        0
    } else {
        (if rects[0].rect.x == x {
            1int
        } else {
            0int
        }) + spec_rects_at(rects.skip(1), x)
    }
}

/// Distinct start columns give strictly increasing horizontal positions, in
/// every scheme.
proof fn lemma_x_strictly_increasing(
    scheme: CoordinateScheme,
    row: int,
    col1: int,
    w1: int,
    col2: int,
    w2: int,
)
    requires
        scheme.wf(),
        0 <= col1 < col2,
        col2 <= scheme.cols,
    ensures
        scheme.spec_cell_rect(row, col1, w1).x.milli < scheme.spec_cell_rect(row, col2,
            w2).x.milli,
{
    match scheme.kind {
        SchemeKind::Percentage => {
            let d = scheme.cols + 2int;
            let a = 100_000int * col1;
            let b = 100_000int * col2;
            assert(d <= 100_000);
            assert(b >= a + 100_000);
            lemma_div_plus_one(a, d);
            lemma_div_is_ordered(a + d, b, d);
            assert(a / d < b / d);
            lemma_div_is_ordered(0, a, d);
            lemma_div_nonincreasing(a, d);
            lemma_div_nonincreasing(b, d);
            assert(0 <= a / d <= a);
            assert(0 <= b / d <= b);
        },
        _ => {
            assert(col1 * scheme.char_width < col2 * scheme.char_width) by (nonlinear_arith)
                requires
                    0 <= col1 < col2,
                    scheme.char_width >= 1,
            ;
            assert(col1 * scheme.char_width >= 0) by (nonlinear_arith)
                requires
                    0 <= col1,
                    scheme.char_width >= 1,
            ;
            assert(col2 * scheme.char_width <= 20_002 * 6_000_000) by (nonlinear_arith)
                requires
                    col2 <= 20_002,
                    1 <= scheme.char_width <= 6_000_000,
            ;
        },
    }
}

/// Two distinct cells of a fitting row never share a horizontal position.
proof fn lemma_cell_x_distinct(cells: Seq<Cell>, i: int, j: int, row: int,
    scheme: CoordinateScheme)
    requires
        scheme.wf(),
        spec_line_fits(cells, scheme.cols),
        0 <= i < cells.len(),
        0 <= j < cells.len(),
        i != j,
    ensures
        scheme.spec_cell_rect(row, spec_cell_col(cells, i), cells[i].width as int).x
            != scheme.spec_cell_rect(row, spec_cell_col(cells, j), cells[j].width as int).x,
{
    lemma_cell_col_le_width(cells, i);
    lemma_cell_col_le_width(cells, j);
    if i < j {
        lemma_cell_col_strictly_increasing(cells, i, j);
        lemma_cell_col_le_width(cells, j);
        lemma_x_strictly_increasing(scheme, row, spec_cell_col(cells, i), cells[i].width as int,
            spec_cell_col(cells, j), cells[j].width as int);
    } else {
        lemma_cell_col_strictly_increasing(cells, j, i);
        lemma_x_strictly_increasing(scheme, row, spec_cell_col(cells, j), cells[j].width as int,
            spec_cell_col(cells, i), cells[i].width as int);
    }
}

/// No rectangle of the background pass from cell `j` on sits at the position
/// of cell `i` when cell `i` resolves to no background.
proof fn lemma_rects_at_cell_zero(
    cells: Seq<Cell>,
    j: int,
    i: int,
    row: int,
    cursor: Option<(usize, usize)>,
    theme: Theme,
    scheme: CoordinateScheme,
)
    requires
        scheme.wf(),
        spec_line_fits(cells, scheme.cols),
        0 <= j <= cells.len(),
        0 <= i < cells.len(),
        spec_cell_fill(cells[i], cursor, spec_cell_col(cells, i), row, theme) is None,
    ensures
        spec_rects_at(
            spec_row_rects(cells, j, spec_cell_col(cells, j), row, cursor, theme, scheme),
            scheme.spec_cell_rect(row, spec_cell_col(cells, i), cells[i].width as int).x,
        ) == 0,
    decreases cells.len() - j,
{
    let x = scheme.spec_cell_rect(row, spec_cell_col(cells, i), cells[i].width as int).x;
    let rs = spec_row_rects(cells, j, spec_cell_col(cells, j), row, cursor, theme, scheme);
    if j < cells.len() {
        lemma_rects_at_cell_zero(cells, j + 1, i, row, cursor, theme, scheme);
        let rest = spec_row_rects(cells, j + 1, spec_cell_col(cells, j + 1), row, cursor, theme,
            scheme);
        match spec_cell_fill(cells[j], cursor, spec_cell_col(cells, j), row, theme) {
            Some(fill) => {
                assert(j != i);
                lemma_cell_x_distinct(cells, j, i, row, scheme);
                assert(rs.skip(1) =~= rest);
            },
            None => {
                assert(rs =~= rest);
            },
        }
    }
}

/// How many of these rectangles sit at this position.
pub open spec fn spec_rects_at_pos(rects: Seq<FillRect>, x: Coord, y: Coord) -> int
    decreases rects.len(),
{
    if rects.len() == 0 {
        0
    } else {
        (if rects[0].rect.x == x && rects[0].rect.y == y {
            1int
        } else {
            0int
        }) + spec_rects_at_pos(rects.skip(1), x, y)
    }
}

proof fn lemma_rects_at_pos_concat(a: Seq<FillRect>, b: Seq<FillRect>, x: Coord, y: Coord)
    ensures
        spec_rects_at_pos(a + b, x, y) == spec_rects_at_pos(a, x, y) + spec_rects_at_pos(b, x, y),
    decreases a.len(),
{
    if a.len() == 0 {
        assert(a + b =~= b);
    } else {
        assert((a + b).skip(1) =~= a.skip(1) + b);
        lemma_rects_at_pos_concat(a.skip(1), b, x, y);
    }
}

/// A row's rectangles all carry the row's vertical position; counting them at
/// another vertical position finds none, and counting them at the row's own
/// vertical position is counting by the horizontal position alone.
proof fn lemma_row_rects_at_pos(
    cells: Seq<Cell>,
    j: int,
    row: int,
    cursor: Option<(usize, usize)>,
    theme: Theme,
    scheme: CoordinateScheme,
    x: Coord,
    y: Coord,
)
    requires
        0 <= j <= cells.len(),
    ensures
        ({
            let rs = spec_row_rects(cells, j, spec_cell_col(cells, j), row, cursor, theme, scheme);
            if y == scheme.spec_cell_rect(row, 0, 1).y {
                spec_rects_at_pos(rs, x, y) == spec_rects_at(rs, x)
            } else {
                spec_rects_at_pos(rs, x, y) == 0
            }
        }),
    decreases cells.len() - j,
{
    let rs = spec_row_rects(cells, j, spec_cell_col(cells, j), row, cursor, theme, scheme);
    if j < cells.len() {
        lemma_row_rects_at_pos(cells, j + 1, row, cursor, theme, scheme, x, y);
        let rest = spec_row_rects(cells, j + 1, spec_cell_col(cells, j + 1), row, cursor, theme,
            scheme);
        match spec_cell_fill(cells[j], cursor, spec_cell_col(cells, j), row, theme) {
            Some(fill) => {
                assert(rs[0].rect.y == scheme.spec_cell_rect(row, 0, 1).y);
                assert(rs.skip(1) =~= rest);
            },
            None => {
                assert(rs =~= rest);
            },
        }
    }
}

/// Distinct rows give distinct vertical positions, in every scheme.
proof fn lemma_y_strictly_increasing(scheme: CoordinateScheme, r1: int, r2: int)
    requires
        scheme.wf(),
        0 <= r1 < r2,
        r2 <= scheme.rows,
    ensures
        scheme.spec_cell_rect(r1, 0, 1).y.milli < scheme.spec_cell_rect(r2, 0, 1).y.milli,
{
    match scheme.kind {
        SchemeKind::Percentage => {
            let d = scheme.rows + 1int;
            let a = 100_000int * r1;
            let b = 100_000int * r2;
            assert(d <= 100_000);
            assert(b >= a + 100_000);
            lemma_div_plus_one(a, d);
            lemma_div_is_ordered(a + d, b, d);
            assert(a / d < b / d);
            lemma_div_is_ordered(0, a, d);
            lemma_div_nonincreasing(a, d);
            lemma_div_nonincreasing(b, d);
            assert(0 <= a / d <= a);
            assert(0 <= b / d <= b);
        },
        _ => {
            assert(r1 * scheme.row_height < r2 * scheme.row_height) by (nonlinear_arith)
                requires
                    0 <= r1 < r2,
                    scheme.row_height >= 1,
            ;
            assert(r1 * scheme.row_height >= 0) by (nonlinear_arith)
                requires
                    0 <= r1,
                    scheme.row_height >= 1,
            ;
            assert(r2 * scheme.row_height <= 20_000 * 10_000_000_000) by (nonlinear_arith)
                requires
                    r2 <= 20_000,
                    1 <= scheme.row_height <= 10_000_000_000,
            ;
        },
    }
}

proof fn lemma_doc_sparsity_from(
    lines: Seq<Line>,
    q: int,
    r: int,
    i: int,
    cursor: Option<(usize, usize)>,
    theme: Theme,
    scheme: CoordinateScheme,
)
    requires
        scheme.wf(),
        spec_grid_fits(lines, scheme),
        0 <= q <= lines.len(),
        0 <= r < lines.len(),
        0 <= i < lines[r].cells@.len(),
        spec_cell_fill(lines[r].cells@[i], cursor, spec_cell_col(lines[r].cells@, i), r, theme)
            is None,
    ensures
        spec_rects_at_pos(
            spec_doc_rects(lines, q, cursor, theme, scheme),
            scheme.spec_cell_rect(r, spec_cell_col(lines[r].cells@, i),
                lines[r].cells@[i].width as int).x,
            scheme.spec_cell_rect(r, 0, 1).y,
        ) == 0,
    decreases lines.len() - q,
{
    let cells = lines[r].cells@;
    let x = scheme.spec_cell_rect(r, spec_cell_col(cells, i), cells[i].width as int).x;
    let y = scheme.spec_cell_rect(r, 0, 1).y;
    if q < lines.len() {
        let block = spec_row_rects(lines[q].cells@, 0, 0, q, cursor, theme, scheme);
        lemma_doc_sparsity_from(lines, q + 1, r, i, cursor, theme, scheme);
        lemma_rects_at_pos_concat(block, spec_doc_rects(lines, q + 1, cursor, theme, scheme), x,
            y);
        assert(spec_cell_col(lines[q].cells@, 0) == 0);
        if q == r {
            lemma_row_rects_at_pos(cells, 0, r, cursor, theme, scheme, x, y);
            lemma_rects_at_cell_zero(cells, 0, i, r, cursor, theme, scheme);
        } else {
            if q < r {
                lemma_y_strictly_increasing(scheme, q, r);
            } else {
                lemma_y_strictly_increasing(scheme, r, q);
            }
            assert(y != scheme.spec_cell_rect(q, 0, 1).y);
            lemma_row_rects_at_pos(lines[q].cells@, 0, q, cursor, theme, scheme, x, y);
        }
    }
}

/// The sparsity of the background pass over the whole document: a cell that
/// resolves to no background has no fill rectangle anywhere in the document
/// at its position.
pub proof fn lemma_document_sparsity(
    lines: Seq<Line>,
    r: int,
    i: int,
    cursor: Option<(usize, usize)>,
    theme: Theme,
    scheme: CoordinateScheme,
)
    requires
        scheme.wf(),
        spec_grid_fits(lines, scheme),
        0 <= r < lines.len(),
        0 <= i < lines[r].cells@.len(),
        spec_cell_fill(lines[r].cells@[i], cursor, spec_cell_col(lines[r].cells@, i), r, theme)
            is None,
    ensures
        spec_rects_at_pos(
            spec_doc_rects(lines, 0, cursor, theme, scheme),
            scheme.spec_cell_rect(r, spec_cell_col(lines[r].cells@, i),
                lines[r].cells@[i].width as int).x,
            scheme.spec_cell_rect(r, 0, 1).y,
        ) == 0,
{
    lemma_doc_sparsity_from(lines, 0, r, i, cursor, theme, scheme);
}

/// The sparsity of the background pass within one row: a cell that resolves
/// to no background has no fill rectangle of its row at its position.
pub proof fn lemma_background_sparsity(
    cells: Seq<Cell>,
    i: int,
    row: int,
    cursor: Option<(usize, usize)>,
    theme: Theme,
    scheme: CoordinateScheme,
)
    requires
        scheme.wf(),
        spec_line_fits(cells, scheme.cols),
        0 <= i < cells.len(),
        spec_cell_fill(cells[i], cursor, spec_cell_col(cells, i), row, theme) is None,
    ensures
        spec_rects_at(
            spec_row_rects(cells, 0, 0, row, cursor, theme, scheme),
            scheme.spec_cell_rect(row, spec_cell_col(cells, i), cells[i].width as int).x,
        ) == 0,
{
    lemma_rects_at_cell_zero(cells, 0, i, row, cursor, theme, scheme);
}

/// No run of the text pass from cell `j` on sits at the position of a cell
/// before `j`.
proof fn lemma_runs_at_cell_zero(
    cells: Seq<Cell>,
    j: int,
    i: int,
    row: int,
    cursor: Option<(usize, usize)>,
    theme: Theme,
    scheme: CoordinateScheme,
)
    requires
        scheme.wf(),
        spec_line_fits(cells, scheme.cols),
        0 <= i < j <= cells.len(),
    ensures
        spec_runs_at(
            spec_row_runs(cells, j, spec_cell_col(cells, j), row, cursor, theme, scheme),
            scheme.spec_cell_rect(row, spec_cell_col(cells, i), cells[i].width as int).x,
        ) == 0,
    decreases cells.len() - j,
{
    let rs = spec_row_runs(cells, j, spec_cell_col(cells, j), row, cursor, theme, scheme);
    let rest = spec_row_runs(cells, j + 1, spec_cell_col(cells, j) + cells[j].width, row, cursor,
        theme, scheme);
    if j < cells.len() {
        lemma_runs_at_cell_zero(cells, j + 1, i, row, cursor, theme, scheme);
        if cells[j].ch == ' ' {
            assert(rs =~= rest);
        } else {
            lemma_cell_x_distinct(cells, j, i, row, scheme);
            assert(rs.skip(1) =~= rest);
        }
    }
}

/// Exactly one text run per visible glyph: counting from cell `j` on, a
/// non-blank cell `i` at or after `j` contributes one run at its position.
proof fn lemma_runs_at_cell_one(
    cells: Seq<Cell>,
    j: int,
    i: int,
    row: int,
    cursor: Option<(usize, usize)>,
    theme: Theme,
    scheme: CoordinateScheme,
)
    requires
        scheme.wf(),
        spec_line_fits(cells, scheme.cols),
        0 <= j <= i < cells.len(),
        cells[i].ch != ' ',
    ensures
        spec_runs_at(
            spec_row_runs(cells, j, spec_cell_col(cells, j), row, cursor, theme, scheme),
            scheme.spec_cell_rect(row, spec_cell_col(cells, i), cells[i].width as int).x,
        ) == 1,
    decreases cells.len() - j,
{
    let rs = spec_row_runs(cells, j, spec_cell_col(cells, j), row, cursor, theme, scheme);
    let rest = spec_row_runs(cells, j + 1, spec_cell_col(cells, j) + cells[j].width, row, cursor,
        theme, scheme);
    if j == i {
        lemma_runs_at_cell_zero(cells, j + 1, i, row, cursor, theme, scheme);
        assert(rs.skip(1) =~= rest);
    } else {
        lemma_runs_at_cell_one(cells, j + 1, i, row, cursor, theme, scheme);
        if cells[j].ch == ' ' {
            assert(rs =~= rest);
        } else {
            lemma_cell_x_distinct(cells, j, i, row, scheme);
            assert(rs.skip(1) =~= rest);
        }
    }
}

/// Every non-blank glyph gets exactly one text run, at the position the
/// coordinate scheme computes for its cell.
pub proof fn lemma_text_run_exactly_one(
    cells: Seq<Cell>,
    i: int,
    row: int,
    cursor: Option<(usize, usize)>,
    theme: Theme,
    scheme: CoordinateScheme,
)
    requires
        scheme.wf(),
        spec_line_fits(cells, scheme.cols),
        0 <= i < cells.len(),
        cells[i].ch != ' ',
    ensures
        spec_runs_at(
            spec_row_runs(cells, 0, 0, row, cursor, theme, scheme),
            scheme.spec_cell_rect(row, spec_cell_col(cells, i), cells[i].width as int).x,
        ) == 1,
{
    lemma_runs_at_cell_one(cells, 0, i, row, cursor, theme, scheme);
}

/// A wide cell advances the column cursor by two in both passes, and any
/// rectangle emitted for it spans exactly two character widths (or the
/// percentage equivalent).
pub proof fn lemma_wide_cell(
    cells: Seq<Cell>,
    i: int,
    col: int,
    row: int,
    cursor: Option<(usize, usize)>,
    theme: Theme,
    scheme: CoordinateScheme,
)
    requires
        scheme.wf(),
        0 <= i < cells.len(),
        cells[i].width == 2,
    ensures
        ({
            let rects = spec_row_rects(cells, i, col, row, cursor, theme, scheme);
            let rects_rest = spec_row_rects(cells, i + 1, col + 2, row, cursor, theme, scheme);
            let runs = spec_row_runs(cells, i, col, row, cursor, theme, scheme);
            let runs_rest = spec_row_runs(cells, i + 1, col + 2, row, cursor, theme, scheme);
            let rect = scheme.spec_cell_rect(row, col, 2);
            &&& match spec_cell_fill(cells[i], cursor, col, row, theme) {
                Some(fill) => rects == seq![FillRect { rect, fill }] + rects_rest,
                None => rects == rects_rest,
            }
            &&& (cells[i].ch != ' ' ==> runs == seq![
                spec_cell_run(cells[i], cursor, col, row, theme, scheme),
            ] + runs_rest)
            &&& (cells[i].ch == ' ' ==> runs == runs_rest)
            &&& match scheme.kind {
                SchemeKind::Percentage => rect.w.milli == 100_000int * 2 / (scheme.cols + 2),
                _ => rect.w.milli == 2 * scheme.char_width,
            }
        }),
{
    match scheme.kind {
        SchemeKind::Percentage => {
            let d = scheme.cols + 2int;
            lemma_div_is_ordered(0, 200_000, d);
            lemma_div_nonincreasing(200_000, d);
        },
        _ => {
        },
    }
}

} // verus!

