//! The terminal grid handed to a render call: rows of character cells.

use vstd::prelude::*;
use crate::attrs::Pen;

verus! {

/// One terminal character position: its glyph, the number of display columns
/// it occupies (1, or 2 for a wide character), and its raw pen state.
#[derive(Clone, Copy, PartialEq, Eq, Structural, Debug)]
pub struct Cell {
    pub ch: char,
    pub width: usize,
    pub pen: Pen,
}

impl Cell {
    /// A cell occupies one display column, or two for a wide character.
    pub open spec fn wf(&self) -> bool {
        1 <= self.width <= 2
    }
}

/// One terminal row: the ordered cells spanning it.
#[derive(Clone, PartialEq, Eq, Debug)]
pub struct Line {
    pub cells: Vec<Cell>,
}

/// The display column at which the cell at index `i` starts: the total width
/// of the cells before it.
pub open spec fn spec_cell_col(cells: Seq<Cell>, i: int) -> int
    decreases i,
{
    if i <= 0 {
        0
    } else {
        spec_cell_col(cells, i - 1) + cells[i - 1].width
    }
}

/// Cell start columns grow strictly with the cell index.
pub proof fn lemma_cell_col_strictly_increasing(cells: Seq<Cell>, i: int, j: int)
    requires
        0 <= i < j <= cells.len(),
        forall|k: int| 0 <= k < cells.len() ==> #[trigger] cells[k].wf(),
    ensures
        spec_cell_col(cells, i) < spec_cell_col(cells, j),
    decreases j - i,
{
    if j == i + 1 {
        assert(cells[i].wf());
    } else {
        lemma_cell_col_strictly_increasing(cells, i, j - 1);
        assert(cells[j - 1].wf());
    }
}

/// The total width of a row's cells.
pub open spec fn spec_line_width(cells: Seq<Cell>) -> int {
    spec_cell_col(cells, cells.len() as int)
}

/// A row fits a terminal of `cols` columns when its cells are well formed and
/// together span at most `cols` display columns.
pub open spec fn spec_line_fits(cells: Seq<Cell>, cols: usize) -> bool {
    &&& forall|k: int| 0 <= k < cells.len() ==> #[trigger] cells[k].wf()
    &&& spec_line_width(cells) <= cols
}

/// Start columns never pass the row's total width.
pub proof fn lemma_cell_col_le_width(cells: Seq<Cell>, i: int)
    requires
        0 <= i <= cells.len(),
        forall|k: int| 0 <= k < cells.len() ==> #[trigger] cells[k].wf(),
    ensures
        spec_cell_col(cells, i) <= spec_line_width(cells),
        0 <= spec_cell_col(cells, i),
    decreases cells.len() - i, i,
{
    lemma_cell_col_nonneg(cells, i);
    if i < cells.len() {
        lemma_cell_col_le_width_step(cells, i);
    }
}

proof fn lemma_cell_col_nonneg(cells: Seq<Cell>, i: int)
    requires
        0 <= i <= cells.len(),
        forall|k: int| 0 <= k < cells.len() ==> #[trigger] cells[k].wf(),
    ensures
        0 <= spec_cell_col(cells, i),
    decreases i,
{
    if i > 0 {
        lemma_cell_col_nonneg(cells, i - 1);
        assert(cells[i - 1].wf());
    }
}

proof fn lemma_cell_col_le_width_step(cells: Seq<Cell>, i: int)
    requires
        0 <= i < cells.len(),
        forall|k: int| 0 <= k < cells.len() ==> #[trigger] cells[k].wf(),
    ensures
        spec_cell_col(cells, i) + cells[i].width <= spec_line_width(cells),
    decreases cells.len() - i,
{
    if i + 1 < cells.len() {
        lemma_cell_col_le_width_step(cells, i + 1);
        assert(cells[i + 1].wf());
    }
}

} // verus!
