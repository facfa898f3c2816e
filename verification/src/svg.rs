//! The markup compiler's second half: writing the vector-description document
//! out as SVG text, with every coordinate, style and escaped glyph pinned by
//! the specification functions.

use vstd::prelude::*;
use vstd::seq_lib::lemma_concat_associative;
use crate::attrs::TextAttrs;
use crate::color::{Color, Rgb, Theme, color_to_rgb, spec_color_to_rgb};
use crate::coords::{Coord, CoordinateScheme, Unit};
use crate::document::{Document, FillRect, RowText, TextRun, spec_doc_rects, spec_row_runs};
use crate::escape::{push_escaped, spec_escape_char};
use crate::grid::Line;
use crate::strfmt::{push_char, push_decimal, push_milli_fixed, spec_decimal, spec_milli_fixed};

verus! {

/// A coordinate as the markup writes it: three fractional digits, and a
/// percent sign when the scheme works in percentages.
pub open spec fn spec_coord_svg(c: Coord) -> Seq<char> {
    match c.unit {
        Unit::Px => spec_milli_fixed(c.milli as nat),
        Unit::Percent => spec_milli_fixed(c.milli as nat) + seq!['%'],
    }
}

/// Appends a coordinate.
pub fn push_coord(s: &mut String, c: Coord)
    ensures
        final(s)@ == old(s)@ + spec_coord_svg(c),
{
    push_milli_fixed(s, c.milli);
    match c.unit {
        Unit::Px => {},
        Unit::Percent => {
            push_char(s, '%');
            assert(final(s)@ =~= old(s)@ + spec_coord_svg(c));
        },
    }
}

/// An inline fill declaration for a concrete color.
pub open spec fn spec_fill_style(c: Rgb) -> Seq<char> {
    "fill: rgb("@ + spec_decimal(c.r as nat) + ","@ + spec_decimal(c.g as nat) + ","@
        + spec_decimal(c.b as nat) + ")"@
}

/// Appends an inline fill declaration.
pub fn push_fill_style(s: &mut String, c: Rgb)
    ensures
        final(s)@ == old(s)@ + spec_fill_style(c),
{
    s.append("fill: rgb(");
    push_decimal(s, c.r as u64);
    s.append(",");
    push_decimal(s, c.g as u64);
    s.append(",");
    push_decimal(s, c.b as u64);
    s.append(")");
    assert(final(s)@ =~= old(s)@ + spec_fill_style(c));
}

/// The inline style of a pen color resolved under a theme.
pub fn color_to_style(color: &Color, theme: &Theme) -> (r: String)
    requires
        theme.wf(),
    ensures
        r@ == spec_fill_style(spec_color_to_rgb(*color, *theme)),
{
    let mut s = String::new();
    let c = color_to_rgb(color, theme);
    push_fill_style(&mut s, c);
    s
}

/// The style class of resolved attributes: each flag contributes its marker.
pub open spec fn spec_text_class(bold: bool, italic: bool, underline: bool) -> Seq<char> {
    (if bold {
        "br"@
    } else {
        Seq::empty()
    }) + (if italic {
        " it"@
    } else {
        Seq::empty()
    }) + (if underline {
        " un"@
    } else {
        Seq::empty()
    })
}

/// The class attribute of a text run: `br`, ` it` and ` un` for the bold,
/// italic and underline flags, independently composable.
pub fn text_class(attrs: &TextAttrs) -> (r: String)
    ensures
        r@ == spec_text_class(attrs.bold, attrs.italic, attrs.underline),
{
    let mut class = String::new();
    if attrs.bold {
        class.append("br");
    }
    if attrs.italic {
        class.append(" it");
    }
    if attrs.underline {
        class.append(" un");
    }
    proof {
        assert(class@ =~= spec_text_class(attrs.bold, attrs.italic, attrs.underline));
    }
    class
}

/// The inline style of a resolved foreground: a fill declaration when an
/// explicit color is resolved, empty (inherit the document default) when not.
pub open spec fn spec_text_style(attrs: TextAttrs, theme: Theme) -> Seq<char> {
    match attrs.foreground {
        Some(c) => spec_fill_style(spec_color_to_rgb(c, theme)),
        None => Seq::empty(),
    }
}

/// The style attribute of a text run.
pub fn text_style(attrs: &TextAttrs, theme: &Theme) -> (r: String)
    requires
        theme.wf(),
    ensures
        r@ == spec_text_style(*attrs, *theme),
{
    match &attrs.foreground {
        Some(c) => color_to_style(c, theme),
        None => String::new(),
    }
}

/// The inline style of a resolved background, empty when the cell inherits.
pub open spec fn spec_rect_style(attrs: TextAttrs, theme: Theme) -> Seq<char> {
    match attrs.background {
        Some(c) => spec_fill_style(spec_color_to_rgb(c, theme)),
        None => Seq::empty(),
    }
}

/// The style attribute of a fill rectangle.
pub fn rect_style(attrs: &TextAttrs, theme: &Theme) -> (r: String)
    requires
        theme.wf(),
    ensures
        r@ == spec_rect_style(*attrs, *theme),
{
    match &attrs.background {
        Some(c) => color_to_style(c, theme),
        None => String::new(),
    }
}

/// One fill rectangle element.
pub open spec fn spec_rect_svg(r: FillRect) -> Seq<char> {
    "<rect x=\""@ + spec_coord_svg(r.rect.x) + "\" y=\""@ + spec_coord_svg(r.rect.y)
        + "\" width=\""@ + spec_coord_svg(r.rect.w) + "\" height=\""@ + spec_coord_svg(r.rect.h)
        + "\" style=\""@ + spec_fill_style(r.fill) + "\" />\n"@
}

fn push_rect_svg(s: &mut String, r: &FillRect)
    ensures
        final(s)@ == old(s)@ + spec_rect_svg(*r),
{
    s.append("<rect x=\"");
    push_coord(s, r.rect.x);
    s.append("\" y=\"");
    push_coord(s, r.rect.y);
    s.append("\" width=\"");
    push_coord(s, r.rect.w);
    s.append("\" height=\"");
    push_coord(s, r.rect.h);
    s.append("\" style=\"");
    push_fill_style(s, r.fill);
    s.append("\" />\n");
    assert(final(s)@ =~= old(s)@ + spec_rect_svg(*r));
}

/// The fill rectangles from index `i` on.
pub open spec fn spec_rects_svg(rects: Seq<FillRect>, i: int) -> Seq<char>
    decreases rects.len() - i,
{
    if i < 0 || i >= rects.len() {
        Seq::empty()
    } else {
        spec_rect_svg(rects[i]) + spec_rects_svg(rects, i + 1)
    }
}

/// One text run element: a single glyph, escaped, with its column position,
/// class and style; the first run of a row also carries the baseline marker.
pub open spec fn spec_run_svg(run: TextRun, first: bool) -> Seq<char> {
    "<tspan "@ + (if first {
        "dy=\"1em\" "@
    } else {
        Seq::empty()
    }) + "x=\""@ + spec_coord_svg(run.x) + "\" class=\""@ + spec_text_class(run.bold, run.italic,
        run.underline) + "\" style=\""@ + (match run.fill {
        Some(c) => spec_fill_style(c),
        None => Seq::empty(),
    }) + "\">"@ + spec_escape_char(run.ch) + "</tspan>\n"@
}

fn push_text_class(s: &mut String, bold: bool, italic: bool, underline: bool)
    ensures
        final(s)@ == old(s)@ + spec_text_class(bold, italic, underline),
{
    if bold {
        s.append("br");
    }
    if italic {
        s.append(" it");
    }
    if underline {
        s.append(" un");
    }
    assert(final(s)@ =~= old(s)@ + spec_text_class(bold, italic, underline));
}

fn push_run_svg(s: &mut String, run: &TextRun, first: bool)
    ensures
        final(s)@ == old(s)@ + spec_run_svg(*run, first),
{
    let ghost m0 = s@;
    let ghost c1 = "<tspan "@;
    let ghost c2: Seq<char> = if first {
        "dy=\"1em\" "@
    } else {
        Seq::empty()
    };
    let ghost c3 = "x=\""@;
    let ghost c4 = spec_coord_svg(run.x);
    let ghost c5 = "\" class=\""@;
    let ghost c6 = spec_text_class(run.bold, run.italic, run.underline);
    let ghost c7 = "\" style=\""@;
    let ghost c8: Seq<char> = match run.fill {
        Some(c) => spec_fill_style(c),
        None => Seq::empty(),
    };
    let ghost c9 = "\">"@;
    let ghost c10 = spec_escape_char(run.ch);
    let ghost c11 = "</tspan>\n"@;
    s.append("<tspan ");
    if first {
        s.append("dy=\"1em\" ");
    }
    assert(s@ =~= m0 + c1 + c2);
    s.append("x=\"");
    push_coord(s, run.x);
    s.append("\" class=\"");
    push_text_class(s, run.bold, run.italic, run.underline);
    s.append("\" style=\"");
    match &run.fill {
        Some(c) => push_fill_style(s, *c),
        None => {},
    }
    assert(s@ =~= m0 + c1 + c2 + c3 + c4 + c5 + c6 + c7 + c8);
    s.append("\">");
    push_escaped(s, run.ch);
    s.append("</tspan>\n");
    proof {
        lemma_concat_associative(m0, c1, c2);
        lemma_concat_associative(m0, c1 + c2, c3);
        lemma_concat_associative(m0, c1 + c2 + c3, c4);
        lemma_concat_associative(m0, c1 + c2 + c3 + c4, c5);
        lemma_concat_associative(m0, c1 + c2 + c3 + c4 + c5, c6);
        lemma_concat_associative(m0, c1 + c2 + c3 + c4 + c5 + c6, c7);
        lemma_concat_associative(m0, c1 + c2 + c3 + c4 + c5 + c6 + c7, c8);
        lemma_concat_associative(m0, c1 + c2 + c3 + c4 + c5 + c6 + c7 + c8, c9);
        lemma_concat_associative(m0, c1 + c2 + c3 + c4 + c5 + c6 + c7 + c8 + c9, c10);
        lemma_concat_associative(m0, c1 + c2 + c3 + c4 + c5 + c6 + c7 + c8 + c9 + c10, c11);
        assert(spec_run_svg(*run, first) == c1 + c2 + c3 + c4 + c5 + c6 + c7 + c8 + c9 + c10
            + c11);
    }
}

/// The text runs of one row from index `j` on.
pub open spec fn spec_runs_svg(runs: Seq<TextRun>, j: int) -> Seq<char>
    decreases runs.len() - j,
{
    if j < 0 || j >= runs.len() {
        Seq::empty()
    } else {
        spec_run_svg(runs[j], j == 0) + spec_runs_svg(runs, j + 1)
    }
}

/// One row of text: its baseline element wrapping its runs.
pub open spec fn spec_row_svg(y: Coord, runs: Seq<TextRun>) -> Seq<char> {
    "<tspan y=\""@ + spec_coord_svg(y) + "\">"@ + spec_runs_svg(runs, 0) + "</tspan>\n"@
}

fn push_row_svg(s: &mut String, row: &RowText)
    ensures
        final(s)@ == old(s)@ + spec_row_svg(row.y, row.runs@),
{
    let ghost rs = row.runs@;
    s.append("<tspan y=\"");
    push_coord(s, row.y);
    s.append("\">");
    let ghost mid = s@;
    let mut j: usize = 0;
    while j < row.runs.len()
        invariant
            rs == row.runs@,
            0 <= j <= rs.len(),
            s@ + spec_runs_svg(rs, j as int) == mid + spec_runs_svg(rs, 0),
        decreases rs.len() - j,
    {
        let ghost before = s@;
        let run = row.runs[j];
        push_run_svg(s, &run, j == 0);
        proof {
            assert(s@ + spec_runs_svg(rs, j as int + 1) =~= before + spec_runs_svg(rs, j as int));
        }
        j = j + 1;
    }
    s.append("</tspan>\n");
    assert(final(s)@ =~= old(s)@ + spec_row_svg(row.y, row.runs@));
}

/// The text of a whole grid from row `row` on, one baseline element per row.
pub open spec fn spec_text_svg(
    lines: Seq<Line>,
    row: int,
    cursor: Option<(usize, usize)>,
    theme: Theme,
    scheme: CoordinateScheme,
) -> Seq<char>
    decreases lines.len() - row,
{
    if row < 0 || row >= lines.len() {
        Seq::empty()
    } else {
        spec_row_svg(
            scheme.spec_cell_rect(row, 0, 1).y,
            spec_row_runs(lines[row].cells@, 0, 0, row, cursor, theme, scheme),
        ) + spec_text_svg(lines, row + 1, cursor, theme, scheme)
    }
}

/// The body of the document: the background group, then the text element.
pub open spec fn spec_body_svg(
    lines: Seq<Line>,
    cursor: Option<(usize, usize)>,
    theme: Theme,
    scheme: CoordinateScheme,
) -> Seq<char> {
    "<g style=\"shape-rendering: optimizeSpeed\">\n"@ + spec_rects_svg(
        spec_doc_rects(lines, 0, cursor, theme, scheme),
        0,
    ) + "</g>\n"@ + "<text class=\"default-text-fill\">\n"@ + spec_text_svg(
        lines,
        0,
        cursor,
        theme,
        scheme,
    ) + "</text>\n"@
}

/// Writes a compiled document out: the background pass inside a group, then
/// the text pass. The caller supplies the document's relation to a grid and
/// gets the grid-level statement through `lemma_document_svg`.
pub fn push_document_svg(s: &mut String, doc: &Document)
    ensures
        final(s)@ == old(s)@ + "<g style=\"shape-rendering: optimizeSpeed\">\n"@ + spec_rects_svg(
            doc.rects@,
            0,
        ) + "</g>\n"@ + "<text class=\"default-text-fill\">\n"@ + spec_rows_svg(doc.rows@, 0)
            + "</text>\n"@,
{
    let ghost rects = doc.rects@;
    let ghost rows = doc.rows@;
    s.append("<g style=\"shape-rendering: optimizeSpeed\">\n");
    let ghost mid0 = s@;
    let mut i: usize = 0;
    while i < doc.rects.len()
        invariant
            rects == doc.rects@,
            0 <= i <= rects.len(),
            s@ + spec_rects_svg(rects, i as int) == mid0 + spec_rects_svg(rects, 0),
        decreases rects.len() - i,
    {
        let ghost before = s@;
        let r = doc.rects[i];
        push_rect_svg(s, &r);
        proof {
            assert(s@ + spec_rects_svg(rects, i as int + 1) =~= before + spec_rects_svg(
                rects,
                i as int,
            ));
        }
        i = i + 1;
    }
    s.append("</g>\n");
    s.append("<text class=\"default-text-fill\">\n");
    let ghost mid1 = s@;
    let mut r: usize = 0;
    while r < doc.rows.len()
        invariant
            rows == doc.rows@,
            0 <= r <= rows.len(),
            s@ + spec_rows_svg(rows, r as int) == mid1 + spec_rows_svg(rows, 0),
        decreases rows.len() - r,
    {
        let ghost before = s@;
        let row = &doc.rows[r];
        push_row_svg(s, row);
        proof {
            assert(s@ + spec_rows_svg(rows, r as int + 1) =~= before + spec_rows_svg(
                rows,
                r as int,
            ));
        }
        r = r + 1;
    }
    s.append("</text>\n");
    assert(final(s)@ =~= old(s)@ + "<g style=\"shape-rendering: optimizeSpeed\">\n"@
        + spec_rects_svg(doc.rects@, 0) + "</g>\n"@ + "<text class=\"default-text-fill\">\n"@
        + spec_rows_svg(doc.rows@, 0) + "</text>\n"@);
}

/// The rows of a compiled document, from row `r` on.
pub open spec fn spec_rows_svg(rows: Seq<RowText>, r: int) -> Seq<char>
    decreases rows.len() - r,
{
    if r < 0 || r >= rows.len() {
        Seq::empty()
    } else {
        spec_row_svg(rows[r].y, rows[r].runs@) + spec_rows_svg(rows, r + 1)
    }
}

/// A document whose rows agree with a grid row by row serializes to the
/// grid's own text.
pub proof fn lemma_rows_svg_agrees(
    rows: Seq<RowText>,
    lines: Seq<Line>,
    r: int,
    cursor: Option<(usize, usize)>,
    theme: Theme,
    scheme: CoordinateScheme,
)
    requires
        rows.len() == lines.len(),
        forall|q: int|
            0 <= q < lines.len() ==> (#[trigger] rows[q]).y == scheme.spec_cell_rect(q, 0, 1).y,
        forall|q: int|
            0 <= q < lines.len() ==> (#[trigger] rows[q]).runs@ == spec_row_runs(lines[q].cells@,
                0, 0, q, cursor, theme, scheme),
        0 <= r,
    ensures
        spec_rows_svg(rows, r) == spec_text_svg(lines, r, cursor, theme, scheme),
    decreases lines.len() - r,
{
    if r < lines.len() {
        lemma_rows_svg_agrees(rows, lines, r + 1, cursor, theme, scheme);
    }
}

} // verus!
