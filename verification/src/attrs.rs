//! The attribute resolver: from a cell's raw pen state, the cursor position
//! and the theme to the final colors and style flags of the cell.

use vstd::prelude::*;
use crate::color::{Color, Rgb, Theme, spec_color_to_rgb, color_to_rgb};

verus! {

/// The raw style state attached to a cell, before any resolution.
/// `None` for a color means "inherit the theme default", which is distinct
/// from an explicit color that happens to equal the default.
#[derive(Clone, Copy, PartialEq, Eq, Structural, Debug)]
pub struct Pen {
    pub foreground: Option<Color>,
    pub background: Option<Color>,
    pub bold: bool,
    pub italic: bool,
    pub underline: bool,
    pub reverse: bool,
}

/// The resolved, render-ready attributes of one cell. A `None` color still
/// means "inherit the document default"; for the background that makes the
/// cell produce no fill rectangle at all.
#[derive(Clone, Copy, PartialEq, Eq, Structural, Debug)]
pub struct TextAttrs {
    pub foreground: Option<Color>,
    pub background: Option<Color>,
    pub bold: bool,
    pub italic: bool,
    pub underline: bool,
}

/// One inversion step: swap foreground and background, each falling back to
/// the theme default before the swap, so that inverting a cell with no
/// explicit colors yields theme-background text on a theme-foreground cell.
pub open spec fn spec_invert(
    fg: Option<Color>,
    bg: Option<Color>,
    theme: Theme,
) -> (Option<Color>, Option<Color>) {
    let fg_eff = if fg is Some {
        fg->0
    } else {
        Color::Rgb(theme.foreground)
    };
    let bg_eff = if bg is Some {
        bg->0
    } else {
        Color::Rgb(theme.background)
    };
    (Some(bg_eff), Some(fg_eff))
}

/// Whether the cursor stands on the cell at this position.
pub open spec fn spec_under_cursor(cursor: Option<(usize, usize)>, col: int, row: int) -> bool {
    match cursor {
        Some(pos) => pos.0 == col && pos.1 == row,
        None => false,
    }
}

/// The resolved attributes of a cell: the pen's explicit colors, inverted
/// once when the pen asks for reverse video and once more, independently,
/// when the cursor stands on the cell; the style flags pass through.
pub open spec fn spec_text_attrs(
    pen: Pen,
    cursor: Option<(usize, usize)>,
    col: int,
    row: int,
    theme: Theme,
) -> TextAttrs {
    let (fg0, bg0) = (pen.foreground, pen.background);
    let (fg1, bg1) = if pen.reverse {
        spec_invert(fg0, bg0, theme)
    } else {
        (fg0, bg0)
    };
    let (fg2, bg2) = if spec_under_cursor(cursor, col, row) {
        spec_invert(fg1, bg1, theme)
    } else {
        (fg1, bg1)
    };
    TextAttrs {
        foreground: fg2,
        background: bg2,
        bold: pen.bold,
        italic: pen.italic,
        underline: pen.underline,
    }
}

fn invert(fg: Option<Color>, bg: Option<Color>, theme: &Theme) -> (r: (Option<Color>, Option<
    Color,
>))
    ensures
        r == spec_invert(fg, bg, *theme),
{
    let fg_eff = match fg {
        Some(c) => c,
        None => Color::Rgb(theme.foreground),
    };
    let bg_eff = match bg {
        Some(c) => c,
        None => Color::Rgb(theme.background),
    };
    (Some(bg_eff), Some(fg_eff))
}

/// Resolves a cell's raw pen state against the cursor and the theme. Total
/// over all inputs: a cursor outside the grid simply covers no cell.
pub fn text_attrs(
    pen: &Pen,
    cursor: &Option<(usize, usize)>,
    col: usize,
    row: usize,
    theme: &Theme,
) -> (r: TextAttrs)
    ensures
        r == spec_text_attrs(*pen, *cursor, col as int, row as int, *theme),
{
    let mut fg = pen.foreground;
    let mut bg = pen.background;
    if pen.reverse {
        let swapped = invert(fg, bg, theme);
        fg = swapped.0;
        bg = swapped.1;
    }
    let under = match cursor {
        Some((ccol, crow)) => *ccol == col && *crow == row,
        None => false,
    };
    if under {
        let swapped = invert(fg, bg, theme);
        fg = swapped.0;
        bg = swapped.1;
    }
    TextAttrs {
        foreground: fg,
        background: bg,
        bold: pen.bold,
        italic: pen.italic,
        underline: pen.underline,
    }
}

/// The concrete color a resolved foreground paints text with: the explicit
/// color when one is resolved, else the theme default foreground.
pub open spec fn spec_effective_fg(attrs: TextAttrs, theme: Theme) -> Rgb {
    match attrs.foreground {
        Some(c) => spec_color_to_rgb(c, theme),
        None => theme.foreground,
    }
}

/// The concrete color a cell's surface shows: the resolved background when
/// one is there, else the theme default background.
pub open spec fn spec_effective_bg(attrs: TextAttrs, theme: Theme) -> Rgb {
    match attrs.background {
        Some(c) => spec_color_to_rgb(c, theme),
        None => theme.background,
    }
}

/// The concrete foreground color of resolved attributes.
pub fn effective_fg(attrs: &TextAttrs, theme: &Theme) -> (r: Rgb)
    requires
        theme.wf(),
    ensures
        r == spec_effective_fg(*attrs, *theme),
{
    match &attrs.foreground {
        Some(c) => color_to_rgb(c, theme),
        None => theme.foreground,
    }
}

/// The concrete background color of resolved attributes.
pub fn effective_bg(attrs: &TextAttrs, theme: &Theme) -> (r: Rgb)
    requires
        theme.wf(),
    ensures
        r == spec_effective_bg(*attrs, *theme),
{
    match &attrs.background {
        Some(c) => color_to_rgb(c, theme),
        None => theme.background,
    }
}

/// The cursor overlay is idempotent under double inversion: a cell that is
/// both reverse-video and under the cursor resolves to the same concrete
/// colors, and the same style flags, as the same cell with neither.
pub proof fn lemma_double_inversion_cancels(
    pen: Pen,
    cursor: Option<(usize, usize)>,
    col: int,
    row: int,
    theme: Theme,
)
    requires
        pen.reverse,
        spec_under_cursor(cursor, col, row),
    ensures
        ({
            let doubled = spec_text_attrs(pen, cursor, col, row, theme);
            let plain = spec_text_attrs(
                Pen { reverse: false, ..pen },
                None,
                col,
                row,
                theme,
            );
            &&& spec_effective_fg(doubled, theme) == spec_effective_fg(plain, theme)
            &&& spec_effective_bg(doubled, theme) == spec_effective_bg(plain, theme)
            &&& doubled.bold == plain.bold
            &&& doubled.italic == plain.italic
            &&& doubled.underline == plain.underline
        }),
{
}

} // verus!
