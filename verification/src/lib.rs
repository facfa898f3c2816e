//! A verified compiler from a terminal screen snapshot (a grid of styled
//! character cells plus an optional cursor) to an SVG vector description,
//! together with a thin rasterization layer built on `usvg`/`resvg`.

mod attrs;
mod color;
mod coords;
mod document;
mod escape;
mod grid;
mod laws;
mod renderer;

pub use laws::{lemma_background_sparsity, lemma_document_sparsity, lemma_text_run_exactly_one,
    lemma_wide_cell, spec_rects_at, spec_rects_at_pos, spec_runs_at};
mod strfmt;
mod svg;

pub use renderer::{MAX_PIXEL_DIM, ResvgRenderer, Settings, footer, spec_canvas_h_text,
    spec_canvas_w_text, spec_header_bg, spec_header_inner, spec_header_open, spec_header_svg,
    spec_scheme_for, spec_settings_ok};

pub use svg::{color_to_style, lemma_rows_svg_agrees, push_coord, push_document_svg,
    push_fill_style, rect_style, spec_body_svg, spec_coord_svg, spec_fill_style, spec_rect_style,
    spec_rect_svg, spec_rects_svg, spec_row_svg, spec_rows_svg, spec_run_svg, spec_runs_svg,
    spec_text_class, spec_text_style, spec_text_svg, text_class, text_style};

pub use document::{Document, FillRect, RenderError, RowText, TextRun, compile_document,
    line_fits, spec_cell_fill, spec_cell_run, spec_doc_rects, spec_grid_fits, spec_row_rects,
    spec_row_runs};

pub use coords::{CellRect, Coord, CoordinateScheme, MAX_FONT_SIZE, MAX_LINE_HEIGHT_MILLI,
    MAX_TERM_DIM, SchemeKind, Unit};
pub use grid::{Cell, Line, lemma_cell_col_le_width, lemma_cell_col_strictly_increasing,
    spec_cell_col, spec_line_fits, spec_line_width};

pub use attrs::{Pen, TextAttrs, effective_bg, effective_fg, lemma_double_inversion_cancels,
    spec_effective_bg, spec_effective_fg, spec_invert, spec_text_attrs, spec_under_cursor,
    text_attrs};

pub use color::{Color, Rgb, Theme, color_to_rgb, spec_color_to_rgb, spec_cube_channel,
    spec_theme_color};
pub use escape::{unescape_text, lemma_escape_char_roundtrip, lemma_escape_text_no_raw_reserved,
    lemma_escape_text_roundtrip, push_escaped, spec_entity_at, spec_escape_char,
    spec_escape_text, spec_is_reserved, spec_unescape_text};
pub use strfmt::{push_char, push_decimal, push_joined, push_milli_fixed, push_milli_trimmed,
    spec_decimal, spec_digit, spec_frac3, spec_join, spec_milli_fixed, spec_milli_trimmed};
