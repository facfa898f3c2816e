use termsvg::{Cell, Color, CoordinateScheme, Line, Pen, Rgb, RenderError, ResvgRenderer,
    SchemeKind, Settings, TextAttrs, Theme, Unit, color_to_rgb, color_to_style, compile_document,
    effective_bg, effective_fg, line_fits, rect_style, text_attrs, text_class, text_style};

fn theme() -> Theme {
    let mut palette = Vec::new();
    for i in 0..16u16 {
        let v = (i * 12) as u8;
        palette.push(Rgb { r: v, g: v, b: v });
    }
    Theme {
        foreground: Rgb { r: 205, g: 205, b: 205 },
        background: Rgb { r: 16, g: 16, b: 16 },
        palette,
    }
}

fn plain_pen() -> Pen {
    Pen {
        foreground: None,
        background: None,
        bold: false,
        italic: false,
        underline: false,
        reverse: false,
    }
}

fn cell(ch: char, width: usize, pen: Pen) -> Cell {
    Cell { ch, width, pen }
}

fn char_scheme(cols: usize, rows: usize, font_size: u64) -> CoordinateScheme {
    CoordinateScheme {
        kind: SchemeKind::CharDerived,
        cols,
        rows,
        char_width: font_size * 600,
        row_height: font_size * 1000,
    }
}

fn settings(kind: SchemeKind, cols: usize, rows: usize) -> Settings {
    Settings {
        kind,
        cols,
        rows,
        font_size: 10,
        line_height_milli: 1000,
        font_families: vec!["monospace".to_string()],
        theme: theme(),
        fill_background: false,
        pixel_width: None,
        pixel_height: None,
        font_db: usvg::fontdb::Database::new(),
    }
}

#[test]
fn theme_color_palette_cube_and_gray() {
    let t = theme();
    assert_eq!(t.color(3), Rgb { r: 36, g: 36, b: 36 });
    // 196 = 16 + 5*36: pure red corner of the color cube
    assert_eq!(t.color(196), Rgb { r: 255, g: 0, b: 0 });
    // grayscale ramp
    assert_eq!(t.color(240), Rgb { r: 88, g: 88, b: 88 });
    assert_eq!(
        color_to_rgb(&Color::Rgb(Rgb { r: 1, g: 2, b: 3 }), &t),
        Rgb { r: 1, g: 2, b: 3 }
    );
}

#[test]
fn reverse_video_falls_back_to_theme_defaults() {
    let t = theme();
    let pen = Pen { reverse: true, ..plain_pen() };
    let attrs = text_attrs(&pen, &None, 0, 0, &t);
    assert_eq!(attrs.foreground, Some(Color::Rgb(t.background)));
    assert_eq!(attrs.background, Some(Color::Rgb(t.foreground)));
}

#[test]
fn cursor_overlay_inverts_plain_cell() {
    let t = theme();
    let attrs = text_attrs(&plain_pen(), &Some((3, 2)), 3, 2, &t);
    assert_eq!(attrs.foreground, Some(Color::Rgb(t.background)));
    assert_eq!(attrs.background, Some(Color::Rgb(t.foreground)));
    // a cursor elsewhere covers nothing
    let off = text_attrs(&plain_pen(), &Some((3, 2)), 4, 2, &t);
    assert_eq!(off.foreground, None);
    assert_eq!(off.background, None);
}

#[test]
fn double_inversion_cancels() {
    let t = theme();
    let red = Rgb { r: 255, g: 0, b: 0 };
    for fg in [None, Some(Color::Rgb(red)), Some(Color::Indexed(3))] {
        let doubled_pen = Pen { foreground: fg, reverse: true, ..plain_pen() };
        let plain = Pen { foreground: fg, ..plain_pen() };
        let doubled = text_attrs(&doubled_pen, &Some((0, 0)), 0, 0, &t);
        let base = text_attrs(&plain, &None, 0, 0, &t);
        assert_eq!(effective_fg(&doubled, &t), effective_fg(&base, &t));
        assert_eq!(effective_bg(&doubled, &t), effective_bg(&base, &t));
        assert_eq!(doubled.bold, base.bold);
        assert_eq!(doubled.italic, base.italic);
        assert_eq!(doubled.underline, base.underline);
    }
}

#[test]
fn text_class_composes_flags() {
    let mut attrs = TextAttrs {
        foreground: None,
        background: None,
        bold: false,
        italic: false,
        underline: false,
    };
    assert_eq!(text_class(&attrs), "");
    attrs.bold = true;
    attrs.underline = true;
    assert_eq!(text_class(&attrs), "br un");
    attrs.bold = false;
    attrs.underline = false;
    attrs.italic = true;
    assert_eq!(text_class(&attrs), " it");
}

#[test]
fn text_style_inherits_when_no_foreground() {
    let t = theme();
    let attrs = text_attrs(&plain_pen(), &None, 0, 0, &t);
    assert_eq!(text_style(&attrs, &t), "");
    let red_pen = Pen { foreground: Some(Color::Rgb(Rgb { r: 255, g: 0, b: 0 })), ..plain_pen() };
    let red_attrs = text_attrs(&red_pen, &None, 0, 0, &t);
    assert_eq!(text_style(&red_attrs, &t), "fill: rgb(255,0,0)");
    assert_eq!(rect_style(&red_attrs, &t), "");
    let bg_pen = Pen { background: Some(Color::Indexed(196)), ..plain_pen() };
    let bg_attrs = text_attrs(&bg_pen, &None, 0, 0, &t);
    assert_eq!(rect_style(&bg_attrs, &t), "fill: rgb(255,0,0)");
    assert_eq!(color_to_style(&Color::Indexed(240), &t), "fill: rgb(88,88,88)");
}

#[test]
fn background_pass_is_sparse() {
    let t = theme();
    let scheme = char_scheme(2, 1, 10);
    // explicit background equal to the theme default still produces a
    // rectangle; an inherited background produces none
    let lines = vec![Line {
        cells: vec![
            cell('A', 1, plain_pen()),
            cell(' ', 1, Pen { background: Some(Color::Rgb(t.background)), ..plain_pen() }),
        ],
    }];
    let doc = compile_document(&lines, None, &t, &scheme).unwrap();
    assert_eq!(doc.rects.len(), 1);
    assert_eq!(doc.rects[0].rect.x.milli, 6000);
    assert_eq!(doc.rects[0].fill, t.background);
}

#[test]
fn one_text_run_per_visible_glyph() {
    let t = theme();
    let scheme = char_scheme(4, 1, 10);
    let lines = vec![Line {
        cells: vec![
            cell('a', 1, plain_pen()),
            cell(' ', 1, plain_pen()),
            cell('b', 1, plain_pen()),
        ],
    }];
    let doc = compile_document(&lines, None, &t, &scheme).unwrap();
    assert_eq!(doc.rows.len(), 1);
    let runs = &doc.rows[0].runs;
    assert_eq!(runs.len(), 2);
    assert_eq!(runs[0].ch, 'a');
    assert_eq!(runs[0].x.milli, 0);
    assert_eq!(runs[1].ch, 'b');
    assert_eq!(runs[1].x.milli, 12000);
}

#[test]
fn wide_cells_advance_two_columns() {
    let t = theme();
    let scheme = char_scheme(4, 1, 10);
    let bg = Pen { background: Some(Color::Rgb(t.background)), ..plain_pen() };
    let lines = vec![Line { cells: vec![cell('W', 2, bg), cell('x', 1, bg)] }];
    let doc = compile_document(&lines, None, &t, &scheme).unwrap();
    assert_eq!(doc.rects.len(), 2);
    // the wide cell's rectangle spans two character widths
    assert_eq!(doc.rects[0].rect.x.milli, 0);
    assert_eq!(doc.rects[0].rect.w.milli, 12000);
    // the next cell starts two columns in, in both passes
    assert_eq!(doc.rects[1].rect.x.milli, 12000);
    let runs = &doc.rows[0].runs;
    assert_eq!(runs.len(), 2);
    assert_eq!(runs[1].x.milli, 12000);
}

#[test]
fn grid_that_does_not_fit_is_rejected() {
    let t = theme();
    let scheme = char_scheme(2, 1, 10);
    let row = Line { cells: vec![cell('a', 1, plain_pen())] };
    let two_rows = vec![row.clone(), row.clone()];
    assert_eq!(
        compile_document(&two_rows, None, &t, &scheme),
        Err(RenderError::GridTooTall)
    );
    let too_wide = vec![Line {
        cells: vec![cell('a', 2, plain_pen()), cell('b', 1, plain_pen())],
    }];
    assert_eq!(
        compile_document(&too_wide, None, &t, &scheme),
        Err(RenderError::RowMisfit(0))
    );
    let bad_width = Line { cells: vec![cell('a', 3, plain_pen())] };
    assert!(!line_fits(&bad_width, 100));
    let two_row_scheme = char_scheme(2, 2, 10);
    assert_eq!(
        compile_document(&vec![row, bad_width], None, &t, &two_row_scheme),
        Err(RenderError::RowMisfit(1))
    );
}

#[test]
fn percentage_scheme_positions() {
    let scheme = CoordinateScheme {
        kind: SchemeKind::Percentage,
        cols: 8,
        rows: 4,
        char_width: 6000,
        row_height: 10000,
    };
    let r = scheme.cell_rect(2, 5, 1);
    assert_eq!(r.x.milli, 50000);
    assert_eq!(r.x.unit, Unit::Percent);
    assert_eq!(r.y.milli, 40000);
    assert_eq!(r.w.milli, 10000);
    assert_eq!(r.h.milli, 10000);
    assert_eq!(r.h.unit, Unit::Px);
}

#[test]
fn char_derived_canvas_matches_formula() {
    // the probed natural size equals (cols+2) x char_width by (rows+1) x
    // row_height, up to the engine's whole-pixel truncation
    let mut s = settings(SchemeKind::CharDerived, 80, 24);
    s.font_size = 14;
    s.line_height_milli = 1400;
    let r = ResvgRenderer::new(s).unwrap();
    // width: 82 * 8.4 = 688.8 px; height: 25 * 19.6 = 490 px
    assert_eq!(r.pixel_size(), (688, 490));
}

#[test]
fn explicit_pixel_size_wins() {
    let mut s = settings(SchemeKind::AbsolutePixel, 80, 24);
    s.pixel_width = Some(640);
    s.pixel_height = Some(480);
    let r = ResvgRenderer::new(s).unwrap();
    assert_eq!(r.pixel_size(), (640, 480));
    assert!(r.header.contains("width=\"640\""));
    assert!(r.header.contains("height=\"480\""));
}

#[test]
fn out_of_range_metrics_are_rejected() {
    let mut s = settings(SchemeKind::CharDerived, 80, 24);
    s.font_size = 0;
    assert!(matches!(ResvgRenderer::new(s), Err(RenderError::BadMetrics)));
    let mut s = settings(SchemeKind::AbsolutePixel, 80, 24);
    s.pixel_width = None;
    assert!(matches!(ResvgRenderer::new(s), Err(RenderError::BadMetrics)));
    let mut s = settings(SchemeKind::CharDerived, 80, 24);
    s.cols = 0;
    assert!(matches!(ResvgRenderer::new(s), Err(RenderError::BadMetrics)));
}

#[test]
fn render_svg_exact_document() {
    let t = theme();
    let r = ResvgRenderer::new(settings(SchemeKind::CharDerived, 2, 1)).unwrap();
    let red = Rgb { r: 255, g: 0, b: 0 };
    let lines = vec![Line {
        cells: vec![
            cell('A', 1, Pen { foreground: Some(Color::Rgb(red)), ..plain_pen() }),
            cell(' ', 1, Pen { background: Some(Color::Rgb(t.background)), ..plain_pen() }),
        ],
    }];
    let svg = r.render_svg(&lines, None).unwrap();
    let mut expected = String::new();
    expected.push_str("<?xml version=\"1.0\"?>\n<svg xmlns=\"http://www.w3.org/2000/svg\" xmlns:xlink=\"http://www.w3.org/1999/xlink\" width=\"24\" height=\"20\" font-size=\"10px\" font-family=\"monospace\">\n");
    expected.push_str("<style>\n.br { font-weight: bold }\n.it { font-style: italic }\n.un { text-decoration: underline }\n</style>\n");
    expected.push_str("<svg x=\"6.000\" y=\"5.000\" style=\"fill: rgb(205,205,205)\">\n");
    expected.push_str("<g style=\"shape-rendering: optimizeSpeed\">\n");
    expected.push_str("<rect x=\"6.000\" y=\"0.000\" width=\"6.000\" height=\"10.000\" style=\"fill: rgb(16,16,16)\" />\n");
    expected.push_str("</g>\n<text class=\"default-text-fill\">\n");
    expected.push_str("<tspan y=\"0.000\"><tspan dy=\"1em\" x=\"0.000\" class=\"\" style=\"fill: rgb(255,0,0)\">A</tspan>\n");
    expected.push_str("</tspan>\n</text>\n</svg></svg>");
    assert_eq!(svg, expected);
}

#[test]
fn reverse_cursor_cell_emits_escaped_glyph() {
    let t = theme();
    let r = ResvgRenderer::new(settings(SchemeKind::CharDerived, 1, 1)).unwrap();
    let pen = Pen { reverse: true, ..plain_pen() };
    let lines = vec![Line { cells: vec![cell('&', 1, pen)] }];
    let svg = r.render_svg(&lines, Some((0, 0))).unwrap();
    assert!(svg.contains(">&amp;</tspan>"));
    // double inversion: the run's fill is back to the theme foreground
    assert!(svg.contains("style=\"fill: rgb(205,205,205)\">&amp;"));
    let attrs = text_attrs(&pen, &Some((0, 0)), 0, 0, &t);
    assert_eq!(effective_fg(&attrs, &t), t.foreground);
    assert_eq!(effective_bg(&attrs, &t), t.background);
}

#[test]
fn fill_background_paints_whole_canvas() {
    let mut s = settings(SchemeKind::CharDerived, 2, 1);
    s.fill_background = true;
    let r = ResvgRenderer::new(s).unwrap();
    assert!(r.header.contains(
        "<rect width=\"100%\" height=\"100%\" rx=\"4\" ry=\"4\" style=\"fill: rgb(16,16,16)\" />"
    ));
}

#[test]
fn percentage_scheme_emits_percent_units() {
    let r = ResvgRenderer::new(settings(SchemeKind::Percentage, 8, 4)).unwrap();
    let lines = vec![Line { cells: vec![cell('x', 1, plain_pen())] }];
    let svg = r.render_svg(&lines, None).unwrap();
    assert!(svg.contains("x=\"0.000%\""));
    assert!(r.header.contains("<svg x=\"10.000%\" y=\"10.000%\""));
}

#[test]
fn render_pixmap_has_canvas_size() {
    let r = ResvgRenderer::new(settings(SchemeKind::CharDerived, 4, 2)).unwrap();
    let lines = vec![Line { cells: vec![cell('A', 1, plain_pen())] }];
    let svg = r.render_svg(&lines, None).unwrap();
    let pixmap = r.render_pixmap(&svg).unwrap();
    assert_eq!(pixmap.width() as usize, r.pixel_size().0);
    assert_eq!(pixmap.height() as usize, r.pixel_size().1);
}

#[test]
fn render_pixmap_rejects_garbage() {
    let r = ResvgRenderer::new(settings(SchemeKind::CharDerived, 4, 2)).unwrap();
    assert!(r.render_pixmap("this is not a document").is_none());
}

#[test]
fn render_returns_pixel_buffer() {
    let r = ResvgRenderer::new(settings(SchemeKind::CharDerived, 4, 2)).unwrap();
    let lines = vec![Line { cells: vec![cell('A', 1, plain_pen())] }];
    let img = r.render(&lines, None).unwrap();
    assert_eq!(img.width(), r.pixel_size().0);
    assert_eq!(img.height(), r.pixel_size().1);
    assert_eq!(img.buf().len(), img.width() * img.height());
    let tall = vec![
        Line { cells: vec![cell('A', 1, plain_pen())] },
        Line { cells: vec![cell('B', 1, plain_pen())] },
        Line { cells: vec![cell('C', 1, plain_pen())] },
    ];
    assert!(matches!(r.render(&tall, None), Err(RenderError::GridTooTall)));
}
