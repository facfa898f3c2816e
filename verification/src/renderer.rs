//! The renderer: fixed geometry and theme, a precomputed document header, and
//! the calls into the outside vector-graphics engine (`usvg`, `resvg`,
//! `tiny_skia`) that turn the compiled markup into pixels.

use vstd::prelude::*;
use vstd::seq_lib::lemma_concat_associative;
use rgb::FromSlice;
use crate::color::Theme;
use crate::coords::{CoordinateScheme, SchemeKind, MAX_FONT_SIZE, MAX_LINE_HEIGHT_MILLI,
    MAX_TERM_DIM};
use crate::document::{RenderError, compile_document, spec_grid_fits};
use crate::grid::{Line, spec_line_fits};
use crate::strfmt::{push_decimal, push_joined, push_milli_trimmed, spec_decimal, spec_join,
    spec_milli_trimmed};
use crate::svg::{push_coord, push_document_svg, push_fill_style, lemma_rows_svg_agrees,
    spec_body_svg, spec_coord_svg, spec_fill_style};

verus! {

/// Largest explicit canvas dimension, in pixels, a renderer accepts.
pub const MAX_PIXEL_DIM: usize = 100_000_000;

#[verifier::external_type_specification]
#[verifier::external_body]
pub struct ExOptions<'a>(usvg::Options<'a>);

#[verifier::external_type_specification]
#[verifier::external_body]
pub struct ExTree(usvg::Tree);

#[verifier::external_type_specification]
#[verifier::external_body]
pub struct ExDatabase(usvg::fontdb::Database);

#[verifier::external_type_specification]
#[verifier::external_body]
pub struct ExTransform(tiny_skia::Transform);

#[verifier::external_type_specification]
#[verifier::external_body]
pub struct ExPixmap(tiny_skia::Pixmap);

#[verifier::external_type_specification]
#[verifier::external_body]
#[verifier::reject_recursive_types(Container)]
pub struct ExImg<Container>(imgref::Img<Container>);

#[verifier::external_type_specification]
#[verifier::external_body]
#[verifier::reject_recursive_types(ComponentType)]
#[verifier::reject_recursive_types(AlphaComponentType)]
pub struct ExRGBA<ComponentType, AlphaComponentType>(rgb::RGBA<ComponentType, AlphaComponentType>);

/// Relies on `usvg::Options::default` and `std::sync::Arc::new`: default
/// parsing options carrying the given font database.
#[verifier::external_body]
fn make_options(db: usvg::fontdb::Database) -> usvg::Options<'static> {
    usvg::Options { fontdb: std::sync::Arc::new(db), ..usvg::Options::default() }
}

/// Relies on `tiny_skia::Transform::default`: the identity transform.
#[verifier::external_body]
fn identity_transform() -> tiny_skia::Transform {
    tiny_skia::Transform::default()
}

/// Relies on `usvg::Tree::from_str`: parses SVG text into a render tree,
/// `None` when the text is not a document these options accept.
#[verifier::external_body]
fn parse_tree(svg: &str, options: &usvg::Options) -> Option<usvg::Tree> {
    usvg::Tree::from_str(svg, options).ok()
}

/// Relies on `usvg::Tree::size` and `usvg::Size::width`/`height`: the parsed
/// document's natural size, truncated to whole pixels.
#[verifier::external_body]
fn tree_size(tree: &usvg::Tree) -> (u32, u32) {
    let size = tree.size();
    (size.width() as u32, size.height() as u32)
}

/// Relies on `tiny_skia::Pixmap::new`: a transparent pixmap of the given
/// size, `None` when a dimension is zero or too large for the engine.
#[verifier::external_body]
fn pixmap_new(width: u32, height: u32) -> Option<tiny_skia::Pixmap> {
    tiny_skia::Pixmap::new(width, height)
}

/// Relies on `resvg::render`: rasterizes the tree onto the pixmap.
#[verifier::external_body]
fn render_to_pixmap(
    tree: &usvg::Tree,
    transform: &tiny_skia::Transform,
    pixmap: &mut tiny_skia::Pixmap,
) {
    resvg::render(tree, *transform, &mut pixmap.as_mut());
}

/// Relies on `tiny_skia::Pixmap::take` and `rgb::FromSlice::as_rgba`: the
/// pixmap's RGBA bytes, regrouped one pixel per element.
#[verifier::external_body]
fn pixmap_take_rgba(pixmap: tiny_skia::Pixmap) -> Vec<rgb::RGBA8> {
    pixmap.take().as_rgba().to_vec()
}

/// Relies on `imgref::ImgVec::new`: wraps a contiguous pixel buffer. The
/// call panics outside these bounds, so they are required here.
#[verifier::external_body]
fn imgvec_new(buf: Vec<rgb::RGBA8>, width: usize, height: usize) -> imgref::ImgVec<rgb::RGBA8>
    requires
        1 <= width <= 4_294_967_295usize,
        height <= 4_294_967_295usize,
        buf@.len() == width * height,
{
    imgref::ImgVec::new(buf, width, height)
}

/// Everything a renderer is built from. The colors, metrics and sizes are
/// plain values; the font database is handed through to the engine untouched.
pub struct Settings {
    pub kind: SchemeKind,
    pub cols: usize,
    pub rows: usize,
    /// Font size in pixels.
    pub font_size: u64,
    /// Line height as a multiplier of the font size, in thousandths.
    pub line_height_milli: u64,
    pub font_families: Vec<String>,
    pub theme: Theme,
    /// Whether to fill the whole canvas with the theme background first.
    pub fill_background: bool,
    /// Explicit canvas size; both are required for the `AbsolutePixel`
    /// scheme and optional otherwise, where the probed natural size is used.
    pub pixel_width: Option<usize>,
    pub pixel_height: Option<usize>,
    pub font_db: usvg::fontdb::Database,
}

/// The bounds under which a renderer can be constructed: terminal size and
/// font metrics in range (so that no coordinate arithmetic can overflow), a
/// row height of at least one thousandth of a pixel, a well-formed theme,
/// and explicit pixel sizes where the scheme needs them.
pub open spec fn spec_settings_ok(s: Settings) -> bool {
    &&& 1 <= s.cols <= MAX_TERM_DIM
    &&& 1 <= s.rows <= MAX_TERM_DIM
    &&& 1 <= s.font_size <= MAX_FONT_SIZE
    &&& 1 <= s.line_height_milli <= MAX_LINE_HEIGHT_MILLI
    &&& s.theme.wf()
    &&& match s.pixel_width {
        Some(w) => 1 <= w <= MAX_PIXEL_DIM,
        None => !(s.kind is AbsolutePixel),
    }
    &&& match s.pixel_height {
        Some(h) => 1 <= h <= MAX_PIXEL_DIM,
        None => !(s.kind is AbsolutePixel),
    }
}

/// The coordinate scheme a renderer derives from its settings: the fixed
/// monospace width approximation of six tenths of the font size, and the row
/// height from the line-height multiplier.
pub open spec fn spec_scheme_for(s: Settings) -> CoordinateScheme {
    CoordinateScheme {
        kind: s.kind,
        cols: s.cols,
        rows: s.rows,
        char_width: (s.font_size * 600) as u64,
        row_height: (s.font_size * s.line_height_milli) as u64,
    }
}

/// The canvas width attribute: the explicit pixel width for the
/// `AbsolutePixel` scheme, the natural width otherwise.
pub open spec fn spec_canvas_w_text(scheme: CoordinateScheme, pw: Option<usize>) -> Seq<char> {
    match scheme.kind {
        SchemeKind::AbsolutePixel => match pw {
            Some(w) => spec_decimal(w as nat),
            None => Seq::empty(),
        },
        _ => spec_milli_trimmed(((scheme.cols + 2) * scheme.char_width) as nat),
    }
}

/// The canvas height attribute.
pub open spec fn spec_canvas_h_text(scheme: CoordinateScheme, ph: Option<usize>) -> Seq<char> {
    match scheme.kind {
        SchemeKind::AbsolutePixel => match ph {
            Some(h) => spec_decimal(h as nat),
            None => Seq::empty(),
        },
        _ => spec_milli_trimmed(((scheme.rows + 1) * scheme.row_height) as nat),
    }
}

/// The opening of the document, up to and including the style table.
pub open spec fn spec_header_open(
    scheme: CoordinateScheme,
    pw: Option<usize>,
    ph: Option<usize>,
    font_size: u64,
    families: Seq<Seq<char>>,
) -> Seq<char> {
    "<?xml version=\"1.0\"?>\n<svg xmlns=\"http://www.w3.org/2000/svg\" xmlns:xlink=\"http://www.w3.org/1999/xlink\" width=\""@
        + spec_canvas_w_text(scheme, pw) + "\" height=\""@ + spec_canvas_h_text(scheme, ph)
        + "\" font-size=\""@ + spec_decimal(font_size as nat) + "px\" font-family=\""@
        + spec_join(families, ","@)
        + "\">\n<style>\n.br { font-weight: bold }\n.it { font-style: italic }\n.un { text-decoration: underline }\n</style>\n"@
}

/// The whole-canvas background rectangle, when the background fill is on.
pub open spec fn spec_header_bg(theme: Theme, fill_background: bool) -> Seq<char> {
    if fill_background {
        "<rect width=\"100%\" height=\"100%\" rx=\"4\" ry=\"4\" style=\""@ + spec_fill_style(
            theme.background,
        ) + "\" />\n"@
    } else {
        Seq::empty()
    }
}

/// The inner drawing surface: offset by the scheme's margin, with the theme
/// foreground as the default fill for text.
pub open spec fn spec_header_inner(scheme: CoordinateScheme, theme: Theme) -> Seq<char> {
    "<svg x=\""@ + spec_coord_svg(scheme.spec_margin().0) + "\" y=\""@ + spec_coord_svg(
        scheme.spec_margin().1,
    ) + "\" style=\""@ + spec_fill_style(theme.foreground) + "\">\n"@
}

/// The fixed document header a renderer precomputes at construction.
pub open spec fn spec_header_svg(
    scheme: CoordinateScheme,
    pw: Option<usize>,
    ph: Option<usize>,
    font_size: u64,
    families: Seq<Seq<char>>,
    theme: Theme,
    fill_background: bool,
) -> Seq<char> {
    spec_header_open(scheme, pw, ph, font_size, families) + spec_header_bg(theme, fill_background)
        + spec_header_inner(scheme, theme)
}

/// The fixed closing of the document: the inner and the outer element.
pub fn footer() -> (r: &'static str)
    ensures
        r@ == "</svg></svg>"@,
{
    "</svg></svg>"
}

fn push_canvas_w(s: &mut String, scheme: &CoordinateScheme, pw: Option<usize>)
    requires
        scheme.wf(),
    ensures
        final(s)@ == old(s)@ + spec_canvas_w_text(*scheme, pw),
{
    match scheme.kind {
        SchemeKind::AbsolutePixel => {
            match pw {
                Some(w) => push_decimal(s, w as u64),
                None => {},
            }
        },
        _ => push_milli_trimmed(s, scheme.natural_width_milli()),
    }
    assert(final(s)@ =~= old(s)@ + spec_canvas_w_text(*scheme, pw));
}

fn push_canvas_h(s: &mut String, scheme: &CoordinateScheme, ph: Option<usize>)
    requires
        scheme.wf(),
    ensures
        final(s)@ == old(s)@ + spec_canvas_h_text(*scheme, ph),
{
    match scheme.kind {
        SchemeKind::AbsolutePixel => {
            match ph {
                Some(h) => push_decimal(s, h as u64),
                None => {},
            }
        },
        _ => push_milli_trimmed(s, scheme.natural_height_milli()),
    }
    assert(final(s)@ =~= old(s)@ + spec_canvas_h_text(*scheme, ph));
}

fn push_header_open(
    s: &mut String,
    scheme: &CoordinateScheme,
    pw: Option<usize>,
    ph: Option<usize>,
    font_size: u64,
    families: &Vec<String>,
)
    requires
        scheme.wf(),
    ensures
        final(s)@ == old(s)@ + spec_header_open(*scheme, pw, ph, font_size,
            families.deep_view()),
{
    let ghost m0 = s@;
    let ghost c1 =
        "<?xml version=\"1.0\"?>\n<svg xmlns=\"http://www.w3.org/2000/svg\" xmlns:xlink=\"http://www.w3.org/1999/xlink\" width=\""@;
    let ghost c2 = spec_canvas_w_text(*scheme, pw);
    let ghost c3 = "\" height=\""@;
    let ghost c4 = spec_canvas_h_text(*scheme, ph);
    let ghost c5 = "\" font-size=\""@;
    let ghost c6 = spec_decimal(font_size as nat);
    let ghost c7 = "px\" font-family=\""@;
    let ghost c8 = spec_join(families.deep_view(), ","@);
    let ghost c9 =
        "\">\n<style>\n.br { font-weight: bold }\n.it { font-style: italic }\n.un { text-decoration: underline }\n</style>\n"@;
    s.append(
        "<?xml version=\"1.0\"?>\n<svg xmlns=\"http://www.w3.org/2000/svg\" xmlns:xlink=\"http://www.w3.org/1999/xlink\" width=\"",
    );
    push_canvas_w(s, scheme, pw);
    s.append("\" height=\"");
    push_canvas_h(s, scheme, ph);
    s.append("\" font-size=\"");
    push_decimal(s, font_size);
    s.append("px\" font-family=\"");
    push_joined(s, families, ",");
    s.append(
        "\">\n<style>\n.br { font-weight: bold }\n.it { font-style: italic }\n.un { text-decoration: underline }\n</style>\n",
    );
    proof {
        lemma_concat_associative(m0, c1, c2);
        lemma_concat_associative(m0, c1 + c2, c3);
        lemma_concat_associative(m0, c1 + c2 + c3, c4);
        lemma_concat_associative(m0, c1 + c2 + c3 + c4, c5);
        lemma_concat_associative(m0, c1 + c2 + c3 + c4 + c5, c6);
        lemma_concat_associative(m0, c1 + c2 + c3 + c4 + c5 + c6, c7);
        lemma_concat_associative(m0, c1 + c2 + c3 + c4 + c5 + c6 + c7, c8);
        lemma_concat_associative(m0, c1 + c2 + c3 + c4 + c5 + c6 + c7 + c8, c9);
    }
}

fn push_header_bg(s: &mut String, theme: &Theme, fill_background: bool)
    ensures
        final(s)@ == old(s)@ + spec_header_bg(*theme, fill_background),
{
    if fill_background {
        s.append("<rect width=\"100%\" height=\"100%\" rx=\"4\" ry=\"4\" style=\"");
        push_fill_style(s, theme.background);
        s.append("\" />\n");
    }
    assert(final(s)@ =~= old(s)@ + spec_header_bg(*theme, fill_background));
}

fn push_header_inner(s: &mut String, scheme: &CoordinateScheme, theme: &Theme)
    requires
        scheme.wf(),
    ensures
        final(s)@ == old(s)@ + spec_header_inner(*scheme, *theme),
{
    let margin = scheme.margin();
    s.append("<svg x=\"");
    push_coord(s, margin.0);
    s.append("\" y=\"");
    push_coord(s, margin.1);
    s.append("\" style=\"");
    push_fill_style(s, theme.foreground);
    s.append("\">\n");
    assert(final(s)@ =~= old(s)@ + spec_header_inner(*scheme, *theme));
}

fn build_header(
    scheme: &CoordinateScheme,
    pw: Option<usize>,
    ph: Option<usize>,
    font_size: u64,
    families: &Vec<String>,
    theme: &Theme,
    fill_background: bool,
) -> (r: String)
    requires
        scheme.wf(),
    ensures
        r@ == spec_header_svg(*scheme, pw, ph, font_size, families.deep_view(), *theme,
            fill_background),
{
    let mut s = String::new();
    push_header_open(&mut s, scheme, pw, ph, font_size, families);
    push_header_bg(&mut s, theme, fill_background);
    push_header_inner(&mut s, scheme, theme);
    proof {
        assert(s@ =~= spec_header_svg(*scheme, pw, ph, font_size, families.deep_view(), *theme,
            fill_background));
    }
    s
}

/// A renderer instance: the theme, the coordinate scheme derived once from
/// the settings, the canvas pixel size fixed at construction, and the
/// precomputed document header.
pub struct ResvgRenderer {
    pub theme: Theme,
    pub scheme: CoordinateScheme,
    pub font_size: u64,
    pub font_families: Vec<String>,
    pub fill_background: bool,
    pub pixel_width: usize,
    pub pixel_height: usize,
    pub header: String,
    pub options: usvg::Options<'static>,
    pub transform: tiny_skia::Transform,
}

impl ResvgRenderer {
    /// The invariant every constructed renderer has: geometry in range and
    /// the header exactly the one its fields describe.
    pub open spec fn wf(&self) -> bool {
        &&& self.theme.wf()
        &&& self.scheme.wf()
        &&& 1 <= self.font_size <= MAX_FONT_SIZE
        &&& self.pixel_width <= 4_294_967_295usize
        &&& self.pixel_height <= 4_294_967_295usize
        &&& self.header@ == spec_header_svg(self.scheme, Some(self.pixel_width),
            Some(self.pixel_height), self.font_size, self.font_families.deep_view(), self.theme,
            self.fill_background)
    }

    /// Builds a renderer: validates the settings, derives the geometry,
    /// precomputes the header, and makes the bootstrap probe through the
    /// engine — an empty document is compiled once and its natural size read
    /// back, which fixes the canvas size where the settings leave it open.
    pub fn new(settings: Settings) -> (r: Result<Self, RenderError>)
        ensures
            match r {
                Ok(rr) => {
                    &&& spec_settings_ok(settings)
                    &&& rr.wf()
                    &&& rr.theme == settings.theme
                    &&& rr.scheme == spec_scheme_for(settings)
                    &&& rr.font_size == settings.font_size
                    &&& rr.font_families == settings.font_families
                    &&& rr.fill_background == settings.fill_background
                    &&& (settings.pixel_width is Some ==> rr.pixel_width
                        == settings.pixel_width->0)
                    &&& (settings.pixel_height is Some ==> rr.pixel_height
                        == settings.pixel_height->0)
                },
                Err(RenderError::BadMetrics) => !spec_settings_ok(settings),
                Err(RenderError::ProbeFailed) => spec_settings_ok(settings),
                Err(_) => false,
            },
    {
        let font_ok = 1 <= settings.font_size && settings.font_size <= MAX_FONT_SIZE
            && 1 <= settings.line_height_milli
            && settings.line_height_milli <= MAX_LINE_HEIGHT_MILLI;
        proof {
            if font_ok {
                assert(settings.font_size * settings.line_height_milli <= 10_000u64
                    * 1_000_000u64) by (nonlinear_arith)
                    requires
                        settings.font_size <= 10_000,
                        settings.line_height_milli <= 1_000_000,
                ;
            }
        }
        let metrics_ok = 1 <= settings.cols && settings.cols as u64 <= MAX_TERM_DIM
            && 1 <= settings.rows && settings.rows as u64 <= MAX_TERM_DIM && font_ok
            && settings.theme.palette.len() >= 16 && settings.theme.palette.len() <= 256;
        let width_ok = match settings.pixel_width {
            Some(w) => 1 <= w && w <= MAX_PIXEL_DIM,
            None => !matches!(settings.kind, SchemeKind::AbsolutePixel),
        };
        let height_ok = match settings.pixel_height {
            Some(h) => 1 <= h && h <= MAX_PIXEL_DIM,
            None => !matches!(settings.kind, SchemeKind::AbsolutePixel),
        };
        if !(metrics_ok && width_ok && height_ok) {
            return Err(RenderError::BadMetrics);
        }
        let char_width = settings.font_size * 600;
        proof {
            assert(1u64 <= settings.font_size * settings.line_height_milli
                && settings.font_size * settings.line_height_milli <= 10_000u64
                * 1_000_000u64) by (nonlinear_arith)
                requires
                    1 <= settings.font_size <= 10_000,
                    1 <= settings.line_height_milli <= 1_000_000,
            ;
        }
        let row_height = settings.font_size * settings.line_height_milli;
        let scheme = CoordinateScheme {
            kind: settings.kind,
            cols: settings.cols,
            rows: settings.rows,
            char_width,
            row_height,
        };
        assert(scheme.wf());
        let header = build_header(
            &scheme,
            settings.pixel_width,
            settings.pixel_height,
            settings.font_size,
            &settings.font_families,
            &settings.theme,
            settings.fill_background,
        );
        let options = make_options(settings.font_db);
        let transform = identity_transform();
        let mut probe = header.clone();
        probe.append(footer());
        let tree = match parse_tree(probe.as_str(), &options) {
            Some(t) => t,
            None => {
                return Err(RenderError::ProbeFailed);
            },
        };
        let natural = tree_size(&tree);
        let pixel_width = match settings.pixel_width {
            Some(w) => w,
            None => natural.0 as usize,
        };
        let pixel_height = match settings.pixel_height {
            Some(h) => h,
            None => natural.1 as usize,
        };
        Ok(
            ResvgRenderer {
                theme: settings.theme,
                scheme,
                font_size: settings.font_size,
                font_families: settings.font_families,
                fill_background: settings.fill_background,
                pixel_width,
                pixel_height,
                header,
                options,
                transform,
            },
        )
    }

    /// The canvas size in pixels, fixed at construction.
    pub fn pixel_size(&self) -> (r: (usize, usize))
        ensures
            r == (self.pixel_width, self.pixel_height),
    {
        (self.pixel_width, self.pixel_height)
    }

    /// Compiles a grid and a cursor to the full markup text: the precomputed
    /// header, the background pass, the text pass, and the footer.
    pub fn render_svg(&self, lines: &[Line], cursor: Option<(usize, usize)>) -> (r: Result<
        String,
        RenderError,
    >)
        requires
            self.wf(),
        ensures
            match r {
                Ok(svg) => {
                    &&& spec_grid_fits(lines@, self.scheme)
                    &&& svg@ == self.header@ + spec_body_svg(lines@, cursor, self.theme,
                        self.scheme) + "</svg></svg>"@
                },
                Err(RenderError::GridTooTall) => lines@.len() > self.scheme.rows,
                Err(RenderError::RowMisfit(q)) => {
                    &&& lines@.len() <= self.scheme.rows
                    &&& q < lines@.len()
                    &&& !spec_line_fits(lines@[q as int].cells@, self.scheme.cols)
                    &&& forall|p: int|
                        0 <= p < q ==> spec_line_fits(#[trigger] lines@[p].cells@,
                            self.scheme.cols)
                },
                Err(_) => false,
            },
    {
        let doc = match compile_document(lines, cursor, &self.theme, &self.scheme) {
            Ok(doc) => doc,
            Err(e) => {
                return Err(e);
            },
        };
        let mut svg = self.header.clone();
        let ghost m0 = svg@;
        push_document_svg(&mut svg, &doc);
        proof {
            lemma_rows_svg_agrees(doc.rows@, lines@, 0, cursor, self.theme, self.scheme);
        }
        svg.append(footer());
        proof {
            assert(svg@ =~= self.header@ + spec_body_svg(lines@, cursor, self.theme, self.scheme)
                + "</svg></svg>"@);
        }
        Ok(svg)
    }

    /// Rasterizes markup text through the engine at this renderer's canvas
    /// size. `None` when the engine refuses the document or the size; for a
    /// document this renderer compiled itself that is an engine failure, not
    /// a property of the grid.
    pub fn render_pixmap(&self, svg: &str) -> (r: Option<tiny_skia::Pixmap>)
        requires
            self.wf(),
    {
        let tree = match parse_tree(svg, &self.options) {
            Some(t) => t,
            None => {
                return None;
            },
        };
        let mut pixmap = match pixmap_new(self.pixel_width as u32, self.pixel_height as u32) {
            Some(p) => p,
            None => {
                return None;
            },
        };
        render_to_pixmap(&tree, &self.transform, &mut pixmap);
        Some(pixmap)
    }

    /// Renders a grid to a pixel buffer: compile to markup, rasterize, and
    /// hand the pixels out with the canvas dimensions.
    pub fn render(&self, lines: &[Line], cursor: Option<(usize, usize)>) -> (r: Result<
        imgref::ImgVec<rgb::RGBA8>,
        RenderError,
    >)
        requires
            self.wf(),
        ensures
            match r {
                Ok(_) => spec_grid_fits(lines@, self.scheme),
                Err(RenderError::GridTooTall) => lines@.len() > self.scheme.rows,
                Err(RenderError::RowMisfit(q)) => {
                    &&& q < lines@.len()
                    &&& !spec_line_fits(lines@[q as int].cells@, self.scheme.cols)
                },
                Err(RenderError::RasterFailed) => spec_grid_fits(lines@, self.scheme),
                Err(_) => false,
            },
    {
        let svg = match self.render_svg(lines, cursor) {
            Ok(svg) => svg,
            Err(e) => {
                return Err(e);
            },
        };
        let pixmap = match self.render_pixmap(svg.as_str()) {
            Some(p) => p,
            None => {
                return Err(RenderError::RasterFailed);
            },
        };
        let buf = pixmap_take_rgba(pixmap);
        proof {
            assert((self.pixel_width as u64) * (self.pixel_height as u64) <= 4_294_967_295u64
                * 4_294_967_295u64) by (nonlinear_arith)
                requires
                    self.pixel_width as u64 <= 4_294_967_295u64,
                    self.pixel_height as u64 <= 4_294_967_295u64,
            ;
        }
        let expected: u64 = (self.pixel_width as u64) * (self.pixel_height as u64);
        if self.pixel_width >= 1 && buf.len() as u64 == expected {
            Ok(imgvec_new(buf, self.pixel_width, self.pixel_height))
        } else {
            Err(RenderError::RasterFailed)
        }
    }
}

} // verus!
