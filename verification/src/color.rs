//! Colors and themes: the raw color values a cell's pen may carry, and the
//! theme that maps palette indices and defaults to concrete RGB values.

use vstd::prelude::*;

verus! {

/// A concrete color: one byte per channel.
#[derive(Clone, Copy, PartialEq, Eq, Structural, Debug)]
pub struct Rgb {
    pub r: u8,
    pub g: u8,
    pub b: u8,
}

/// A color as a cell's pen states it: either an index into the palette of the
/// active theme (extended past the palette by the conventional 256-color
/// cube and grayscale ramps) or a concrete RGB value.
#[derive(Clone, Copy, PartialEq, Eq, Structural, Debug)]
pub enum Color {
    Indexed(u8),
    Rgb(Rgb),
}

/// A theme: the default foreground and background colors, and a palette of at
/// least 16 concrete colors for the low indexed colors.
#[derive(Clone, Debug)]
pub struct Theme {
    pub foreground: Rgb,
    pub background: Rgb,
    pub palette: Vec<Rgb>,
}

impl Theme {
    /// A theme is well formed when its palette covers the 16 base colors.
    pub open spec fn wf(&self) -> bool {
        16 <= self.palette@.len() <= 256
    }
}

/// The color of one channel of the conventional 6-level color cube.
pub open spec fn spec_cube_channel(v: nat) -> nat {
    if v == 0 {
        0
    } else {
        55 + 40 * v
    }
}

/// The concrete color a theme assigns to a palette index: the palette itself
/// for the low indices, then the 6x6x6 color cube, then the grayscale ramp.
pub open spec fn spec_theme_color(theme: Theme, idx: u8) -> Rgb {
    if idx < theme.palette@.len() {
        theme.palette@[idx as int]
    } else if idx < 232 {
        let n = (idx - 16) as nat;
        Rgb {
            r: spec_cube_channel(n / 36) as u8,
            g: spec_cube_channel((n / 6) % 6) as u8,
            b: spec_cube_channel(n % 6) as u8,
        }
    } else {
        let level = (8 + 10 * (idx - 232)) as u8;
        Rgb { r: level, g: level, b: level }
    }
}

/// The concrete color a pen color resolves to under a theme.
pub open spec fn spec_color_to_rgb(color: Color, theme: Theme) -> Rgb {
    match color {
        Color::Indexed(idx) => spec_theme_color(theme, idx),
        Color::Rgb(rgb) => rgb,
    }
}

impl Theme {
    /// Looks a palette index up, extending the palette by the 256-color cube
    /// and grayscale ramps.
    pub fn color(&self, idx: u8) -> (r: Rgb)
        requires
            self.wf(),
        ensures
            r == spec_theme_color(*self, idx),
    {
        if (idx as usize) < self.palette.len() {
            self.palette[idx as usize]
        } else if idx < 232 {
            let n: u8 = idx - 16;
            Rgb {
                r: cube_channel(n / 36),
                g: cube_channel((n / 6) % 6),
                b: cube_channel(n % 6),
            }
        } else {
            let level: u8 = 8 + 10 * (idx - 232);
            Rgb { r: level, g: level, b: level }
        }
    }
}

/// One channel of the 6-level color cube.
fn cube_channel(v: u8) -> (r: u8)
    requires
        v < 6,
    ensures
        r == spec_cube_channel(v as nat),
{
    if v == 0 {
        0
    } else {
        55 + 40 * v
    }
}

/// Resolves a pen color to a concrete color under a theme.
pub fn color_to_rgb(color: &Color, theme: &Theme) -> (r: Rgb)
    requires
        theme.wf(),
    ensures
        r == spec_color_to_rgb(*color, *theme),
{
    match color {
        Color::Indexed(idx) => theme.color(*idx),
        Color::Rgb(rgb) => *rgb,
    }
}

} // verus!
