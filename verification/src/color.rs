//! Color values with 8-bit channels, and conversions between the packed
//! `0xAARRGGBB` form and the platform's `0x00BBGGRR` color-reference form.
//!
//! The renderer consumes these as normalized floating-point channels; that
//! conversion happens in the host, outside this crate.

use vstd::prelude::*;

verus! {

/// A color with 8-bit alpha, red, green and blue channels.
#[derive(Clone, Copy, Debug, PartialEq, Eq, Structural)]
pub struct Color {
    pub a: u8,
    pub r: u8,
    pub g: u8,
    pub b: u8,
}

/// The channels packed as `0xAARRGGBB`, unpacked.
pub open spec fn spec_color_from_argb(argb: u32) -> Color {
    Color {
        a: ((argb >> 24) & 0xff) as u8,
        r: ((argb >> 16) & 0xff) as u8,
        g: ((argb >> 8) & 0xff) as u8,
        b: (argb & 0xff) as u8,
    }
}

/// Unpacks a `0xAARRGGBB` value into its four channels.
pub fn color_from_argb(argb: u32) -> (c: Color)
    ensures
        c == spec_color_from_argb(argb),
{
    Color {
        a: ((argb >> 24) & 0xff) as u8,
        r: ((argb >> 16) & 0xff) as u8,
        g: ((argb >> 8) & 0xff) as u8,
        b: (argb & 0xff) as u8,
    }
}

/// A color reference packs blue high and red low: `0x00BBGGRR`; alpha is
/// taken as fully opaque.
pub open spec fn spec_color_from_colorref(colorref: u32) -> Color {
    Color {
        a: 255,
        r: (colorref & 0xff) as u8,
        g: ((colorref >> 8) & 0xff) as u8,
        b: ((colorref >> 16) & 0xff) as u8,
    }
}

/// Unpacks a `0x00BBGGRR` color reference into an opaque color.
pub fn color_from_colorref(colorref: u32) -> (c: Color)
    ensures
        c == spec_color_from_colorref(colorref),
{
    Color {
        a: 255,
        r: (colorref & 0xff) as u8,
        g: ((colorref >> 8) & 0xff) as u8,
        b: ((colorref >> 16) & 0xff) as u8,
    }
}

/// The `0x00BBGGRR` packing of the color's channels; alpha is dropped.
pub open spec fn spec_color_to_colorref(c: Color) -> u32 {
    (c.r as u32) | ((c.g as u32) << 8) | ((c.b as u32) << 16)
}

/// Packs a color as a `0x00BBGGRR` color reference, dropping alpha.
pub fn color_to_colorref(c: Color) -> (colorref: u32)
    ensures
        colorref == spec_color_to_colorref(c),
{
    (c.r as u32) | ((c.g as u32) << 8) | ((c.b as u32) << 16)
}

/// The platform's color-reference encoding of three channels: `0x00BBGGRR`.
pub open spec fn spec_rgb(r: u8, g: u8, b: u8) -> u32 {
    (r as u32) | ((g as u32) << 8) | ((b as u32) << 16)
}

/// Packs red, green and blue as a `0x00BBGGRR` color reference.
pub fn rgb(r: u8, g: u8, b: u8) -> (colorref: u32)
    ensures
        colorref == spec_rgb(r, g, b),
{
    (r as u32) | ((g as u32) << 8) | ((b as u32) << 16)
}

/// One fill color per interaction state.
#[derive(Clone, Copy, Debug, PartialEq, Eq, Structural)]
pub struct Colors {
    pub default: Color,
    pub hover: Color,
    pub down: Color,
}

impl Colors {
    /// Builds a color set from its three state colors.
    pub fn new(default: Color, hover: Color, down: Color) -> (c: Colors)
        ensures
            c == (Colors { default, hover, down }),
    {
        Colors { default, hover, down }
    }

    /// The color painted while the control is idle.
    pub fn default(&self) -> (c: Color)
        ensures
            c == self.default,
    {
        self.default
    }

    /// The color painted while the cursor hovers the control.
    pub fn hover(&self) -> (c: Color)
        ensures
            c == self.hover,
    {
        self.hover
    }

    /// The color painted while the control is pressed.
    pub fn down(&self) -> (c: Color)
        ensures
            c == self.down,
    {
        self.down
    }
}

/// The stock gray set a button receives when none is supplied.
pub open spec fn spec_stock_button_colors() -> Colors {
    Colors {
        default: spec_color_from_argb(0xff646464),
        hover: spec_color_from_argb(0xff505050),
        down: spec_color_from_argb(0xff3c3c3c),
    }
}

/// The stock gray set a button receives when none is supplied.
pub fn stock_button_colors() -> (c: Colors)
    ensures
        c == spec_stock_button_colors(),
{
    Colors {
        default: color_from_argb(0xff646464),
        hover: color_from_argb(0xff505050),
        down: color_from_argb(0xff3c3c3c),
    }
}

/// The stock darker set a toggle button paints while toggled on, when no
/// toggled set is supplied.
pub open spec fn spec_stock_toggled_colors() -> Colors {
    Colors {
        default: spec_color_from_argb(0xff464646),
        hover: spec_color_from_argb(0xff3c3c3c),
        down: spec_color_from_argb(0xff323232),
    }
}

/// The stock darker set a toggle button paints while toggled on, when no
/// toggled set is supplied.
pub fn stock_toggled_colors() -> (c: Colors)
    ensures
        c == spec_stock_toggled_colors(),
{
    Colors {
        default: color_from_argb(0xff464646),
        hover: color_from_argb(0xff3c3c3c),
        down: color_from_argb(0xff323232),
    }
}

} // verus!
