//! Styling data carried by views. The core never interprets it: sizes are
//! logical pixels and colors are 8-bit RGBA channels, passed through verbatim.

use vstd::prelude::*;

verus! {

/// The font size of unstyled text, in logical pixels.
pub const DEFAULT_FONT_SIZE: u32 = 16;

/// An RGBA color with 8-bit channels.
#[derive(Clone, Copy, PartialEq, Eq, Debug, Structural)]
pub struct Color {
    /// Red channel.
    pub r: u8,
    /// Green channel.
    pub g: u8,
    /// Blue channel.
    pub b: u8,
    /// Alpha channel; 255 is fully opaque.
    pub a: u8,
}

impl Color {
    /// A color from its four channels.
    pub fn rgba(r: u8, g: u8, b: u8, a: u8) -> (c: Color)
        ensures
            c == (Color { r, g, b, a }),
    {
        Color { r, g, b, a }
    }

    /// A fully opaque color from its three color channels.
    pub fn rgb(r: u8, g: u8, b: u8) -> (c: Color)
        ensures
            c == (Color { r, g, b, a: 255 }),
    {
        Color::rgba(r, g, b, 255)
    }

    /// Opaque black.
    pub open spec fn spec_black() -> Color {
        Color { r: 0, g: 0, b: 0, a: 255 }
    }

    /// Opaque black.
    pub fn black() -> (c: Color)
        ensures
            c == Color::spec_black(),
    {
        Color::rgb(0, 0, 0)
    }

    /// Opaque white.
    pub fn white() -> (c: Color)
        ensures
            c == (Color { r: 255, g: 255, b: 255, a: 255 }),
    {
        Color::rgb(255, 255, 255)
    }

    /// Opaque red.
    pub fn red() -> (c: Color)
        ensures
            c == (Color { r: 255, g: 0, b: 0, a: 255 }),
    {
        Color::rgb(255, 0, 0)
    }

    /// Opaque green.
    pub fn green() -> (c: Color)
        ensures
            c == (Color { r: 0, g: 255, b: 0, a: 255 }),
    {
        Color::rgb(0, 255, 0)
    }

    /// Opaque blue.
    pub fn blue() -> (c: Color)
        ensures
            c == (Color { r: 0, g: 0, b: 255, a: 255 }),
    {
        Color::rgb(0, 0, 255)
    }
}

/// Text styling: font size and color.
#[derive(Clone, Copy, PartialEq, Eq, Debug, Structural)]
pub struct TextStyle {
    /// Font size in logical pixels.
    pub font_size: u32,
    /// Text color.
    pub color: Color,
}

impl TextStyle {
    /// The default style: 16 pixels, black.
    pub open spec fn spec_default() -> TextStyle {
        TextStyle { font_size: DEFAULT_FONT_SIZE, color: Color::spec_black() }
    }

    /// The default style: 16 pixels, black.
    pub fn new() -> (s: TextStyle)
        ensures
            s == TextStyle::spec_default(),
    {
        TextStyle { font_size: DEFAULT_FONT_SIZE, color: Color::black() }
    }

    /// This style with the given font size.
    pub fn font_size(self, size: u32) -> (s: TextStyle)
        ensures
            s == (TextStyle { font_size: size, ..self }),
    {
        TextStyle { font_size: size, ..self }
    }

    /// This style with the given color.
    pub fn color(self, color: Color) -> (s: TextStyle)
        ensures
            s == (TextStyle { color, ..self }),
    {
        TextStyle { color, ..self }
    }
}

impl Default for TextStyle {
    fn default() -> (s: TextStyle)
        ensures
            s == TextStyle::spec_default(),
    {
        TextStyle::new()
    }
}

} // verus!
