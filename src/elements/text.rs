//! Styled text.

use vstd::prelude::*;

use crate::style::{Color, TextStyle};

verus! {

/// A run of styled text.
#[derive(Debug, PartialEq)]
pub struct Text {
    /// The text to display.
    pub content: String,
    /// How it is styled.
    pub style: TextStyle,
}

impl Clone for Text {
    fn clone(&self) -> (r: Text)
        ensures
            r == *self,
    {
        Text { content: self.content.clone(), style: self.style }
    }
}

impl Text {
    /// Text with the given content and the default style.
    pub fn new(content: &str) -> (t: Text)
        ensures
            t.content@ == content@,
            t.style == TextStyle::spec_default(),
    {
        Text { content: content.to_owned(), style: TextStyle::new() }
    }

    /// This text with the given font size.
    pub fn font_size(self, size: u32) -> (t: Text)
        ensures
            t.content == self.content,
            t.style == (TextStyle { font_size: size, ..self.style }),
    {
        Text { content: self.content, style: self.style.font_size(size) }
    }

    /// This text in the given color.
    pub fn color(self, color: Color) -> (t: Text)
        ensures
            t.content == self.content,
            t.style == (TextStyle { color, ..self.style }),
    {
        Text { content: self.content, style: self.style.color(color) }
    }
}

impl crate::view::View for Text {}

} // verus!
