//! Fluent builder for the text-field block of a node.

use vstd::prelude::*;

use crate::blocks::position::AnchorPoint;
use crate::blocks::text_field::NodeTextField;
use crate::geometry::{Rgba, FLOAT_BITS_SIXTEEN};
use crate::text::LineBreak;

verus! {

/// Builds the configuration of a text field.
#[derive(Debug, Clone)]
pub struct TextFieldBuilder {
    /// The asset path of the font.
    pub font: String,
    /// The text size, as a 32-bit float bit pattern.
    pub font_size: u32,
    /// The text color.
    pub color: Rgba,
    /// The most characters the field should accept, if any.
    pub max_chars: Option<usize>,
    /// Whether the field should refuse line breaks.
    pub single_line: bool,
    /// Text shown while the field is empty, if any.
    pub placeholder: Option<String>,
    /// The color of the placeholder text.
    pub placeholder_color: Rgba,
    /// The anchor point for the text.
    pub anchor_point: AnchorPoint,
    /// The line-break policy.
    pub line_break: LineBreak,
}

impl Default for TextFieldBuilder {
    fn default() -> (r: Self)
        ensures
            r.font@ =~= Seq::<char>::empty(),
            r.font_size == FLOAT_BITS_SIXTEEN,
            r.color == Rgba::black_spec(),
            r.max_chars is None,
            r.single_line == false,
            r.placeholder is None,
            r.placeholder_color == Rgba::gray_spec(),
            r.anchor_point == AnchorPoint::CenterLeft,
            r.line_break == LineBreak::WordBoundary,
    {
        TextFieldBuilder {
            font: String::new(),
            font_size: FLOAT_BITS_SIXTEEN,
            color: Rgba::black(),
            max_chars: None,
            single_line: false,
            placeholder: None,
            placeholder_color: Rgba::gray(),
            anchor_point: AnchorPoint::CenterLeft,
            line_break: LineBreak::WordBoundary,
        }
    }
}

impl TextFieldBuilder {
    /// Sets the font's asset path.
    pub fn font(self, font: String) -> (r: Self)
        ensures
            r == (TextFieldBuilder { font, ..self }),
    {
        TextFieldBuilder { font, ..self }
    }

    /// Sets the text size.
    pub fn font_size(self, font_size: u32) -> (r: Self)
        ensures
            r == (TextFieldBuilder { font_size, ..self }),
    {
        TextFieldBuilder { font_size, ..self }
    }

    /// Sets the text color.
    pub fn color(self, color: Rgba) -> (r: Self)
        ensures
            r == (TextFieldBuilder { color, ..self }),
    {
        TextFieldBuilder { color, ..self }
    }

    /// Caps how many characters the field should accept.
    pub fn max_chars(self, max_chars: usize) -> (r: Self)
        ensures
            r == (TextFieldBuilder { max_chars: Some(max_chars), ..self }),
    {
        TextFieldBuilder { max_chars: Some(max_chars), ..self }
    }

    /// Restricts the field to a single line of input.
    pub fn single_line(self) -> (r: Self)
        ensures
            r == (TextFieldBuilder { single_line: true, ..self }),
    {
        TextFieldBuilder { single_line: true, ..self }
    }

    /// Allows the field multiple lines of input.
    pub fn multiple_lines(self) -> (r: Self)
        ensures
            r == (TextFieldBuilder { single_line: false, ..self }),
    {
        TextFieldBuilder { single_line: false, ..self }
    }

    /// Sets the text shown while the field is empty.
    pub fn placeholder_text(self, placeholder: String) -> (r: Self)
        ensures
            r == (TextFieldBuilder { placeholder: Some(placeholder), ..self }),
    {
        TextFieldBuilder { placeholder: Some(placeholder), ..self }
    }

    /// Sets the color of the placeholder text.
    pub fn placeholder_color(self, color: Rgba) -> (r: Self)
        ensures
            r == (TextFieldBuilder { placeholder_color: color, ..self }),
    {
        TextFieldBuilder { placeholder_color: color, ..self }
    }

    /// Sets the anchor point for the text.
    pub fn anchor_point(self, anchor_point: AnchorPoint) -> (r: Self)
        ensures
            r == (TextFieldBuilder { anchor_point, ..self }),
    {
        TextFieldBuilder { anchor_point, ..self }
    }

    /// Sets the line-break policy.
    pub fn line_break(self, line_break: LineBreak) -> (r: Self)
        ensures
            r == (TextFieldBuilder { line_break, ..self }),
    {
        TextFieldBuilder { line_break, ..self }
    }
}

impl From<TextFieldBuilder> for NodeTextField {
    fn from(value: TextFieldBuilder) -> (r: NodeTextField) {
        NodeTextField {
            font: value.font,
            font_size: value.font_size,
            color: value.color,
            max_chars: value.max_chars,
            single_line: value.single_line,
            placeholder: value.placeholder,
            placeholder_color: value.placeholder_color,
            anchor_point: value.anchor_point,
            line_break: value.line_break,
        }
    }
}

impl vstd::std_specs::convert::FromSpecImpl<TextFieldBuilder> for NodeTextField {
    open spec fn obeys_from_spec() -> bool {
        true
    }

    open spec fn from_spec(v: TextFieldBuilder) -> NodeTextField {
        NodeTextField {
            font: v.font,
            font_size: v.font_size,
            color: v.color,
            max_chars: v.max_chars,
            single_line: v.single_line,
            placeholder: v.placeholder,
            placeholder_color: v.placeholder_color,
            anchor_point: v.anchor_point,
            line_break: v.line_break,
        }
    }
}

} // verus!
