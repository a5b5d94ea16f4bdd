//! Fluent builders for the text block of a node.

use vstd::prelude::*;

use crate::blocks::position::AnchorPoint;
use crate::blocks::text::{NodeText, NodeTextSection};
use crate::geometry::{Rgba, FLOAT_BITS_SIXTEEN};
use crate::text::LineBreak;

verus! {

/// Builds the text content of a node.  Sections are converted as they are
/// appended, so resolving the builder is a plain move.
#[derive(Debug, Clone)]
pub struct TextBuilder {
    /// The anchor point for the text.
    pub anchor_point: AnchorPoint,
    /// The styled sections, in order.
    pub sections: Vec<NodeTextSection>,
    /// The line-break policy.
    pub line_break: LineBreak,
}

impl Default for TextBuilder {
    fn default() -> (r: Self)
        ensures
            r.anchor_point == AnchorPoint::Center,
            r.sections@ =~= Seq::<NodeTextSection>::empty(),
            r.line_break == LineBreak::WordBoundary,
    {
        TextBuilder {
            anchor_point: AnchorPoint::Center,
            sections: Vec::new(),
            line_break: LineBreak::WordBoundary,
        }
    }
}

/// The section a section builder denotes.
pub open spec fn section_built(b: TextSectionBuilder) -> NodeTextSection {
    NodeTextSection { text: b.text, font: b.font, text_size: b.text_size, color: b.color }
}

impl TextBuilder {
    /// Sets the anchor point for the text.
    pub fn anchor_point(self, anchor_point: AnchorPoint) -> (r: Self)
        ensures
            r.anchor_point == anchor_point,
            r.sections@ == self.sections@,
            r.line_break == self.line_break,
    {
        TextBuilder { anchor_point, ..self }
    }

    /// Appends a section to the text.
    pub fn section(self, section: TextSectionBuilder) -> (r: Self)
        ensures
            r.anchor_point == self.anchor_point,
            r.sections@ == self.sections@.push(section_built(section)),
            r.line_break == self.line_break,
    {
        let TextSectionBuilder { text, font, text_size, color } = section;
        let mut sections = self.sections;
        sections.push(NodeTextSection { text, font, text_size, color });
        TextBuilder { sections, ..self }
    }

    /// Sets the line-break policy.
    pub fn line_break(self, line_break: LineBreak) -> (r: Self)
        ensures
            r.anchor_point == self.anchor_point,
            r.sections@ == self.sections@,
            r.line_break == line_break,
    {
        TextBuilder { line_break, ..self }
    }
}

impl From<TextBuilder> for NodeText {
    fn from(value: TextBuilder) -> (r: NodeText) {
        NodeText {
            anchor_point: value.anchor_point,
            sections: value.sections,
            line_break: value.line_break,
        }
    }
}

impl vstd::std_specs::convert::FromSpecImpl<TextBuilder> for NodeText {
    open spec fn obeys_from_spec() -> bool {
        true
    }

    open spec fn from_spec(v: TextBuilder) -> NodeText {
        NodeText {
            anchor_point: v.anchor_point,
            sections: v.sections,
            line_break: v.line_break,
        }
    }
}

/// Builds one styled section of text.
#[derive(Debug, Clone)]
pub struct TextSectionBuilder {
    /// The characters to display.
    pub text: Vec<char>,
    /// The asset path of the font.
    pub font: String,
    /// The text size, as a 32-bit float bit pattern.
    pub text_size: u32,
    /// The text color.
    pub color: Rgba,
}

impl TextSectionBuilder {
    /// Starts a section with the given characters, sixteen-point black
    /// text in the default font.
    pub fn new(text: Vec<char>) -> (r: Self)
        ensures
            r.text@ == text@,
            r.font@ =~= Seq::<char>::empty(),
            r.text_size == FLOAT_BITS_SIXTEEN,
            r.color == Rgba::black_spec(),
    {
        TextSectionBuilder {
            text,
            font: String::new(),
            text_size: FLOAT_BITS_SIXTEEN,
            color: Rgba::black(),
        }
    }

    /// Sets the font's asset path.
    pub fn font(self, font: String) -> (r: Self)
        ensures
            r.text@ == self.text@,
            r.font@ == font@,
            r.text_size == self.text_size,
            r.color == self.color,
    {
        TextSectionBuilder { font, ..self }
    }

    /// Sets the text size.
    pub fn text_size(self, text_size: u32) -> (r: Self)
        ensures
            r.text@ == self.text@,
            r.font@ == self.font@,
            r.text_size == text_size,
            r.color == self.color,
    {
        TextSectionBuilder { text_size, ..self }
    }

    /// Sets the text color.
    pub fn color(self, color: Rgba) -> (r: Self)
        ensures
            r.text@ == self.text@,
            r.font@ == self.font@,
            r.text_size == self.text_size,
            r.color == color,
    {
        TextSectionBuilder { color, ..self }
    }
}

impl From<TextSectionBuilder> for NodeTextSection {
    fn from(builder: TextSectionBuilder) -> (r: NodeTextSection) {
        NodeTextSection {
            text: builder.text,
            font: builder.font,
            text_size: builder.text_size,
            color: builder.color,
        }
    }
}

impl vstd::std_specs::convert::FromSpecImpl<TextSectionBuilder> for NodeTextSection {
    open spec fn obeys_from_spec() -> bool {
        true
    }

    open spec fn from_spec(v: TextSectionBuilder) -> NodeTextSection {
        section_built(v)
    }
}

} // verus!
