//! The renderable text model: styled sections of text, as attached to a
//! compiled element for the host's text shaper to draw.
//!
//! Text content is carried as a sequence of Unicode scalar values
//! (`Vec<char>`), matching the editing model's buffer representation.

use vstd::prelude::*;

use crate::assets::FontRef;
use crate::geometry::Rgba;

verus! {

/// Horizontal justification of a block of text.
#[derive(Debug, Clone, Copy, PartialEq, Eq, Structural)]
pub enum JustifyText {
    /// Lines are flushed left.
    Left,
    /// Lines are centered.
    Center,
    /// Lines are flushed right.
    Right,
}

impl Default for JustifyText {
    fn default() -> (r: Self)
        ensures
            r == JustifyText::Left,
    {
        JustifyText::Left
    }
}

/// Where the host's text shaper may break a line.
#[derive(Debug, Clone, Copy, PartialEq, Eq, Structural)]
pub enum LineBreak {
    /// Break at word boundaries.
    WordBoundary,
    /// Break anywhere, even inside a word.
    AnyCharacter,
    /// Never wrap.
    NoWrap,
}

impl Default for LineBreak {
    fn default() -> (r: Self)
        ensures
            r == LineBreak::WordBoundary,
    {
        LineBreak::WordBoundary
    }
}

/// The visual style of one text section.
#[derive(Debug, Clone, Copy, PartialEq, Eq, Structural)]
pub struct TextStyle {
    /// The font face.
    pub font: FontRef,
    /// The font size, as the host's 32-bit float bit pattern.
    pub font_size: u32,
    /// The text color.
    pub color: Rgba,
}

/// One contiguously styled span of text.
#[derive(Debug, Clone)]
pub struct TextSection {
    /// The characters of the span.
    pub value: Vec<char>,
    /// The span's style.
    pub style: TextStyle,
}

/// The mathematical model of a [`TextSection`].
pub ghost struct SectionModel {
    /// The characters of the span.
    pub value: Seq<char>,
    /// The span's style.
    pub style: TextStyle,
}

impl View for TextSection {
    type V = SectionModel;

    open spec fn view(&self) -> SectionModel {
        SectionModel { value: self.value@, style: self.style }
    }
}

impl TextSection {
    /// An empty span with the given style.
    pub fn empty(style: TextStyle) -> (s: TextSection)
        ensures
            s@ == (SectionModel { value: Seq::<char>::empty(), style }),
    {
        TextSection { value: Vec::new(), style }
    }
}

/// A block of renderable text: an ordered list of styled sections plus
/// block-level layout settings.
#[derive(Debug, Clone)]
pub struct Text {
    /// The styled sections, in paint order.
    pub sections: Vec<TextSection>,
    /// Horizontal justification of the block.
    pub justify: JustifyText,
    /// The line-break policy.
    pub linebreak: LineBreak,
}

/// The mathematical model of a [`Text`].
pub ghost struct TextModel {
    /// The styled sections, in paint order.
    pub sections: Seq<SectionModel>,
    /// Horizontal justification of the block.
    pub justify: JustifyText,
    /// The line-break policy.
    pub linebreak: LineBreak,
}

/// The models of a sequence of sections, element by element.
pub open spec fn sections_model(s: Seq<TextSection>) -> Seq<SectionModel> {
    s.map_values(|x: TextSection| x@)
}

impl View for Text {
    type V = TextModel;

    open spec fn view(&self) -> TextModel {
        TextModel {
            sections: sections_model(self.sections@),
            justify: self.justify,
            linebreak: self.linebreak,
        }
    }
}

impl Text {
    /// An empty text block with default layout settings.
    pub fn new() -> (t: Text)
        ensures
            t@.sections =~= Seq::<SectionModel>::empty(),
            t@.justify == JustifyText::Left,
            t@.linebreak == LineBreak::WordBoundary,
    {
        Text { sections: Vec::new(), justify: JustifyText::Left, linebreak: LineBreak::WordBoundary }
    }
}

} // verus!
