//! The text block: styled sections of static text, plus the alignment that
//! the text's anchor point induces on the text and on its container.

use vstd::prelude::*;

use crate::assets::{requests_model, AssetServer, FontRef};
use crate::blocks::position::AnchorPoint;
use crate::builders::bundle::{
    writes_model, ComponentWrite, NodeBundleBuilder, NodeBundleType, WriteModel,
};
use crate::geometry::{AlignContent, AlignItems, JustifyContent, JustifyItems, Rgba, Style};
use crate::text::{sections_model, JustifyText, LineBreak, SectionModel, Text, TextModel, TextSection, TextStyle};

verus! {

/// One styled section of a text block.
#[derive(Debug, Clone)]
pub struct NodeTextSection {
    /// The characters to display.
    pub text: Vec<char>,
    /// The asset path of the font.
    pub font: String,
    /// The text size, as a 32-bit float bit pattern.
    pub text_size: u32,
    /// The text color.
    pub color: Rgba,
}

/// The text content of a text node.
#[derive(Debug, Clone)]
pub struct NodeText {
    /// The anchor point, which fixes the text's justification and the
    /// container's alignment.
    pub anchor_point: AnchorPoint,
    /// The styled sections, in order.
    pub sections: Vec<NodeTextSection>,
    /// The line-break policy.
    pub line_break: LineBreak,
}

impl Default for NodeText {
    fn default() -> (r: Self)
        ensures
            r.anchor_point == AnchorPoint::Center,
            r.sections@ =~= Seq::<NodeTextSection>::empty(),
            r.line_break == LineBreak::WordBoundary,
    {
        NodeText {
            anchor_point: AnchorPoint::Center,
            sections: Vec::new(),
            line_break: LineBreak::WordBoundary,
        }
    }
}

/// The horizontal justification an anchor point gives a block of text.
pub open spec fn anchor_justify_spec(a: AnchorPoint) -> JustifyText {
    match a {
        AnchorPoint::TopLeft => JustifyText::Left,
        AnchorPoint::TopCenter => JustifyText::Center,
        AnchorPoint::TopRight => JustifyText::Right,
        AnchorPoint::CenterLeft => JustifyText::Left,
        AnchorPoint::Center => JustifyText::Center,
        AnchorPoint::CenterRight => JustifyText::Right,
        AnchorPoint::BottomLeft => JustifyText::Left,
        AnchorPoint::BottomCenter => JustifyText::Center,
        AnchorPoint::BottomRight => JustifyText::Right,
    }
}

/// The container style after a content block wrote its alignment: the
/// anchor point maps to the content and item alignment pairs, and no other
/// field is touched.
pub open spec fn parent_aligned(style: Style, a: AnchorPoint) -> Style {
    Style {
        align_content: match a {
            AnchorPoint::TopLeft => AlignContent::FlexStart,
            AnchorPoint::TopCenter => AlignContent::FlexStart,
            AnchorPoint::TopRight => AlignContent::FlexStart,
            AnchorPoint::CenterLeft => AlignContent::Center,
            AnchorPoint::Center => AlignContent::Center,
            AnchorPoint::CenterRight => AlignContent::Center,
            AnchorPoint::BottomLeft => AlignContent::FlexEnd,
            AnchorPoint::BottomCenter => AlignContent::FlexEnd,
            AnchorPoint::BottomRight => AlignContent::FlexEnd,
        },
        justify_content: match a {
            AnchorPoint::TopLeft => JustifyContent::Start,
            AnchorPoint::TopCenter => JustifyContent::Center,
            AnchorPoint::TopRight => JustifyContent::End,
            AnchorPoint::CenterLeft => JustifyContent::Start,
            AnchorPoint::Center => JustifyContent::Center,
            AnchorPoint::CenterRight => JustifyContent::End,
            AnchorPoint::BottomLeft => JustifyContent::Start,
            AnchorPoint::BottomCenter => JustifyContent::Center,
            AnchorPoint::BottomRight => JustifyContent::End,
        },
        align_items: match a {
            AnchorPoint::TopLeft => AlignItems::FlexStart,
            AnchorPoint::TopCenter => AlignItems::FlexStart,
            AnchorPoint::TopRight => AlignItems::FlexStart,
            AnchorPoint::CenterLeft => AlignItems::Center,
            AnchorPoint::Center => AlignItems::Center,
            AnchorPoint::CenterRight => AlignItems::Center,
            AnchorPoint::BottomLeft => AlignItems::FlexEnd,
            AnchorPoint::BottomCenter => AlignItems::FlexEnd,
            AnchorPoint::BottomRight => AlignItems::FlexEnd,
        },
        justify_items: match a {
            AnchorPoint::TopLeft => JustifyItems::Start,
            AnchorPoint::TopCenter => JustifyItems::Center,
            AnchorPoint::TopRight => JustifyItems::End,
            AnchorPoint::CenterLeft => JustifyItems::Start,
            AnchorPoint::Center => JustifyItems::Center,
            AnchorPoint::CenterRight => JustifyItems::End,
            AnchorPoint::BottomLeft => JustifyItems::Start,
            AnchorPoint::BottomCenter => JustifyItems::Center,
            AnchorPoint::BottomRight => JustifyItems::End,
        },
        ..style
    }
}

/// The justification `a` induces on a block of text.
pub fn anchor_justify(a: AnchorPoint) -> (r: JustifyText)
    ensures
        r == anchor_justify_spec(a),
{
    match a {
        AnchorPoint::TopLeft => JustifyText::Left,
        AnchorPoint::TopCenter => JustifyText::Center,
        AnchorPoint::TopRight => JustifyText::Right,
        AnchorPoint::CenterLeft => JustifyText::Left,
        AnchorPoint::Center => JustifyText::Center,
        AnchorPoint::CenterRight => JustifyText::Right,
        AnchorPoint::BottomLeft => JustifyText::Left,
        AnchorPoint::BottomCenter => JustifyText::Center,
        AnchorPoint::BottomRight => JustifyText::Right,
    }
}

/// Writes the alignment pair `a` induces into `style`, touching nothing
/// else.
pub fn apply_parent_alignment(style: &mut Style, a: AnchorPoint)
    ensures
        *final(style) == parent_aligned(*old(style), a),
{
    match a {
        AnchorPoint::TopLeft => {
            style.align_content = AlignContent::FlexStart;
            style.justify_content = JustifyContent::Start;
            style.align_items = AlignItems::FlexStart;
            style.justify_items = JustifyItems::Start;
        }
        AnchorPoint::TopCenter => {
            style.align_content = AlignContent::FlexStart;
            style.justify_content = JustifyContent::Center;
            style.align_items = AlignItems::FlexStart;
            style.justify_items = JustifyItems::Center;
        }
        AnchorPoint::TopRight => {
            style.align_content = AlignContent::FlexStart;
            style.justify_content = JustifyContent::End;
            style.align_items = AlignItems::FlexStart;
            style.justify_items = JustifyItems::End;
        }
        AnchorPoint::CenterLeft => {
            style.align_content = AlignContent::Center;
            style.justify_content = JustifyContent::Start;
            style.align_items = AlignItems::Center;
            style.justify_items = JustifyItems::Start;
        }
        AnchorPoint::Center => {
            style.align_content = AlignContent::Center;
            style.justify_content = JustifyContent::Center;
            style.align_items = AlignItems::Center;
            style.justify_items = JustifyItems::Center;
        }
        AnchorPoint::CenterRight => {
            style.align_content = AlignContent::Center;
            style.justify_content = JustifyContent::End;
            style.align_items = AlignItems::Center;
            style.justify_items = JustifyItems::End;
        }
        AnchorPoint::BottomLeft => {
            style.align_content = AlignContent::FlexEnd;
            style.justify_content = JustifyContent::Start;
            style.align_items = AlignItems::FlexEnd;
            style.justify_items = JustifyItems::Start;
        }
        AnchorPoint::BottomCenter => {
            style.align_content = AlignContent::FlexEnd;
            style.justify_content = JustifyContent::Center;
            style.align_items = AlignItems::FlexEnd;
            style.justify_items = JustifyItems::Center;
        }
        AnchorPoint::BottomRight => {
            style.align_content = AlignContent::FlexEnd;
            style.justify_content = JustifyContent::End;
            style.align_items = AlignItems::FlexEnd;
            style.justify_items = JustifyItems::End;
        }
    }
}

/// The asset paths a text block requests: each section's font, in order.
pub open spec fn text_requests(t: NodeText) -> Seq<Seq<char>> {
    t.sections@.map_values(|s: NodeTextSection| s.font@)
}

/// The renderable text a text block produces.  Section `i` keeps its
/// characters, size and color, and gets the font handle of request
/// `req_base + i`; the block is justified by the anchor point and keeps
/// the block's line-break policy.
pub open spec fn text_content_model(t: NodeText, req_base: int) -> TextModel {
    TextModel {
        sections: Seq::new(
            t.sections@.len(),
            |i: int| SectionModel {
                value: t.sections@[i].text@,
                style: TextStyle {
                    font: FontRef::Asset((req_base + i) as usize),
                    font_size: t.sections@[i].text_size,
                    color: t.sections@[i].color,
                },
            },
        ),
        justify: anchor_justify_spec(t.anchor_point),
        linebreak: t.line_break,
    }
}

impl NodeText {
    /// Writes this text onto the pending element: the element kind becomes
    /// a text element, each section's font is requested in order, and one
    /// content write carries the assembled text.
    pub fn apply_to_node(self, node: &mut NodeBundleBuilder, assets: &mut AssetServer)
        ensures
            requests_model(final(assets).requests@) == requests_model(old(assets).requests@)
                + text_requests(self),
            writes_model(final(node).components@) == writes_model(old(node).components@).push(
                WriteModel::Content(text_content_model(self, old(assets).requests@.len() as int)),
            ),
            final(node).bundle == NodeBundleType::Text,
            final(node).parent == old(node).parent,
            final(node).style == old(node).style,
            final(node).children@ == old(node).children@,
    {
        let ghost nt = self;
        let ghost requests0 = assets.requests@;
        let ghost components0 = node.components@;
        let ghost base = assets.requests@.len() as int;
        node.bundle_type(NodeBundleType::Text);
        let NodeText { anchor_point, sections: node_sections, line_break } = self;
        let mut rest = node_sections;
        let mut out: Vec<TextSection> = Vec::new();
        while rest.len() > 0
            invariant
                base == requests0.len() as int,
                out@.len() + rest@.len() == nt.sections@.len(),
                rest@ == nt.sections@.skip(out@.len() as int),
                assets.requests@.len() == requests0.len() + out@.len(),
                requests_model(assets.requests@) == requests_model(requests0) + text_requests(
                    nt,
                ).subrange(0, out@.len() as int),
                sections_model(out@) == text_content_model(nt, base).sections.subrange(
                    0,
                    out@.len() as int,
                ),
            decreases rest@.len(),
        {
            let ghost k = out@.len() as int;
            let ghost reqs_k = assets.requests@;
            let ghost out_k = out@;
            let s = rest.remove(0);
            proof {
                assert(s == nt.sections@[k]);
                assert(rest@ =~= nt.sections@.skip(k + 1));
            }
            let h = assets.load_font(s.font);
            out.push(
                TextSection {
                    value: s.text,
                    style: TextStyle { font: h, font_size: s.text_size, color: s.color },
                },
            );
            proof {
                assert(assets.requests.len() == assets.requests@.len());
                assert(base + k + 1 <= usize::MAX);
                assert(h == FontRef::Asset((base + k) as usize));
                assert(requests_model(assets.requests@) =~= requests_model(reqs_k).push(
                    nt.sections@[k].font@,
                ));
                assert(requests_model(assets.requests@) =~= requests_model(requests0)
                    + text_requests(nt).subrange(0, k + 1));
                assert(sections_model(out@) =~= sections_model(out_k).push(
                    SectionModel {
                        value: nt.sections@[k].text@,
                        style: TextStyle {
                            font: FontRef::Asset((base + k) as usize),
                            font_size: nt.sections@[k].text_size,
                            color: nt.sections@[k].color,
                        },
                    },
                ));
                assert(sections_model(out@) =~= text_content_model(nt, base).sections.subrange(
                    0,
                    k + 1,
                ));
            }
        }
        let justify = anchor_justify(anchor_point);
        let content = Text { sections: out, justify, linebreak: line_break };
        proof {
            assert(content@.sections =~= text_content_model(nt, base).sections);
            assert(requests_model(assets.requests@) =~= requests_model(requests0) + text_requests(
                nt,
            ));
        }
        node.insert(ComponentWrite::Content(content));
        proof {
            assert(writes_model(node.components@) =~= writes_model(components0).push(
                WriteModel::Content(text_content_model(nt, base)),
            ));
        }
    }

    /// Writes the alignment this text's anchor point induces into the
    /// *container* element being built in the two-element split, before
    /// that container resolves.
    pub fn apply_to_parent(&self, node: &mut NodeBundleBuilder)
        ensures
            final(node).style == parent_aligned(old(node).style, self.anchor_point),
            final(node).parent == old(node).parent,
            final(node).bundle == old(node).bundle,
            final(node).components@ == old(node).components@,
            final(node).children@ == old(node).children@,
    {
        apply_parent_alignment(&mut node.style, self.anchor_point);
    }
}

} // verus!
