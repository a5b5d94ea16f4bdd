//! The text-field block: the configuration of an editable text field.

use vstd::prelude::*;

use crate::assets::{requests_model, AssetServer, FontRef};
use crate::blocks::position::AnchorPoint;
use crate::blocks::text::{anchor_justify, anchor_justify_spec, apply_parent_alignment, parent_aligned};
use crate::builders::bundle::{
    writes_model, ComponentWrite, NodeBundleBuilder, NodeBundleType, WriteModel,
};
use crate::geometry::{Rgba, FLOAT_BITS_SIXTEEN};
use crate::nodes::text_field::{default_field_spec, FieldModel, TextField};
use crate::text::{LineBreak, Text, TextModel, TextSection};

verus! {

/// The configuration of a text-field node.
#[derive(Debug, Clone)]
pub struct NodeTextField {
    /// The asset path of the font.
    pub font: String,
    /// The text size, as a 32-bit float bit pattern.
    pub font_size: u32,
    /// The text color.
    pub color: Rgba,
    /// The most characters the field should accept, if any.  Carried for
    /// interface compatibility; nothing enforces it yet.
    pub max_chars: Option<usize>,
    /// Whether the field should refuse line breaks.  Carried for interface
    /// compatibility; nothing enforces it yet.
    pub single_line: bool,
    /// Text shown while the field is empty, if any.
    pub placeholder: Option<String>,
    /// The color of the placeholder text.
    pub placeholder_color: Rgba,
    /// The anchor point, which fixes the text's justification and the
    /// container's alignment.
    pub anchor_point: AnchorPoint,
    /// The line-break policy.
    pub line_break: LineBreak,
}

impl Default for NodeTextField {
    fn default() -> (r: Self)
        ensures
            r.font@ =~= Seq::<char>::empty(),
            r.font_size == FLOAT_BITS_SIXTEEN,
            r.color == Rgba::black_spec(),
            r.max_chars is None,
            r.single_line == false,
            r.placeholder is None,
            r.placeholder_color == Rgba::gray_spec(),
            r.anchor_point == AnchorPoint::CenterLeft,
            r.line_break == LineBreak::WordBoundary,
    {
        NodeTextField {
            font: String::new(),
            font_size: FLOAT_BITS_SIXTEEN,
            color: Rgba::black(),
            max_chars: None,
            single_line: false,
            placeholder: None,
            placeholder_color: Rgba::gray(),
            anchor_point: AnchorPoint::CenterLeft,
            line_break: LineBreak::WordBoundary,
        }
    }
}

/// The empty renderable text a text-field block attaches: no sections yet —
/// the projector fills them once the field is live — but the block's
/// justification and line-break policy.
pub open spec fn field_text_model(tf: NodeTextField) -> TextModel {
    TextModel {
        sections: Seq::<crate::text::SectionModel>::empty(),
        justify: anchor_justify_spec(tf.anchor_point),
        linebreak: tf.line_break,
    }
}

/// The run-time state a text-field block attaches: a fresh field carrying
/// the block's font (the handle of request `req_base`), size, colors and
/// placeholder.
pub open spec fn field_state_model(tf: NodeTextField, req_base: int) -> FieldModel {
    FieldModel {
        font: FontRef::Asset(req_base as usize),
        font_size: tf.font_size,
        font_color: tf.color,
        placeholder: match tf.placeholder {
            Some(p) => Some(p@),
            None => None,
        },
        placeholder_color: tf.placeholder_color,
        ..default_field_spec()
    }
}

impl NodeTextField {
    /// Writes this field onto the pending element: the element kind becomes
    /// a text element, the font is requested, and two writes follow — the
    /// empty text content and the field's fresh run-time state.
    pub fn apply_to_node(self, node: &mut NodeBundleBuilder, assets: &mut AssetServer)
        ensures
            requests_model(final(assets).requests@) == requests_model(old(assets).requests@).push(
                self.font@,
            ),
            writes_model(final(node).components@) == writes_model(old(node).components@).push(
                WriteModel::Content(field_text_model(self)),
            ).push(WriteModel::Field(field_state_model(self, old(assets).requests@.len() as int))),
            final(node).bundle == NodeBundleType::Text,
            final(node).parent == old(node).parent,
            final(node).style == old(node).style,
            final(node).children@ == old(node).children@,
    {
        let ghost tf = self;
        let ghost requests0 = assets.requests@;
        let ghost components0 = node.components@;
        let ghost base = assets.requests@.len() as int;
        node.bundle_type(NodeBundleType::Text);
        let NodeTextField {
            font,
            font_size,
            color,
            max_chars: _,
            single_line: _,
            placeholder,
            placeholder_color,
            anchor_point,
            line_break,
        } = self;
        let justify = anchor_justify(anchor_point);
        let sections: Vec<TextSection> = Vec::new();
        let content = Text { sections, justify, linebreak: line_break };
        proof {
            assert(content@.sections =~= field_text_model(tf).sections);
        }
        node.insert(ComponentWrite::Content(content));
        let handle = assets.load_font(font);
        let mut field = TextField::default();
        field.font = handle;
        field.font_size = font_size;
        field.font_color = color;
        field.placeholder_text = placeholder;
        field.placeholder_color = placeholder_color;
        proof {
            assert(field@ == field_state_model(tf, base));
            assert(requests_model(assets.requests@) =~= requests_model(requests0).push(tf.font@));
        }
        node.insert(ComponentWrite::Field(field));
        proof {
            assert(writes_model(node.components@) =~= writes_model(components0).push(
                WriteModel::Content(field_text_model(tf)),
            ).push(WriteModel::Field(field_state_model(tf, base))));
        }
    }

    /// Writes the alignment this field's anchor point induces into the
    /// *container* element being built in the two-element split, before
    /// that container resolves.
    pub fn apply_to_parent(&self, node: &mut NodeBundleBuilder)
        ensures
            final(node).style == parent_aligned(old(node).style, self.anchor_point),
            final(node).parent == old(node).parent,
            final(node).bundle == old(node).bundle,
            final(node).components@ == old(node).components@,
            final(node).children@ == old(node).children@,
    {
        apply_parent_alignment(&mut node.style, self.anchor_point);
    }
}

} // verus!
