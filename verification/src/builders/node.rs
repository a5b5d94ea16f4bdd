//! Fluent builders for assembling a [`UiNode`] description.

use vstd::prelude::*;

use crate::blocks::background::NodeBackground;
use crate::blocks::children::NodeChildren;
use crate::blocks::position::NodePosition;
use crate::blocks::text::NodeText;
use crate::blocks::text_field::NodeTextField;
use crate::geometry::Length;
use crate::nodes::UiNode;

verus! {

/// Entry point for building a [`UiNode`].
#[derive(Debug, Clone, Copy, PartialEq, Eq, Structural)]
pub struct UiNodeBuilder;

impl UiNodeBuilder {
    /// Starts a canvas node.
    pub fn canvas() -> (r: CanvasNodeBuilder)
        ensures
            r.children@ =~= Seq::<UiNode>::empty(),
    {
        CanvasNodeBuilder { children: Vec::new() }
    }

    /// Starts a panel node.
    pub fn panel() -> (r: PanelNodeBuilder)
        ensures
            r.background is None,
            r.position is None,
            r.children@ =~= Seq::<UiNode>::empty(),
    {
        PanelNodeBuilder { background: None, position: None, children: Vec::new() }
    }

    /// Starts a text node with the given content.
    pub fn text(text: NodeText) -> (r: TextNodeBuilder)
        ensures
            r.background is Empty,
            r.position == (NodePosition::Relative { width: Length::Auto, height: Length::Auto }),
            r.text == text,
    {
        TextNodeBuilder {
            background: NodeBackground::Empty,
            position: NodePosition::Relative { width: Length::Auto, height: Length::Auto },
            text,
        }
    }

    /// Starts a text-field node with the given configuration.
    pub fn text_field(field: NodeTextField) -> (r: TextFieldNodeBuilder)
        ensures
            r.background is Empty,
            r.position == (NodePosition::Relative { width: Length::Auto, height: Length::Auto }),
            r.text_field == field,
    {
        TextFieldNodeBuilder {
            background: NodeBackground::Empty,
            position: NodePosition::Relative { width: Length::Auto, height: Length::Auto },
            text_field: field,
        }
    }
}

/// Builds a canvas node.
#[derive(Debug)]
pub struct CanvasNodeBuilder {
    /// The canvas's children, in sibling order.
    pub children: Vec<UiNode>,
}

impl CanvasNodeBuilder {
    /// Appends a child to the canvas.
    pub fn child(self, child: UiNode) -> (r: Self)
        ensures
            r.children@ == self.children@.push(child),
    {
        let mut children = self.children;
        children.push(child);
        CanvasNodeBuilder { children }
    }
}

impl From<CanvasNodeBuilder> for UiNode {
    fn from(builder: CanvasNodeBuilder) -> (r: UiNode) {
        UiNode::Canvas { children: NodeChildren { children: builder.children } }
    }
}

impl vstd::std_specs::convert::FromSpecImpl<CanvasNodeBuilder> for UiNode {
    open spec fn obeys_from_spec() -> bool {
        true
    }

    open spec fn from_spec(v: CanvasNodeBuilder) -> UiNode {
        UiNode::Canvas { children: NodeChildren { children: v.children } }
    }
}

/// Builds a panel node.
#[derive(Debug)]
pub struct PanelNodeBuilder {
    /// The panel's background, if one was set.
    pub background: Option<NodeBackground>,
    /// The panel's position, if one was set.
    pub position: Option<NodePosition>,
    /// The panel's children, in sibling order.
    pub children: Vec<UiNode>,
}

impl PanelNodeBuilder {
    /// Sets the panel's background.
    pub fn background(self, background: NodeBackground) -> (r: Self)
        ensures
            r.background == Some(background),
            r.position == self.position,
            r.children@ == self.children@,
    {
        PanelNodeBuilder { background: Some(background), ..self }
    }

    /// Sets the panel's position.
    pub fn position(self, position: NodePosition) -> (r: Self)
        ensures
            r.background == self.background,
            r.position == Some(position),
            r.children@ == self.children@,
    {
        PanelNodeBuilder { position: Some(position), ..self }
    }

    /// Appends a child to the panel.
    pub fn child(self, child: UiNode) -> (r: Self)
        ensures
            r.background == self.background,
            r.position == self.position,
            r.children@ == self.children@.push(child),
    {
        let mut children = self.children;
        children.push(child);
        PanelNodeBuilder { children, ..self }
    }
}

impl From<PanelNodeBuilder> for UiNode {
    fn from(builder: PanelNodeBuilder) -> (r: UiNode) {
        let background = match builder.background {
            Some(b) => b,
            None => NodeBackground::Empty,
        };
        let position = match builder.position {
            Some(p) => p,
            None => NodePosition::Relative { width: Length::Auto, height: Length::Auto },
        };
        UiNode::Panel {
            background,
            position,
            children: NodeChildren { children: builder.children },
        }
    }
}

impl vstd::std_specs::convert::FromSpecImpl<PanelNodeBuilder> for UiNode {
    open spec fn obeys_from_spec() -> bool {
        true
    }

    open spec fn from_spec(v: PanelNodeBuilder) -> UiNode {
        UiNode::Panel {
            background: match v.background {
                Some(b) => b,
                None => NodeBackground::Empty,
            },
            position: match v.position {
                Some(p) => p,
                None => NodePosition::Relative { width: Length::Auto, height: Length::Auto },
            },
            children: NodeChildren { children: v.children },
        }
    }
}

/// Builds a text node.
#[derive(Debug)]
pub struct TextNodeBuilder {
    /// The node's background.
    pub background: NodeBackground,
    /// The node's position.
    pub position: NodePosition,
    /// The text content.
    pub text: NodeText,
}

impl TextNodeBuilder {
    /// Sets the node's background.
    pub fn background(self, background: NodeBackground) -> (r: Self)
        ensures
            r.background == background,
            r.position == self.position,
            r.text == self.text,
    {
        TextNodeBuilder { background, ..self }
    }

    /// Sets the node's position.
    pub fn position(self, position: NodePosition) -> (r: Self)
        ensures
            r.background == self.background,
            r.position == position,
            r.text == self.text,
    {
        TextNodeBuilder { position, ..self }
    }

    /// Sets the text content.
    pub fn text(self, text: NodeText) -> (r: Self)
        ensures
            r.background == self.background,
            r.position == self.position,
            r.text == text,
    {
        TextNodeBuilder { text, ..self }
    }
}

impl From<TextNodeBuilder> for UiNode {
    fn from(builder: TextNodeBuilder) -> (r: UiNode) {
        UiNode::Text {
            background: builder.background,
            position: builder.position,
            text: builder.text,
        }
    }
}

impl vstd::std_specs::convert::FromSpecImpl<TextNodeBuilder> for UiNode {
    open spec fn obeys_from_spec() -> bool {
        true
    }

    open spec fn from_spec(v: TextNodeBuilder) -> UiNode {
        UiNode::Text { background: v.background, position: v.position, text: v.text }
    }
}

/// Builds a text-field node.
#[derive(Debug)]
pub struct TextFieldNodeBuilder {
    /// The node's background.
    pub background: NodeBackground,
    /// The node's position.
    pub position: NodePosition,
    /// The field's configuration.
    pub text_field: NodeTextField,
}

impl TextFieldNodeBuilder {
    /// Sets the node's background.
    pub fn background(self, background: NodeBackground) -> (r: Self)
        ensures
            r.background == background,
            r.position == self.position,
            r.text_field == self.text_field,
    {
        TextFieldNodeBuilder { background, ..self }
    }

    /// Sets the node's position.
    pub fn position(self, position: NodePosition) -> (r: Self)
        ensures
            r.background == self.background,
            r.position == position,
            r.text_field == self.text_field,
    {
        TextFieldNodeBuilder { position, ..self }
    }

    /// Sets the field's configuration.
    pub fn text_field(self, text_field: NodeTextField) -> (r: Self)
        ensures
            r.background == self.background,
            r.position == self.position,
            r.text_field == text_field,
    {
        TextFieldNodeBuilder { text_field, ..self }
    }
}

impl From<TextFieldNodeBuilder> for UiNode {
    fn from(builder: TextFieldNodeBuilder) -> (r: UiNode) {
        UiNode::TextField {
            background: builder.background,
            position: builder.position,
            text_field: builder.text_field,
        }
    }
}

impl vstd::std_specs::convert::FromSpecImpl<TextFieldNodeBuilder> for UiNode {
    open spec fn obeys_from_spec() -> bool {
        true
    }

    open spec fn from_spec(v: TextFieldNodeBuilder) -> UiNode {
        UiNode::TextField {
            background: v.background,
            position: v.position,
            text_field: v.text_field,
        }
    }
}

} // verus!
