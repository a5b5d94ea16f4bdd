//! Fluent builders for the position block of a node.

use vstd::prelude::*;

use crate::blocks::position::{AnchorPoint, NodePosition};
use crate::geometry::{Length, FLOAT_BITS_HUNDRED, FLOAT_BITS_ZERO};

verus! {

/// Entry point for building a [`NodePosition`].
#[derive(Debug, Clone, Copy, PartialEq, Eq, Structural)]
pub struct PositionBuilder;

impl PositionBuilder {
    /// Positions the node relative to its parent, letting the parent's
    /// layout place it.
    pub fn relative() -> (r: RelativePositionBuilder)
        ensures
            r == (RelativePositionBuilder { width: Length::Auto, height: Length::Auto }),
    {
        RelativePositionBuilder { width: Length::Auto, height: Length::Auto }
    }

    /// Positions the node absolutely within its parent.
    pub fn absolute() -> (r: AbsolutePositionBuilder)
        ensures
            r == (AbsolutePositionBuilder {
                x: Length::Auto,
                y: Length::Auto,
                width: Length::Auto,
                height: Length::Auto,
            }),
    {
        AbsolutePositionBuilder {
            x: Length::Auto,
            y: Length::Auto,
            width: Length::Auto,
            height: Length::Auto,
        }
    }

    /// Anchors the node to a compass point of its parent.
    pub fn anchored(anchor: AnchorPoint) -> (r: AnchoredPositionBuilder)
        ensures
            r == (AnchoredPositionBuilder {
                anchor,
                width: Length::Auto,
                height: Length::Auto,
                margin: Length::Auto,
            }),
    {
        AnchoredPositionBuilder {
            anchor,
            width: Length::Auto,
            height: Length::Auto,
            margin: Length::Auto,
        }
    }
}

/// Builds a relative position: a size hint only.
#[derive(Debug, Clone, Copy, PartialEq, Eq, Structural)]
pub struct RelativePositionBuilder {
    /// The node's width.
    pub width: Length,
    /// The node's height.
    pub height: Length,
}

impl Default for RelativePositionBuilder {
    fn default() -> (r: Self)
        ensures
            r == (RelativePositionBuilder { width: Length::Auto, height: Length::Auto }),
    {
        RelativePositionBuilder { width: Length::Auto, height: Length::Auto }
    }
}

impl RelativePositionBuilder {
    /// Sets the node's size.
    pub fn size(self, width: Length, height: Length) -> (r: Self)
        ensures
            r == (RelativePositionBuilder { width, height }),
    {
        RelativePositionBuilder { width, height }
    }
}

impl From<RelativePositionBuilder> for NodePosition {
    fn from(value: RelativePositionBuilder) -> (r: NodePosition) {
        NodePosition::Relative { width: value.width, height: value.height }
    }
}

impl vstd::std_specs::convert::FromSpecImpl<RelativePositionBuilder> for NodePosition {
    open spec fn obeys_from_spec() -> bool {
        true
    }

    open spec fn from_spec(v: RelativePositionBuilder) -> NodePosition {
        NodePosition::Relative { width: v.width, height: v.height }
    }
}

/// Builds an absolute position: an offset and a size.
#[derive(Debug, Clone, Copy, PartialEq, Eq, Structural)]
pub struct AbsolutePositionBuilder {
    /// The offset of the left edge.
    pub x: Length,
    /// The offset of the top edge.
    pub y: Length,
    /// The node's width.
    pub width: Length,
    /// The node's height.
    pub height: Length,
}

impl Default for AbsolutePositionBuilder {
    fn default() -> (r: Self)
        ensures
            r == (AbsolutePositionBuilder {
                x: Length::Auto,
                y: Length::Auto,
                width: Length::Auto,
                height: Length::Auto,
            }),
    {
        AbsolutePositionBuilder {
            x: Length::Auto,
            y: Length::Auto,
            width: Length::Auto,
            height: Length::Auto,
        }
    }
}

impl AbsolutePositionBuilder {
    /// Sets the node's offset from the parent's origin.
    pub fn pos(self, x: Length, y: Length) -> (r: Self)
        ensures
            r == (AbsolutePositionBuilder { x, y, ..self }),
    {
        AbsolutePositionBuilder { x, y, ..self }
    }

    /// Sets the node's size.
    pub fn size(self, width: Length, height: Length) -> (r: Self)
        ensures
            r == (AbsolutePositionBuilder { width, height, ..self }),
    {
        AbsolutePositionBuilder { width, height, ..self }
    }

    /// Makes the node fill its parent completely.
    pub fn full_size(self) -> (r: Self)
        ensures
            r == (AbsolutePositionBuilder {
                x: Length::Px(FLOAT_BITS_ZERO),
                y: Length::Px(FLOAT_BITS_ZERO),
                width: Length::Percent(FLOAT_BITS_HUNDRED),
                height: Length::Percent(FLOAT_BITS_HUNDRED),
            }),
    {
        AbsolutePositionBuilder {
            x: Length::Px(FLOAT_BITS_ZERO),
            y: Length::Px(FLOAT_BITS_ZERO),
            width: Length::Percent(FLOAT_BITS_HUNDRED),
            height: Length::Percent(FLOAT_BITS_HUNDRED),
        }
    }
}

impl From<AbsolutePositionBuilder> for NodePosition {
    fn from(builder: AbsolutePositionBuilder) -> (r: NodePosition) {
        NodePosition::Absolute {
            x: builder.x,
            y: builder.y,
            width: builder.width,
            height: builder.height,
        }
    }
}

impl vstd::std_specs::convert::FromSpecImpl<AbsolutePositionBuilder> for NodePosition {
    open spec fn obeys_from_spec() -> bool {
        true
    }

    open spec fn from_spec(v: AbsolutePositionBuilder) -> NodePosition {
        NodePosition::Absolute { x: v.x, y: v.y, width: v.width, height: v.height }
    }
}

/// Builds an anchored position: an anchor point, a size and a margin.
#[derive(Debug, Clone, Copy, PartialEq, Eq, Structural)]
pub struct AnchoredPositionBuilder {
    /// The anchor point.
    pub anchor: AnchorPoint,
    /// The node's width.
    pub width: Length,
    /// The node's height.
    pub height: Length,
    /// The gap kept from the pinned edges.
    pub margin: Length,
}

impl AnchoredPositionBuilder {
    /// Sets the anchor point.
    pub fn anchor(self, anchor: AnchorPoint) -> (r: Self)
        ensures
            r == (AnchoredPositionBuilder { anchor, ..self }),
    {
        AnchoredPositionBuilder { anchor, ..self }
    }

    /// Sets the node's size.
    pub fn size(self, width: Length, height: Length) -> (r: Self)
        ensures
            r == (AnchoredPositionBuilder { width, height, ..self }),
    {
        AnchoredPositionBuilder { width, height, ..self }
    }

    /// Sets the margin kept from the pinned edges.
    pub fn margin(self, margin: Length) -> (r: Self)
        ensures
            r == (AnchoredPositionBuilder { margin, ..self }),
    {
        AnchoredPositionBuilder { margin, ..self }
    }
}

impl From<AnchoredPositionBuilder> for NodePosition {
    fn from(builder: AnchoredPositionBuilder) -> (r: NodePosition) {
        NodePosition::Anchored {
            anchor: builder.anchor,
            width: builder.width,
            height: builder.height,
            margin: builder.margin,
        }
    }
}

impl vstd::std_specs::convert::FromSpecImpl<AnchoredPositionBuilder> for NodePosition {
    open spec fn obeys_from_spec() -> bool {
        true
    }

    open spec fn from_spec(v: AnchoredPositionBuilder) -> NodePosition {
        NodePosition::Anchored { anchor: v.anchor, width: v.width, height: v.height, margin: v.margin }
    }
}

} // verus!
