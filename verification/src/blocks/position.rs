//! The position block: anchoring and sizing of a node within its parent.

use vstd::prelude::*;

use crate::builders::bundle::NodeBundleBuilder;
use crate::geometry::{Length, LengthRect, PositionType, Style, FLOAT_BITS_ZERO};

verus! {

/// One of nine compass positions a node can be anchored to within its
/// parent.
#[derive(Debug, Clone, Copy, PartialEq, Eq, Hash, Structural)]
pub enum AnchorPoint {
    /// The top-left corner of the parent.
    TopLeft,
    /// The top edge of the parent, centered horizontally.
    TopCenter,
    /// The top-right corner of the parent.
    TopRight,
    /// The left edge of the parent, centered vertically.
    CenterLeft,
    /// The center of the parent.
    Center,
    /// The right edge of the parent, centered vertically.
    CenterRight,
    /// The bottom-left corner of the parent.
    BottomLeft,
    /// The bottom edge of the parent, centered horizontally.
    BottomCenter,
    /// The bottom-right corner of the parent.
    BottomRight,
}

impl Default for AnchorPoint {
    fn default() -> (r: Self)
        ensures
            r == AnchorPoint::Center,
    {
        AnchorPoint::Center
    }
}

impl AnchorPoint {
    /// Whether the anchor centers the node horizontally.
    pub open spec fn centers_horizontally(self) -> bool {
        self == AnchorPoint::TopCenter || self == AnchorPoint::Center || self
            == AnchorPoint::BottomCenter
    }

    /// Whether the anchor centers the node vertically.
    pub open spec fn centers_vertically(self) -> bool {
        self == AnchorPoint::CenterLeft || self == AnchorPoint::Center || self
            == AnchorPoint::CenterRight
    }

    /// Whether the anchor pins the node to the parent's left edge.
    pub open spec fn pins_left(self) -> bool {
        self == AnchorPoint::TopLeft || self == AnchorPoint::CenterLeft || self
            == AnchorPoint::BottomLeft
    }

    /// Whether the anchor pins the node to the parent's top edge.
    pub open spec fn pins_top(self) -> bool {
        self == AnchorPoint::TopLeft || self == AnchorPoint::TopCenter || self
            == AnchorPoint::TopRight
    }
}

/// How a node is positioned within its parent.
#[derive(Debug, Clone)]
pub enum NodePosition {
    /// The node is placed by the parent's layout flow; only a size hint is
    /// given.
    Relative {
        /// The node's width.
        width: Length,
        /// The node's height.
        height: Length,
    },
    /// The node is placed at an explicit offset from the parent's origin.
    Absolute {
        /// The offset of the left edge.
        x: Length,
        /// The offset of the top edge.
        y: Length,
        /// The node's width.
        width: Length,
        /// The node's height.
        height: Length,
    },
    /// The node hugs an anchor point of the parent, with a margin.
    Anchored {
        /// The anchor point.
        anchor: AnchorPoint,
        /// The node's width.
        width: Length,
        /// The node's height.
        height: Length,
        /// The gap kept from the pinned edges.  An automatic margin here
        /// will not behave as expected.
        margin: Length,
    },
}

impl Default for NodePosition {
    fn default() -> (r: Self)
        ensures
            r == (NodePosition::Relative { width: Length::Auto, height: Length::Auto }),
    {
        NodePosition::Relative { width: Length::Auto, height: Length::Auto }
    }
}

/// The style after anchoring to `point` with `margin`, per the anchor rule:
/// the position mode becomes absolute; on each axis the pinned edge offsets
/// are zero and the free edge is automatic; the margin starts equal on all
/// four edges, and on a centered axis both edge offsets are zero and the
/// margin on that axis is forced automatic, which is what produces visual
/// centering.
pub open spec fn anchor_resolved_style(style: Style, point: AnchorPoint, margin: Length) -> Style {
    let px0 = Length::Px(FLOAT_BITS_ZERO);
    Style {
        position_type: PositionType::Absolute,
        top: if point.centers_vertically() || point.pins_top() {
            px0
        } else {
            Length::Auto
        },
        bottom: if point.centers_vertically() || !point.pins_top() {
            px0
        } else {
            Length::Auto
        },
        left: if point.centers_horizontally() || point.pins_left() {
            px0
        } else {
            Length::Auto
        },
        right: if point.centers_horizontally() || !point.pins_left() {
            px0
        } else {
            Length::Auto
        },
        margin: LengthRect {
            left: if point.centers_horizontally() {
                Length::Auto
            } else {
                margin
            },
            right: if point.centers_horizontally() {
                Length::Auto
            } else {
                margin
            },
            top: if point.centers_vertically() {
                Length::Auto
            } else {
                margin
            },
            bottom: if point.centers_vertically() {
                Length::Auto
            } else {
                margin
            },
        },
        ..style
    }
}

/// The style after a position block is applied: a relative position writes
/// only the size; an absolute position writes the mode, the top-left offset
/// and the size; an anchored position resolves the anchor rule and then
/// writes the size.
pub open spec fn position_applied(style: Style, pos: NodePosition) -> Style {
    match pos {
        NodePosition::Relative { width, height } => Style { width, height, ..style },
        NodePosition::Absolute { x, y, width, height } => Style {
            position_type: PositionType::Absolute,
            left: x,
            top: y,
            width,
            height,
            ..style
        },
        NodePosition::Anchored { anchor, width, height, margin } => Style {
            width,
            height,
            ..anchor_resolved_style(style, anchor, margin)
        },
    }
}

/// Resolves `point` and `margin` into `style`, per
/// [`anchor_resolved_style`].
fn set_anchor_point(style: &mut Style, point: AnchorPoint, margin: Length)
    ensures
        *final(style) == anchor_resolved_style(*old(style), point, margin),
{
    style.margin = LengthRect::all(margin);
    match point {
        AnchorPoint::TopLeft => {
            style.position_type = PositionType::Absolute;
            style.top = Length::Px(FLOAT_BITS_ZERO);
            style.bottom = Length::Auto;
            style.left = Length::Px(FLOAT_BITS_ZERO);
            style.right = Length::Auto;
        }
        AnchorPoint::TopCenter => {
            style.position_type = PositionType::Absolute;
            style.top = Length::Px(FLOAT_BITS_ZERO);
            style.bottom = Length::Auto;
            style.left = Length::Px(FLOAT_BITS_ZERO);
            style.right = Length::Px(FLOAT_BITS_ZERO);
            style.margin = center_margin_hor(style.margin);
        }
        AnchorPoint::TopRight => {
            style.position_type = PositionType::Absolute;
            style.top = Length::Px(FLOAT_BITS_ZERO);
            style.bottom = Length::Auto;
            style.right = Length::Px(FLOAT_BITS_ZERO);
            style.left = Length::Auto;
        }
        AnchorPoint::CenterLeft => {
            style.position_type = PositionType::Absolute;
            style.top = Length::Px(FLOAT_BITS_ZERO);
            style.bottom = Length::Px(FLOAT_BITS_ZERO);
            style.left = Length::Px(FLOAT_BITS_ZERO);
            style.right = Length::Auto;
            style.margin = center_margin_ver(style.margin);
        }
        AnchorPoint::Center => {
            style.position_type = PositionType::Absolute;
            style.top = Length::Px(FLOAT_BITS_ZERO);
            style.bottom = Length::Px(FLOAT_BITS_ZERO);
            style.left = Length::Px(FLOAT_BITS_ZERO);
            style.right = Length::Px(FLOAT_BITS_ZERO);
            style.margin = center_margin();
        }
        AnchorPoint::CenterRight => {
            style.position_type = PositionType::Absolute;
            style.top = Length::Px(FLOAT_BITS_ZERO);
            style.bottom = Length::Px(FLOAT_BITS_ZERO);
            style.left = Length::Auto;
            style.right = Length::Px(FLOAT_BITS_ZERO);
            style.margin = center_margin_ver(style.margin);
        }
        AnchorPoint::BottomLeft => {
            style.position_type = PositionType::Absolute;
            style.top = Length::Auto;
            style.bottom = Length::Px(FLOAT_BITS_ZERO);
            style.left = Length::Px(FLOAT_BITS_ZERO);
            style.right = Length::Auto;
        }
        AnchorPoint::BottomCenter => {
            style.position_type = PositionType::Absolute;
            style.top = Length::Auto;
            style.bottom = Length::Px(FLOAT_BITS_ZERO);
            style.left = Length::Px(FLOAT_BITS_ZERO);
            style.right = Length::Px(FLOAT_BITS_ZERO);
            style.margin = center_margin_hor(style.margin);
        }
        AnchorPoint::BottomRight => {
            style.position_type = PositionType::Absolute;
            style.top = Length::Auto;
            style.bottom = Length::Px(FLOAT_BITS_ZERO);
            style.left = Length::Auto;
            style.right = Length::Px(FLOAT_BITS_ZERO);
        }
    }
}

/// A copy of `margin` whose left and right edges are automatic, which
/// centers an element horizontally: automatic margins expand symmetrically.
fn center_margin_hor(margin: LengthRect) -> (r: LengthRect)
    ensures
        r == (LengthRect { left: Length::Auto, right: Length::Auto, top: margin.top, bottom: margin.bottom }),
{
    LengthRect { top: margin.top, bottom: margin.bottom, left: Length::Auto, right: Length::Auto }
}

/// A copy of `margin` whose top and bottom edges are automatic, which
/// centers an element vertically.
fn center_margin_ver(margin: LengthRect) -> (r: LengthRect)
    ensures
        r == (LengthRect { left: margin.left, right: margin.right, top: Length::Auto, bottom: Length::Auto }),
{
    LengthRect { top: Length::Auto, bottom: Length::Auto, left: margin.left, right: margin.right }
}

/// A margin that is automatic on every edge, which centers an element both
/// ways.
fn center_margin() -> (r: LengthRect)
    ensures
        r == (LengthRect { left: Length::Auto, right: Length::Auto, top: Length::Auto, bottom: Length::Auto }),
{
    LengthRect { top: Length::Auto, bottom: Length::Auto, left: Length::Auto, right: Length::Auto }
}

impl NodePosition {
    /// Writes this position onto the pending element's style, per
    /// [`position_applied`].  Only the style is touched.
    pub fn apply_to_node(self, node: &mut NodeBundleBuilder)
        ensures
            final(node).style == position_applied(old(node).style, self),
            final(node).parent == old(node).parent,
            final(node).bundle == old(node).bundle,
            final(node).components@ == old(node).components@,
            final(node).children@ == old(node).children@,
    {
        match self {
            NodePosition::Relative { width, height } => {
                node.style.width = width;
                node.style.height = height;
            }
            NodePosition::Absolute { x, y, width, height } => {
                node.style.position_type = PositionType::Absolute;
                node.style.left = x;
                node.style.top = y;
                node.style.width = width;
                node.style.height = height;
            }
            NodePosition::Anchored { anchor, width, height, margin } => {
                set_anchor_point(&mut node.style, anchor, margin);
                node.style.width = width;
                node.style.height = height;
            }
        }
    }
}

/// For every anchor point, the resolved style is in absolute position mode
/// and shows exactly the pinned/centered edge pattern: on a centered axis
/// both edge offsets are pinned to zero and the margin on both edges of
/// that axis ends automatic; on an uncentered axis the pinned edge's
/// offset is zero and both edges of that axis keep the margin value while
/// the free edge's offset is automatic.  The size is untouched.
pub proof fn lemma_anchor_pattern(style: Style, point: AnchorPoint, margin: Length)
    ensures
        anchor_resolved_style(style, point, margin).position_type == PositionType::Absolute,
        point.centers_horizontally() ==> anchor_resolved_style(style, point, margin).left
            == Length::Px(FLOAT_BITS_ZERO) && anchor_resolved_style(style, point, margin).right
            == Length::Px(FLOAT_BITS_ZERO) && anchor_resolved_style(
            style,
            point,
            margin,
        ).margin.left == Length::Auto && anchor_resolved_style(style, point, margin).margin.right
            == Length::Auto,
        !point.centers_horizontally() && point.pins_left() ==> anchor_resolved_style(
            style,
            point,
            margin,
        ).left == Length::Px(FLOAT_BITS_ZERO) && anchor_resolved_style(style, point, margin).right
            == Length::Auto,
        !point.centers_horizontally() && !point.pins_left() ==> anchor_resolved_style(
            style,
            point,
            margin,
        ).right == Length::Px(FLOAT_BITS_ZERO) && anchor_resolved_style(style, point, margin).left
            == Length::Auto,
        !point.centers_horizontally() ==> anchor_resolved_style(style, point, margin).margin.left
            == margin && anchor_resolved_style(style, point, margin).margin.right == margin,
        point.centers_vertically() ==> anchor_resolved_style(style, point, margin).top
            == Length::Px(FLOAT_BITS_ZERO) && anchor_resolved_style(style, point, margin).bottom
            == Length::Px(FLOAT_BITS_ZERO) && anchor_resolved_style(style, point, margin).margin.top
            == Length::Auto && anchor_resolved_style(style, point, margin).margin.bottom
            == Length::Auto,
        !point.centers_vertically() && point.pins_top() ==> anchor_resolved_style(
            style,
            point,
            margin,
        ).top == Length::Px(FLOAT_BITS_ZERO) && anchor_resolved_style(style, point, margin).bottom
            == Length::Auto,
        !point.centers_vertically() && !point.pins_top() ==> anchor_resolved_style(
            style,
            point,
            margin,
        ).bottom == Length::Px(FLOAT_BITS_ZERO) && anchor_resolved_style(style, point, margin).top
            == Length::Auto,
        !point.centers_vertically() ==> anchor_resolved_style(style, point, margin).margin.top
            == margin && anchor_resolved_style(style, point, margin).margin.bottom == margin,
        anchor_resolved_style(style, point, margin).width == style.width,
        anchor_resolved_style(style, point, margin).height == style.height,
{
}

} // verus!
