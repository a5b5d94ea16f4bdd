//! Geometry and style primitives: length values, colors, rectangles of
//! lengths, and the per-element style record that the compiler assembles.
//!
//! Numeric payloads are the host's 32-bit float bit patterns, stored in `u32`
//! fields.  The library moves these values around without interpreting them.

use vstd::prelude::*;

verus! {

/// Bit pattern of the 32-bit float zero.
pub const FLOAT_BITS_ZERO: u32 = 0;

/// Bit pattern of the 32-bit float one half.
pub const FLOAT_BITS_HALF: u32 = 0x3F00_0000;

/// Bit pattern of the 32-bit float one.
pub const FLOAT_BITS_ONE: u32 = 0x3F80_0000;

/// Bit pattern of the 32-bit float sixteen.
pub const FLOAT_BITS_SIXTEEN: u32 = 0x4180_0000;

/// Bit pattern of the 32-bit float one hundred.
pub const FLOAT_BITS_HUNDRED: u32 = 0x42C8_0000;

/// A length value for sizing and positioning UI elements.
///
/// A numeric payload is the bit pattern of the host's 32-bit float.
#[derive(Debug, Clone, Copy, PartialEq, Eq, Structural)]
pub enum Length {
    /// An exact length in logical pixels.
    Px(u32),
    /// A length as a percentage of the parent's extent.
    Percent(u32),
    /// Automatic: the length is decided by the host's layout pass.
    Auto,
}

impl Default for Length {
    fn default() -> (r: Self)
        ensures
            r == Length::Auto,
    {
        Length::Auto
    }
}

/// An RGBA color.  Each channel is the bit pattern of the host's 32-bit
/// float, nominally in the unit interval.
#[derive(Debug, Clone, Copy, PartialEq, Eq, Structural)]
pub struct Rgba {
    /// The red channel.
    pub r: u32,
    /// The green channel.
    pub g: u32,
    /// The blue channel.
    pub b: u32,
    /// The alpha channel.
    pub a: u32,
}

impl Rgba {
    /// Opaque black.
    pub open spec fn black_spec() -> Rgba {
        Rgba { r: FLOAT_BITS_ZERO, g: FLOAT_BITS_ZERO, b: FLOAT_BITS_ZERO, a: FLOAT_BITS_ONE }
    }

    /// Opaque mid gray.
    pub open spec fn gray_spec() -> Rgba {
        Rgba { r: FLOAT_BITS_HALF, g: FLOAT_BITS_HALF, b: FLOAT_BITS_HALF, a: FLOAT_BITS_ONE }
    }

    /// Opaque blue, used as the selection-highlight text color.
    pub open spec fn blue_spec() -> Rgba {
        Rgba { r: FLOAT_BITS_ZERO, g: FLOAT_BITS_ZERO, b: FLOAT_BITS_ONE, a: FLOAT_BITS_ONE }
    }

    /// Opaque white, the neutral tint.
    pub open spec fn white_spec() -> Rgba {
        Rgba { r: FLOAT_BITS_ONE, g: FLOAT_BITS_ONE, b: FLOAT_BITS_ONE, a: FLOAT_BITS_ONE }
    }

    /// Opaque black.
    pub fn black() -> (c: Rgba)
        ensures
            c == Rgba::black_spec(),
    {
        Rgba { r: FLOAT_BITS_ZERO, g: FLOAT_BITS_ZERO, b: FLOAT_BITS_ZERO, a: FLOAT_BITS_ONE }
    }

    /// Opaque mid gray.
    pub fn gray() -> (c: Rgba)
        ensures
            c == Rgba::gray_spec(),
    {
        Rgba { r: FLOAT_BITS_HALF, g: FLOAT_BITS_HALF, b: FLOAT_BITS_HALF, a: FLOAT_BITS_ONE }
    }

    /// Opaque blue, used as the selection-highlight text color.
    pub fn blue() -> (c: Rgba)
        ensures
            c == Rgba::blue_spec(),
    {
        Rgba { r: FLOAT_BITS_ZERO, g: FLOAT_BITS_ZERO, b: FLOAT_BITS_ONE, a: FLOAT_BITS_ONE }
    }
}

impl Default for Rgba {
    /// Opaque white, the neutral tint.
    fn default() -> (c: Self)
        ensures
            c == Rgba::white_spec(),
    {
        Rgba { r: FLOAT_BITS_ONE, g: FLOAT_BITS_ONE, b: FLOAT_BITS_ONE, a: FLOAT_BITS_ONE }
    }
}

/// A rectangle of four lengths, one per edge, used for margins.
#[derive(Debug, Clone, Copy, PartialEq, Eq, Structural)]
pub struct LengthRect {
    /// The left edge.
    pub left: Length,
    /// The right edge.
    pub right: Length,
    /// The top edge.
    pub top: Length,
    /// The bottom edge.
    pub bottom: Length,
}

impl LengthRect {
    /// A rectangle with the same length on every edge.
    pub fn all(value: Length) -> (r: LengthRect)
        ensures
            r == (LengthRect { left: value, right: value, top: value, bottom: value }),
    {
        LengthRect { left: value, right: value, top: value, bottom: value }
    }
}

impl Default for LengthRect {
    /// All four edges at zero pixels.
    fn default() -> (r: Self)
        ensures
            r == LengthRect::zero_spec(),
    {
        LengthRect {
            left: Length::Px(FLOAT_BITS_ZERO),
            right: Length::Px(FLOAT_BITS_ZERO),
            top: Length::Px(FLOAT_BITS_ZERO),
            bottom: Length::Px(FLOAT_BITS_ZERO),
        }
    }
}

impl LengthRect {
    /// The rectangle with every edge at zero pixels.
    pub open spec fn zero_spec() -> LengthRect {
        LengthRect {
            left: Length::Px(FLOAT_BITS_ZERO),
            right: Length::Px(FLOAT_BITS_ZERO),
            top: Length::Px(FLOAT_BITS_ZERO),
            bottom: Length::Px(FLOAT_BITS_ZERO),
        }
    }
}

/// Border widths for nine-slice scaling, one per edge, as 32-bit float bit
/// patterns.
#[derive(Debug, Clone, Copy, PartialEq, Eq, Structural)]
pub struct BorderRect {
    /// The left border width.
    pub left: u32,
    /// The right border width.
    pub right: u32,
    /// The top border width.
    pub top: u32,
    /// The bottom border width.
    pub bottom: u32,
}

impl BorderRect {
    /// A border with the same width on every edge.
    pub fn square(value: u32) -> (r: BorderRect)
        ensures
            r == (BorderRect { left: value, right: value, top: value, bottom: value }),
    {
        BorderRect { left: value, right: value, top: value, bottom: value }
    }
}

impl Default for BorderRect {
    fn default() -> (r: Self)
        ensures
            r == (BorderRect { left: FLOAT_BITS_ZERO, right: FLOAT_BITS_ZERO, top: FLOAT_BITS_ZERO, bottom: FLOAT_BITS_ZERO }),
    {
        BorderRect {
            left: FLOAT_BITS_ZERO,
            right: FLOAT_BITS_ZERO,
            top: FLOAT_BITS_ZERO,
            bottom: FLOAT_BITS_ZERO,
        }
    }
}

/// How one region of a nine-sliced texture fills its area.
#[derive(Debug, Clone, Copy, PartialEq, Eq, Structural)]
pub enum SliceScaleMode {
    /// The region is stretched to fit.
    Stretch,
    /// The region is tiled; the payload is how far a tile may stretch
    /// before repeating, as a 32-bit float bit pattern.
    Tile(u32),
}

impl Default for SliceScaleMode {
    fn default() -> (r: Self)
        ensures
            r == SliceScaleMode::Stretch,
    {
        SliceScaleMode::Stretch
    }
}

/// Settings for slicing a texture into a nine-patch grid.
#[derive(Debug, Clone, Copy, PartialEq, Eq, Structural)]
pub struct TextureSlicer {
    /// The border widths that cut the nine regions.
    pub border: BorderRect,
    /// How the center region fills its area.
    pub center_scale_mode: SliceScaleMode,
    /// How the edge regions fill their areas.
    pub sides_scale_mode: SliceScaleMode,
    /// How far the corners may scale up relative to the texture, as a
    /// 32-bit float bit pattern; nominally one.
    pub max_corner_scale: u32,
}

impl TextureSlicer {
    /// The slicer a builder starts from: zero borders, stretched center and
    /// edges, and corners kept at their native size.
    pub open spec fn default_spec() -> TextureSlicer {
        TextureSlicer {
            border: BorderRect {
                left: FLOAT_BITS_ZERO,
                right: FLOAT_BITS_ZERO,
                top: FLOAT_BITS_ZERO,
                bottom: FLOAT_BITS_ZERO,
            },
            center_scale_mode: SliceScaleMode::Stretch,
            sides_scale_mode: SliceScaleMode::Stretch,
            max_corner_scale: FLOAT_BITS_ONE,
        }
    }
}

impl Default for TextureSlicer {
    fn default() -> (r: Self)
        ensures
            r == TextureSlicer::default_spec(),
    {
        TextureSlicer {
            border: BorderRect {
                left: FLOAT_BITS_ZERO,
                right: FLOAT_BITS_ZERO,
                top: FLOAT_BITS_ZERO,
                bottom: FLOAT_BITS_ZERO,
            },
            center_scale_mode: SliceScaleMode::Stretch,
            sides_scale_mode: SliceScaleMode::Stretch,
            max_corner_scale: FLOAT_BITS_ONE,
        }
    }
}

/// How a background image is scaled across its element, as attached to a
/// compiled element for the host's renderer.
#[derive(Debug, Clone, Copy, PartialEq, Eq, Structural)]
pub enum ImageScaleMode {
    /// The image repeats across the element.
    Tiled {
        /// Whether the image repeats horizontally.
        tile_x: bool,
        /// Whether the image repeats vertically.
        tile_y: bool,
        /// How far a tile may stretch before repeating, as a 32-bit float
        /// bit pattern.
        stretch_value: u32,
    },
    /// The image is cut into a nine-patch grid.
    Sliced(TextureSlicer),
}

/// How an element's offsets are interpreted by the host's layout pass.
#[derive(Debug, Clone, Copy, PartialEq, Eq, Structural)]
pub enum PositionType {
    /// Positioned by the parent's layout flow.
    Relative,
    /// Positioned by explicit offsets from the parent's origin.
    Absolute,
}

/// How a container aligns its content lines along the cross axis.
#[derive(Debug, Clone, Copy, PartialEq, Eq, Structural)]
pub enum AlignContent {
    /// No preference; the host's default applies.
    Unset,
    /// Pack content toward the start of the cross axis.
    FlexStart,
    /// Center content on the cross axis.
    Center,
    /// Pack content toward the end of the cross axis.
    FlexEnd,
}

/// How a container distributes its children along the main axis.
#[derive(Debug, Clone, Copy, PartialEq, Eq, Structural)]
pub enum JustifyContent {
    /// No preference; the host's default applies.
    Unset,
    /// Pack children toward the start of the main axis.
    Start,
    /// Center children on the main axis.
    Center,
    /// Pack children toward the end of the main axis.
    End,
}

/// How a container aligns each item on the cross axis.
#[derive(Debug, Clone, Copy, PartialEq, Eq, Structural)]
pub enum AlignItems {
    /// No preference; the host's default applies.
    Unset,
    /// Align items to the start of the cross axis.
    FlexStart,
    /// Center items on the cross axis.
    Center,
    /// Align items to the end of the cross axis.
    FlexEnd,
}

/// How a container justifies each item on the main axis.
#[derive(Debug, Clone, Copy, PartialEq, Eq, Structural)]
pub enum JustifyItems {
    /// No preference; the host's default applies.
    Unset,
    /// Justify items to the start of the main axis.
    Start,
    /// Center items on the main axis.
    Center,
    /// Justify items to the end of the main axis.
    End,
}

/// The style record attached to every compiled element.
///
/// Many independent data blocks write into one style, each touching its own
/// fields, so the compiler merges styles field by field rather than
/// replacing them wholesale.
#[derive(Debug, Clone, Copy, PartialEq, Eq, Structural)]
pub struct Style {
    /// How the offset fields are interpreted.
    pub position_type: PositionType,
    /// Offset of the left edge from the parent.
    pub left: Length,
    /// Offset of the right edge from the parent.
    pub right: Length,
    /// Offset of the top edge from the parent.
    pub top: Length,
    /// Offset of the bottom edge from the parent.
    pub bottom: Length,
    /// The element's width.
    pub width: Length,
    /// The element's height.
    pub height: Length,
    /// The outer margin, one length per edge.
    pub margin: LengthRect,
    /// Cross-axis alignment of content lines.
    pub align_content: AlignContent,
    /// Main-axis distribution of children.
    pub justify_content: JustifyContent,
    /// Cross-axis alignment of individual items.
    pub align_items: AlignItems,
    /// Main-axis justification of individual items.
    pub justify_items: JustifyItems,
}

impl Style {
    /// The style a freshly created element starts from: everything automatic
    /// or unset, with a zero margin.
    pub open spec fn default_spec() -> Style {
        Style {
            position_type: PositionType::Relative,
            left: Length::Auto,
            right: Length::Auto,
            top: Length::Auto,
            bottom: Length::Auto,
            width: Length::Auto,
            height: Length::Auto,
            margin: LengthRect::zero_spec(),
            align_content: AlignContent::Unset,
            justify_content: JustifyContent::Unset,
            align_items: AlignItems::Unset,
            justify_items: JustifyItems::Unset,
        }
    }
}

impl Default for Style {
    fn default() -> (s: Self)
        ensures
            s == Style::default_spec(),
    {
        Style {
            position_type: PositionType::Relative,
            left: Length::Auto,
            right: Length::Auto,
            top: Length::Auto,
            bottom: Length::Auto,
            width: Length::Auto,
            height: Length::Auto,
            margin: LengthRect {
                left: Length::Px(FLOAT_BITS_ZERO),
                right: Length::Px(FLOAT_BITS_ZERO),
                top: Length::Px(FLOAT_BITS_ZERO),
                bottom: Length::Px(FLOAT_BITS_ZERO),
            },
            align_content: AlignContent::Unset,
            justify_content: JustifyContent::Unset,
            align_items: AlignItems::Unset,
            justify_items: JustifyItems::Unset,
        }
    }
}

} // verus!
