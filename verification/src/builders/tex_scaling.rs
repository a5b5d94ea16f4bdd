//! Fluent builders for how a background image texture is scaled.

use vstd::prelude::*;

use crate::blocks::background::NodeTextureScaling;
use crate::geometry::{BorderRect, SliceScaleMode, TextureSlicer, FLOAT_BITS_ONE};

verus! {

/// Entry point for building a [`NodeTextureScaling`].
#[derive(Debug, Clone, Copy, PartialEq, Eq, Structural)]
pub struct TexScalingBuilder;

impl TexScalingBuilder {
    /// Stretches the texture across the node.
    pub fn stretch(self) -> (r: TexStretchBuilder)
        ensures
            r == TexStretchBuilder,
    {
        TexStretchBuilder
    }

    /// Tiles the texture across the node.
    pub fn tiled(self) -> (r: TexTileBuilder)
        ensures
            r == (TexTileBuilder { tile_x: true, tile_y: true, stretch_value: FLOAT_BITS_ONE }),
    {
        TexTileBuilder { tile_x: true, tile_y: true, stretch_value: FLOAT_BITS_ONE }
    }

    /// Scales the texture with a nine-slice grid.
    pub fn sliced(self) -> (r: TexSlicedBuilder)
        ensures
            r == (TexSlicedBuilder { slicer: TextureSlicer::default_spec() }),
    {
        TexSlicedBuilder { slicer: TextureSlicer::default() }
    }
}

/// Builds a stretched texture scaling.
#[derive(Debug, Clone, Copy, PartialEq, Eq, Structural)]
pub struct TexStretchBuilder;

impl From<TexStretchBuilder> for NodeTextureScaling {
    fn from(_value: TexStretchBuilder) -> (r: NodeTextureScaling) {
        NodeTextureScaling::Stretched
    }
}

impl vstd::std_specs::convert::FromSpecImpl<TexStretchBuilder> for NodeTextureScaling {
    open spec fn obeys_from_spec() -> bool {
        true
    }

    open spec fn from_spec(v: TexStretchBuilder) -> NodeTextureScaling {
        NodeTextureScaling::Stretched
    }
}

/// Builds a tiled texture scaling.
#[derive(Debug, Clone, Copy, PartialEq, Eq, Structural)]
pub struct TexTileBuilder {
    /// Whether the image repeats horizontally.
    pub tile_x: bool,
    /// Whether the image repeats vertically.
    pub tile_y: bool,
    /// How far a tile may stretch before repeating, as a 32-bit float bit
    /// pattern.
    pub stretch_value: u32,
}

impl Default for TexTileBuilder {
    fn default() -> (r: Self)
        ensures
            r == (TexTileBuilder { tile_x: true, tile_y: true, stretch_value: FLOAT_BITS_ONE }),
    {
        TexTileBuilder { tile_x: true, tile_y: true, stretch_value: FLOAT_BITS_ONE }
    }
}

impl TexTileBuilder {
    /// Tiles the texture only horizontally.
    pub fn tile_horizontally(self) -> (r: Self)
        ensures
            r == (TexTileBuilder { tile_x: true, tile_y: false, ..self }),
    {
        TexTileBuilder { tile_x: true, tile_y: false, ..self }
    }

    /// Tiles the texture only vertically.
    pub fn tile_vertically(self) -> (r: Self)
        ensures
            r == (TexTileBuilder { tile_x: false, tile_y: true, ..self }),
    {
        TexTileBuilder { tile_x: false, tile_y: true, ..self }
    }

    /// Tiles the texture both ways.
    pub fn tile_both(self) -> (r: Self)
        ensures
            r == (TexTileBuilder { tile_x: true, tile_y: true, ..self }),
    {
        TexTileBuilder { tile_x: true, tile_y: true, ..self }
    }

    /// Sets how far a tile may stretch before repeating.
    pub fn stretch_value(self, stretch_value: u32) -> (r: Self)
        ensures
            r == (TexTileBuilder { stretch_value, ..self }),
    {
        TexTileBuilder { stretch_value, ..self }
    }
}

impl From<TexTileBuilder> for NodeTextureScaling {
    fn from(value: TexTileBuilder) -> (r: NodeTextureScaling) {
        NodeTextureScaling::Tiled {
            tile_x: value.tile_x,
            tile_y: value.tile_y,
            stretch_value: value.stretch_value,
        }
    }
}

impl vstd::std_specs::convert::FromSpecImpl<TexTileBuilder> for NodeTextureScaling {
    open spec fn obeys_from_spec() -> bool {
        true
    }

    open spec fn from_spec(v: TexTileBuilder) -> NodeTextureScaling {
        NodeTextureScaling::Tiled { tile_x: v.tile_x, tile_y: v.tile_y, stretch_value: v.stretch_value }
    }
}

/// Builds a nine-slice texture scaling.
#[derive(Debug, Clone, Copy, PartialEq, Eq, Structural)]
pub struct TexSlicedBuilder {
    /// The slicer settings.
    pub slicer: TextureSlicer,
}

impl Default for TexSlicedBuilder {
    fn default() -> (r: Self)
        ensures
            r == (TexSlicedBuilder { slicer: TextureSlicer::default_spec() }),
    {
        TexSlicedBuilder { slicer: TextureSlicer::default() }
    }
}

impl TexSlicedBuilder {
    /// Sets the same border width on every edge.
    pub fn border(self, border: u32) -> (r: Self)
        ensures
            r.slicer == (TextureSlicer {
                border: BorderRect { left: border, right: border, top: border, bottom: border },
                ..self.slicer
            }),
    {
        TexSlicedBuilder {
            slicer: TextureSlicer { border: BorderRect::square(border), ..self.slicer },
        }
    }

    /// Sets only the top border width.
    pub fn top_border(self, top: u32) -> (r: Self)
        ensures
            r.slicer == (TextureSlicer {
                border: BorderRect { top, ..self.slicer.border },
                ..self.slicer
            }),
    {
        TexSlicedBuilder {
            slicer: TextureSlicer {
                border: BorderRect { top, ..self.slicer.border },
                ..self.slicer
            },
        }
    }

    /// Sets only the bottom border width.
    pub fn bottom_border(self, bottom: u32) -> (r: Self)
        ensures
            r.slicer == (TextureSlicer {
                border: BorderRect { bottom, ..self.slicer.border },
                ..self.slicer
            }),
    {
        TexSlicedBuilder {
            slicer: TextureSlicer {
                border: BorderRect { bottom, ..self.slicer.border },
                ..self.slicer
            },
        }
    }

    /// Sets only the left border width.
    pub fn left_border(self, left: u32) -> (r: Self)
        ensures
            r.slicer == (TextureSlicer {
                border: BorderRect { left, ..self.slicer.border },
                ..self.slicer
            }),
    {
        TexSlicedBuilder {
            slicer: TextureSlicer {
                border: BorderRect { left, ..self.slicer.border },
                ..self.slicer
            },
        }
    }

    /// Sets only the right border width.
    pub fn right_border(self, right: u32) -> (r: Self)
        ensures
            r.slicer == (TextureSlicer {
                border: BorderRect { right, ..self.slicer.border },
                ..self.slicer
            }),
    {
        TexSlicedBuilder {
            slicer: TextureSlicer {
                border: BorderRect { right, ..self.slicer.border },
                ..self.slicer
            },
        }
    }

    /// Tiles the center region instead of stretching it; the value is how
    /// far it may stretch before repeating.
    pub fn tile_center(self, stretch_value: u32) -> (r: Self)
        ensures
            r.slicer == (TextureSlicer {
                center_scale_mode: SliceScaleMode::Tile(stretch_value),
                ..self.slicer
            }),
    {
        TexSlicedBuilder {
            slicer: TextureSlicer {
                center_scale_mode: SliceScaleMode::Tile(stretch_value),
                ..self.slicer
            },
        }
    }

    /// Tiles the edge regions instead of stretching them; the value is how
    /// far they may stretch before repeating.
    pub fn tile_sides(self, stretch_value: u32) -> (r: Self)
        ensures
            r.slicer == (TextureSlicer {
                sides_scale_mode: SliceScaleMode::Tile(stretch_value),
                ..self.slicer
            }),
    {
        TexSlicedBuilder {
            slicer: TextureSlicer {
                sides_scale_mode: SliceScaleMode::Tile(stretch_value),
                ..self.slicer
            },
        }
    }

    /// Sets how far the corners may scale up relative to the texture.
    pub fn max_corner_scale(self, max_corner_scale: u32) -> (r: Self)
        ensures
            r.slicer == (TextureSlicer { max_corner_scale, ..self.slicer }),
    {
        TexSlicedBuilder { slicer: TextureSlicer { max_corner_scale, ..self.slicer } }
    }
}

impl From<TexSlicedBuilder> for NodeTextureScaling {
    fn from(value: TexSlicedBuilder) -> (r: NodeTextureScaling) {
        NodeTextureScaling::Sliced { slicer: value.slicer }
    }
}

impl vstd::std_specs::convert::FromSpecImpl<TexSlicedBuilder> for NodeTextureScaling {
    open spec fn obeys_from_spec() -> bool {
        true
    }

    open spec fn from_spec(v: TexSlicedBuilder) -> NodeTextureScaling {
        NodeTextureScaling::Sliced { slicer: v.slicer }
    }
}

} // verus!
