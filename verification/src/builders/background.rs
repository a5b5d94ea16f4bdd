//! Fluent builders for the background block of a node.

use vstd::prelude::*;

use crate::blocks::background::{NodeBackground, NodeTextureScaling};
use crate::geometry::Rgba;

verus! {

/// Entry point for building a [`NodeBackground`].
#[derive(Debug, Clone, Copy, PartialEq, Eq, Structural)]
pub struct BackgroundBuilder;

impl BackgroundBuilder {
    /// Gives the node no background.
    pub fn none() -> (r: EmptyBackgroundBuilder)
        ensures
            r == EmptyBackgroundBuilder,
    {
        EmptyBackgroundBuilder
    }

    /// Gives the node a solid color background.
    pub fn color(color: Rgba) -> (r: ColorBackgroundBuilder)
        ensures
            r == (ColorBackgroundBuilder { color }),
    {
        ColorBackgroundBuilder { color }
    }

    /// Gives the node a background image.
    pub fn image(img: String) -> (r: ImageBackgroundBuilder)
        ensures
            r.img@ == img@,
            r.tint == Rgba::white_spec(),
            r.tex_scaling is Stretched,
    {
        ImageBackgroundBuilder {
            img,
            tint: Rgba::default(),
            tex_scaling: NodeTextureScaling::Stretched,
        }
    }
}

/// Builds an absent background.
#[derive(Debug, Clone, Copy, PartialEq, Eq, Structural)]
pub struct EmptyBackgroundBuilder;

impl From<EmptyBackgroundBuilder> for NodeBackground {
    fn from(_value: EmptyBackgroundBuilder) -> (r: NodeBackground) {
        NodeBackground::Empty
    }
}

impl vstd::std_specs::convert::FromSpecImpl<EmptyBackgroundBuilder> for NodeBackground {
    open spec fn obeys_from_spec() -> bool {
        true
    }

    open spec fn from_spec(v: EmptyBackgroundBuilder) -> NodeBackground {
        NodeBackground::Empty
    }
}

/// Builds a solid color background.
#[derive(Debug, Clone, Copy, PartialEq, Eq, Structural)]
pub struct ColorBackgroundBuilder {
    /// The fill color.
    pub color: Rgba,
}

impl From<ColorBackgroundBuilder> for NodeBackground {
    fn from(builder: ColorBackgroundBuilder) -> (r: NodeBackground) {
        NodeBackground::Color { color: builder.color }
    }
}

impl vstd::std_specs::convert::FromSpecImpl<ColorBackgroundBuilder> for NodeBackground {
    open spec fn obeys_from_spec() -> bool {
        true
    }

    open spec fn from_spec(v: ColorBackgroundBuilder) -> NodeBackground {
        NodeBackground::Color { color: v.color }
    }
}

/// Builds an image background.
#[derive(Debug, Clone)]
pub struct ImageBackgroundBuilder {
    /// The asset path of the image.
    pub img: String,
    /// The tint applied to the image.
    pub tint: Rgba,
    /// How the image is scaled over the node.
    pub tex_scaling: NodeTextureScaling,
}

impl ImageBackgroundBuilder {
    /// Sets the image's asset path.
    pub fn image(self, img: String) -> (r: Self)
        ensures
            r.img@ == img@,
            r.tint == self.tint,
            r.tex_scaling == self.tex_scaling,
    {
        ImageBackgroundBuilder { img, ..self }
    }

    /// Sets the tint applied to the image.
    pub fn tint(self, tint: Rgba) -> (r: Self)
        ensures
            r.img@ == self.img@,
            r.tint == tint,
            r.tex_scaling == self.tex_scaling,
    {
        ImageBackgroundBuilder { tint, ..self }
    }

    /// Sets how the image is scaled over the node.
    pub fn texture_scaling(self, scaling: NodeTextureScaling) -> (r: Self)
        ensures
            r.img@ == self.img@,
            r.tint == self.tint,
            r.tex_scaling == scaling,
    {
        ImageBackgroundBuilder { tex_scaling: scaling, ..self }
    }
}

impl From<ImageBackgroundBuilder> for NodeBackground {
    fn from(builder: ImageBackgroundBuilder) -> (r: NodeBackground) {
        NodeBackground::Image {
            img: builder.img,
            tint: builder.tint,
            tex_scaling: builder.tex_scaling,
        }
    }
}

impl vstd::std_specs::convert::FromSpecImpl<ImageBackgroundBuilder> for NodeBackground {
    open spec fn obeys_from_spec() -> bool {
        true
    }

    open spec fn from_spec(v: ImageBackgroundBuilder) -> NodeBackground {
        NodeBackground::Image { img: v.img, tint: v.tint, tex_scaling: v.tex_scaling }
    }
}

} // verus!
