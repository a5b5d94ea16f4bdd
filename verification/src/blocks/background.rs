//! The background block: a solid fill, a tinted image, or nothing.

use vstd::prelude::*;

use crate::assets::{AssetServer, ImageHandle};
use crate::builders::bundle::{ComponentWrite, NodeBundleBuilder, NodeBundleType, WriteModel};
use crate::geometry::{ImageScaleMode, Rgba, TextureSlicer};

verus! {

/// How a background image is scaled over its node.
#[derive(Debug, Clone)]
pub enum NodeTextureScaling {
    /// The image is stretched to the node's size.
    Stretched,
    /// The image is tiled over the node.
    Tiled {
        /// Whether the image repeats horizontally.
        tile_x: bool,
        /// Whether the image repeats vertically.
        tile_y: bool,
        /// How far a tile may stretch before repeating, as a 32-bit float
        /// bit pattern.
        stretch_value: u32,
    },
    /// The image is cut into a nine-patch grid.
    Sliced {
        /// The slicer settings.
        slicer: TextureSlicer,
    },
}

impl Default for NodeTextureScaling {
    fn default() -> (r: Self)
        ensures
            r == NodeTextureScaling::Stretched,
    {
        NodeTextureScaling::Stretched
    }
}

/// The background of a node.
#[derive(Debug, Clone)]
pub enum NodeBackground {
    /// The node has no background.
    Empty,
    /// The node is filled with a solid color.
    Color {
        /// The fill color.
        color: Rgba,
    },
    /// The node shows an image.
    Image {
        /// The asset path of the image.
        img: String,
        /// The tint applied to the image.
        tint: Rgba,
        /// How the image is scaled over the node.
        tex_scaling: NodeTextureScaling,
    },
}

impl Default for NodeBackground {
    fn default() -> (r: Self)
        ensures
            r is Empty,
    {
        NodeBackground::Empty
    }
}

/// The asset paths a background block requests: the image path, if there is
/// an image.
pub open spec fn background_requests(bg: NodeBackground) -> Seq<Seq<char>> {
    match bg {
        NodeBackground::Image { img, .. } => seq![img@],
        _ => Seq::<Seq<char>>::empty(),
    }
}

/// The scale-mode write a texture scaling produces: none for stretching,
/// which is the host's default.
pub open spec fn scaling_writes(ts: NodeTextureScaling) -> Seq<WriteModel> {
    match ts {
        NodeTextureScaling::Stretched => Seq::<WriteModel>::empty(),
        NodeTextureScaling::Tiled { tile_x, tile_y, stretch_value } => seq![
            WriteModel::ScaleMode(ImageScaleMode::Tiled { tile_x, tile_y, stretch_value }),
        ],
        NodeTextureScaling::Sliced { slicer } => seq![
            WriteModel::ScaleMode(ImageScaleMode::Sliced(slicer)),
        ],
    }
}

/// The component writes a background block produces.  `req_base` is the
/// index its first asset request gets in the request log.
pub open spec fn background_writes(bg: NodeBackground, req_base: int) -> Seq<WriteModel> {
    match bg {
        NodeBackground::Empty => Seq::<WriteModel>::empty(),
        NodeBackground::Color { color } => seq![WriteModel::Background(color)],
        NodeBackground::Image { img, tint, tex_scaling } => seq![
            WriteModel::Image(ImageHandle { id: req_base as usize }),
            WriteModel::Background(tint),
        ] + scaling_writes(tex_scaling),
    }
}

impl NodeBackground {
    /// Writes this background onto the pending element: a color becomes a
    /// background write; an image requests its asset, switches the element
    /// kind to an image element, and adds image, tint and scale-mode
    /// writes; an empty background changes nothing.
    pub fn apply_to_node(self, node: &mut NodeBundleBuilder, assets: &mut AssetServer)
        ensures
            crate::assets::requests_model(final(assets).requests@) == crate::assets::requests_model(
                old(assets).requests@,
            ) + background_requests(self),
            crate::builders::bundle::writes_model(final(node).components@)
                == crate::builders::bundle::writes_model(old(node).components@)
                + background_writes(self, old(assets).requests@.len() as int),
            final(node).bundle == if self is Image {
                NodeBundleType::Image
            } else {
                old(node).bundle
            },
            final(node).parent == old(node).parent,
            final(node).style == old(node).style,
            final(node).children@ == old(node).children@,
    {
        let ghost bg = self;
        let ghost requests0 = assets.requests@;
        let ghost components0 = node.components@;
        let ghost req_base = assets.requests@.len() as int;
        match self {
            NodeBackground::Empty => {
                proof {
                    assert(crate::assets::requests_model(assets.requests@)
                        =~= crate::assets::requests_model(requests0) + background_requests(bg));
                    assert(crate::builders::bundle::writes_model(node.components@)
                        =~= crate::builders::bundle::writes_model(components0) + background_writes(
                        bg,
                        req_base,
                    ));
                }
            }
            NodeBackground::Color { color } => {
                node.insert(ComponentWrite::Background(color));
                proof {
                    assert(crate::assets::requests_model(assets.requests@)
                        =~= crate::assets::requests_model(requests0) + background_requests(bg));
                    assert(crate::builders::bundle::writes_model(node.components@)
                        =~= crate::builders::bundle::writes_model(components0) + background_writes(
                        bg,
                        req_base,
                    ));
                }
            }
            NodeBackground::Image { img, tint, tex_scaling } => {
                let bg_img = assets.load_image(img);
                node.bundle_type(NodeBundleType::Image);
                node.insert(ComponentWrite::Image(bg_img));
                node.insert(ComponentWrite::Background(tint));
                match tex_scaling {
                    NodeTextureScaling::Stretched => {}
                    NodeTextureScaling::Tiled { tile_x, tile_y, stretch_value } => {
                        node.insert(
                            ComponentWrite::ScaleMode(
                                ImageScaleMode::Tiled { tile_x, tile_y, stretch_value },
                            ),
                        );
                    }
                    NodeTextureScaling::Sliced { slicer } => {
                        node.insert(ComponentWrite::ScaleMode(ImageScaleMode::Sliced(slicer)));
                    }
                }
                proof {
                    assert(crate::assets::requests_model(assets.requests@)
                        =~= crate::assets::requests_model(requests0) + background_requests(bg));
                    assert(crate::builders::bundle::writes_model(node.components@)
                        =~= crate::builders::bundle::writes_model(components0) + background_writes(
                        bg,
                        req_base,
                    ));
                }
            }
        }
    }
}

} // verus!
