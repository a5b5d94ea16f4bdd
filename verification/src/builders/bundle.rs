//! The per-node accumulator used during compilation.
//!
//! A [`NodeBundleBuilder`] collects everything the data blocks of one node
//! write — the element kind, the field-merged style, an ordered list of
//! deferred component writes, the parent link and the child descriptions —
//! and is then resolved into one concrete [`crate::scene::Element`].

use vstd::prelude::*;

use crate::geometry::{ImageScaleMode, Rgba, Style};
use crate::assets::{requests_model, AssetServer, ImageHandle};
use crate::nodes::text_field::{FieldModel, TextField};
use crate::nodes::{
    compile_nodes, node_requests, node_size, nodes_requests, nodes_size, parent_model, UiNode,
};
use crate::scene::{Element, ElementModel, Scene};
use crate::text::{Text, TextModel};

verus! {

/// Which kind of element the host creates for a node.
#[derive(Debug, Clone, Copy, PartialEq, Eq, Hash, Structural)]
pub enum NodeBundleType {
    /// A plain container element.
    Node,
    /// An element that draws an image.
    Image,
    /// An interactive button element.
    Button,
    /// An element that draws text.
    Text,
}

impl Default for NodeBundleType {
    fn default() -> (r: Self)
        ensures
            r == NodeBundleType::Node,
    {
        NodeBundleType::Node
    }
}

/// One deferred component write.  Writes are applied to the pending element
/// in insertion order, and a later write replaces an earlier write of the
/// same aspect.
#[derive(Debug)]
pub enum ComponentWrite {
    /// Sets the background fill or image tint.
    Background(Rgba),
    /// Sets the background image.
    Image(ImageHandle),
    /// Sets how the background image is scaled.
    ScaleMode(ImageScaleMode),
    /// Sets the renderable text content.
    Content(Text),
    /// Sets the editable text-field state.
    Field(TextField),
}

/// The mathematical model of a [`ComponentWrite`].
pub ghost enum WriteModel {
    /// Sets the background fill or image tint.
    Background(Rgba),
    /// Sets the background image.
    Image(ImageHandle),
    /// Sets how the background image is scaled.
    ScaleMode(ImageScaleMode),
    /// Sets the renderable text content.
    Content(TextModel),
    /// Sets the editable text-field state.
    Field(FieldModel),
}

impl View for ComponentWrite {
    type V = WriteModel;

    open spec fn view(&self) -> WriteModel {
        match self {
            ComponentWrite::Background(c) => WriteModel::Background(*c),
            ComponentWrite::Image(h) => WriteModel::Image(*h),
            ComponentWrite::ScaleMode(m) => WriteModel::ScaleMode(*m),
            ComponentWrite::Content(t) => WriteModel::Content(t@),
            ComponentWrite::Field(f) => WriteModel::Field(f@),
        }
    }
}

/// The models of a sequence of component writes, element by element.
pub open spec fn writes_model(s: Seq<ComponentWrite>) -> Seq<WriteModel> {
    s.map_values(|w: ComponentWrite| w@)
}

/// One write applied to a pending element: the write's aspect is replaced,
/// everything else stays.
pub open spec fn apply_write(e: ElementModel, w: WriteModel) -> ElementModel {
    match w {
        WriteModel::Background(c) => ElementModel { background_color: Some(c), ..e },
        WriteModel::Image(h) => ElementModel { image: Some(h), ..e },
        WriteModel::ScaleMode(m) => ElementModel { scale_mode: Some(m), ..e },
        WriteModel::Content(t) => ElementModel { text: Some(t), ..e },
        WriteModel::Field(f) => ElementModel { text_field: Some(f), ..e },
    }
}

/// A list of writes applied in order; a later write of an aspect overrides
/// an earlier one.
pub open spec fn apply_writes(e: ElementModel, ws: Seq<WriteModel>) -> ElementModel
    decreases ws.len(),
{
    if ws.len() == 0 {
        e
    } else {
        apply_writes(apply_write(e, ws[0]), ws.skip(1))
    }
}

/// Deferred writes only fill aspects: an element's kind, parent link and
/// style pass through [`apply_writes`] unchanged.
pub proof fn lemma_apply_writes_frame(e: ElementModel, ws: Seq<WriteModel>)
    ensures
        apply_writes(e, ws).kind == e.kind,
        apply_writes(e, ws).parent == e.parent,
        apply_writes(e, ws).style == e.style,
    decreases ws.len(),
{
    if ws.len() > 0 {
        lemma_apply_writes_frame(apply_write(e, ws[0]), ws.skip(1));
    }
}

/// The element a resolved builder produces: an element of the given kind,
/// parent and style, with no aspects, after the deferred writes are applied
/// in order.
pub open spec fn built_element(
    kind: NodeBundleType,
    parent: Option<int>,
    style: Style,
    ws: Seq<WriteModel>,
) -> ElementModel {
    apply_writes(
        ElementModel {
            kind,
            parent,
            style,
            background_color: None,
            image: None,
            scale_mode: None,
            text: None,
            text_field: None,
        },
        ws,
    )
}

/// The accumulator for one node's compilation.  Blocks write into it one at
/// a time; resolving it creates the concrete element and recurses into the
/// children.
#[derive(Debug)]
pub struct NodeBundleBuilder {
    /// The parent element of the node, or `None` for a root.
    pub parent: Option<usize>,
    /// The style record, merged field by field by the blocks.
    pub style: Style,
    /// Which kind of element to create; whichever block needs a specialized
    /// kind selects it.
    pub bundle: NodeBundleType,
    /// The deferred component writes, in insertion order.
    pub components: Vec<ComponentWrite>,
    /// The child descriptions to compile after this element exists.
    pub children: Vec<UiNode>,
}

impl Default for NodeBundleBuilder {
    fn default() -> (b: Self)
        ensures
            b.parent is None,
            b.style == Style::default_spec(),
            b.bundle == NodeBundleType::Node,
            b.components@ =~= Seq::<ComponentWrite>::empty(),
            b.children@ =~= Seq::<UiNode>::empty(),
    {
        NodeBundleBuilder {
            parent: None,
            style: Style::default(),
            bundle: NodeBundleType::Node,
            components: Vec::new(),
            children: Vec::new(),
        }
    }
}

impl NodeBundleBuilder {
    /// Borrows the style record for a block that merges its own fields
    /// into it without replacing the rest.
    pub fn get_style_mut(&mut self) -> (style: &mut Style)
        ensures
            *style == old(self).style,
            *final(self) == (NodeBundleBuilder { style: *final(style), ..*old(self) }),
    {
        &mut self.style
    }

    /// Selects the kind of element to create.
    pub fn bundle_type(&mut self, bundle: NodeBundleType)
        ensures
            *final(self) == (NodeBundleBuilder { bundle, ..*old(self) }),
    {
        self.bundle = bundle;
    }

    /// Appends a deferred component write.  Writes are applied in insertion
    /// order and a later write replaces an earlier write of the same
    /// aspect.
    pub fn insert(&mut self, component: ComponentWrite)
        ensures
            final(self).components@ == old(self).components@.push(component),
            final(self).parent == old(self).parent,
            final(self).style == old(self).style,
            final(self).bundle == old(self).bundle,
            final(self).children@ == old(self).children@,
    {
        self.components.push(component);
    }

    /// Sets the parent element; `None` makes the node a root.
    pub fn set_parent(&mut self, parent: Option<usize>)
        ensures
            *final(self) == (NodeBundleBuilder { parent, ..*old(self) }),
    {
        self.parent = parent;
    }

    /// Sets the child descriptions to compile under this node's element.
    pub fn set_children(&mut self, children: Vec<UiNode>)
        ensures
            final(self).children@ == children@,
            final(self).parent == old(self).parent,
            final(self).style == old(self).style,
            final(self).bundle == old(self).bundle,
            final(self).components@ == old(self).components@,
    {
        self.children = children;
    }

    /// Resolves the builder: creates one element of the selected kind with
    /// the merged style and parent link, applies every deferred write in
    /// order, spawns it, and then compiles each child with the new element
    /// as parent.  Returns the new element's identifier.
    ///
    /// The element is spawned before any child is compiled, so a child's
    /// parent reference is always valid at child-build time.
    #[verifier::loop_isolation(false)]
    pub fn build(self, scene: &mut Scene, assets: &mut AssetServer) -> (id: usize)
        ensures
            id == old(scene)@.len(),
            final(scene)@ == old(scene)@ + seq![
                built_element(
                    self.bundle,
                    parent_model(self.parent),
                    self.style,
                    writes_model(self.components@),
                ),
            ] + compile_nodes(
                self.children@,
                old(scene)@.len() as int,
                old(scene)@.len() as int + 1,
                old(assets).requests@.len() as int,
            ),
            requests_model(final(assets).requests@) == requests_model(old(assets).requests@)
                + nodes_requests(self.children@),
        decreases nodes_size(self.children@) + 1, 0int,
    {
        let ghost components0 = self.components@;
        let ghost children0 = self.children@;
        let ghost scene0 = scene@;
        let ghost reqs0 = assets.requests@;
        let ghost target = built_element(
            self.bundle,
            parent_model(self.parent),
            self.style,
            writes_model(components0),
        );
        let NodeBundleBuilder { parent, style, bundle, components, children } = self;
        let mut element = Element::new(bundle, parent);
        element.style = style;
        let mut writes = components;
        while writes.len() > 0
            invariant
                apply_writes(element@, writes_model(writes@)) == target,
            decreases writes@.len(),
        {
            let ghost writes_pre = writes@;
            let w = writes.remove(0);
            proof {
                assert(writes_model(writes_pre) =~= seq![w@] + writes_model(writes@));
                assert(writes_model(writes_pre).skip(1) =~= writes_model(writes@));
            }
            match w {
                ComponentWrite::Background(c) => {
                    element.background_color = Some(c);
                }
                ComponentWrite::Image(h) => {
                    element.image = Some(h);
                }
                ComponentWrite::ScaleMode(m) => {
                    element.scale_mode = Some(m);
                }
                ComponentWrite::Content(t) => {
                    element.text = Some(t);
                }
                ComponentWrite::Field(f) => {
                    element.text_field = Some(f);
                }
            }
        }
        proof {
            assert(element@ == target);
        }
        let id = scene.spawn(element);
        let mut rest = children;
        while rest.len() > 0
            invariant
                nodes_size(rest@) <= nodes_size(children0),
                scene@ + compile_nodes(
                    rest@,
                    id as int,
                    scene@.len() as int,
                    assets.requests@.len() as int,
                ) == scene0 + seq![target] + compile_nodes(
                    children0,
                    scene0.len() as int,
                    scene0.len() as int + 1,
                    reqs0.len() as int,
                ),
                requests_model(assets.requests@) + nodes_requests(rest@) == requests_model(reqs0)
                    + nodes_requests(children0),
            decreases nodes_size(rest@),
        {
            let ghost rest_pre = rest@;
            let ghost scene_pre = scene@;
            let ghost reqs_pre = assets.requests@;
            let c = rest.remove(0);
            proof {
                assert(rest@ =~= rest_pre.subrange(1, rest_pre.len() as int));
                assert(c == rest_pre[0]);
            }
            c.build_node(scene, assets, Some(id));
            proof {
                assert(requests_model(assets.requests@) =~= requests_model(reqs_pre)
                    + node_requests(c));
                assert(requests_model(assets.requests@).len() == reqs_pre.len() + node_requests(
                    c,
                ).len());
                assert(requests_model(reqs_pre).len() == reqs_pre.len());
                assert(scene@ + compile_nodes(
                    rest@,
                    id as int,
                    scene@.len() as int,
                    assets.requests@.len() as int,
                ) =~= scene_pre + compile_nodes(
                    rest_pre,
                    id as int,
                    scene_pre.len() as int,
                    reqs_pre.len() as int,
                ));
                assert(requests_model(assets.requests@) + nodes_requests(rest@)
                    =~= requests_model(reqs_pre) + nodes_requests(rest_pre));
            }
        }
        proof {
            assert(compile_nodes(
                rest@,
                id as int,
                scene@.len() as int,
                assets.requests@.len() as int,
            ) =~= Seq::<ElementModel>::empty());
            assert(scene@ =~= scene0 + seq![target] + compile_nodes(
                children0,
                scene0.len() as int,
                scene0.len() as int + 1,
                reqs0.len() as int,
            ));
            assert(nodes_requests(rest@) =~= Seq::<Seq<char>>::empty());
            assert(requests_model(assets.requests@) =~= requests_model(reqs0) + nodes_requests(
                children0,
            ));
        }
        id
    }
}

} // verus!
