//! The declarative node descriptions that are compiled into scene elements,
//! and the run-time state attached to compiled text fields.
//!
//! A node is one element of the UI hierarchy: a canvas, a panel, a text
//! label or a text field.  Nodes may contain other nodes, forming the tree
//! that describes the UI.  A node tree is only a building description: it
//! is consumed once when the UI is built.

use vstd::prelude::*;

use crate::assets::{requests_model, AssetServer};
use crate::blocks::background::{background_requests, background_writes, NodeBackground};
use crate::blocks::children::NodeChildren;
use crate::blocks::position::{position_applied, NodePosition};
use crate::blocks::text::{parent_aligned, text_content_model, text_requests, NodeText};
use crate::blocks::text_field::{field_state_model, field_text_model, NodeTextField};
use crate::builders::bundle::{built_element, writes_model, NodeBundleBuilder, NodeBundleType, WriteModel};
use crate::geometry::{Length, Style, FLOAT_BITS_HUNDRED, FLOAT_BITS_ZERO};
use crate::scene::{well_parented, ElementModel, Scene};

pub mod text_field;

verus! {

/// A declarative description of one UI element and its subtree.
#[derive(Debug)]
pub enum UiNode {
    /// An invisible, full-bleed node meant as the root of a hierarchy.
    Canvas {
        /// The canvas's children.
        children: NodeChildren,
    },
    /// A generic container.
    Panel {
        /// The panel's background.
        background: NodeBackground,
        /// The panel's position.
        position: NodePosition,
        /// The panel's children.
        children: NodeChildren,
    },
    /// A node that shows static text.
    Text {
        /// The node's background.
        background: NodeBackground,
        /// The node's position.
        position: NodePosition,
        /// The text content.
        text: NodeText,
    },
    /// A node that holds an editable text field.
    TextField {
        /// The node's background.
        background: NodeBackground,
        /// The node's position.
        position: NodePosition,
        /// The field's configuration.
        text_field: NodeTextField,
    },
}

/// The structural size of a node tree, used as the compiler's termination
/// measure.
pub open spec fn node_size(n: UiNode) -> nat
    decreases n,
{
    match n {
        UiNode::Canvas { children } => 1 + nodes_size(children.children@),
        UiNode::Panel { children, .. } => 1 + nodes_size(children.children@),
        UiNode::Text { .. } => 2,
        UiNode::TextField { .. } => 2,
    }
}

/// The summed structural size of a forest of nodes.
pub open spec fn nodes_size(s: Seq<UiNode>) -> nat
    decreases s,
{
    if s.len() == 0 {
        0
    } else {
        node_size(s[0]) + nodes_size(s.subrange(1, s.len() as int))
    }
}

/// An identifier option lifted to the model level.
pub open spec fn parent_model(p: Option<usize>) -> Option<int> {
    match p {
        Some(i) => Some(i as int),
        None => None,
    }
}

/// The forced full-bleed style of a canvas: pinned to the parent's origin
/// and covering all of it, whatever else the node said.
pub open spec fn canvas_style() -> Style {
    Style {
        left: Length::Px(FLOAT_BITS_ZERO),
        top: Length::Px(FLOAT_BITS_ZERO),
        width: Length::Percent(FLOAT_BITS_HUNDRED),
        height: Length::Percent(FLOAT_BITS_HUNDRED),
        ..Style::default_spec()
    }
}

/// The element kind a background selects: an image background needs an
/// image element, anything else keeps a plain node.
pub open spec fn background_kind(bg: NodeBackground) -> NodeBundleType {
    if bg is Image {
        NodeBundleType::Image
    } else {
        NodeBundleType::Node
    }
}

/// The asset paths one node's compilation requests, in request order:
/// first the node's own blocks in application order, then its children in
/// sibling order.
pub open spec fn node_requests(n: UiNode) -> Seq<Seq<char>>
    decreases n,
{
    match n {
        UiNode::Canvas { children } => nodes_requests(children.children@),
        UiNode::Panel { background, children, .. } => background_requests(background)
            + nodes_requests(children.children@),
        UiNode::Text { background, text, .. } => background_requests(background) + text_requests(
            text,
        ),
        UiNode::TextField { background, text_field, .. } => background_requests(background) + seq![
            text_field.font@,
        ],
    }
}

/// The asset paths a forest of nodes requests, in sibling order.
pub open spec fn nodes_requests(s: Seq<UiNode>) -> Seq<Seq<char>>
    decreases s,
{
    if s.len() == 0 {
        Seq::<Seq<char>>::empty()
    } else {
        node_requests(s[0]) + nodes_requests(s.subrange(1, s.len() as int))
    }
}

/// The elements one node's compilation appends to the scene, in spawn
/// order.  `parent` is the node's parent element, `base_id` the identifier
/// its first element will get, and `base_req` the index its first asset
/// request will get.
///
/// A canvas or panel produces one element and then its children's
/// elements; a text or text-field node always produces exactly two: the
/// container, then the content element parented to it.
pub open spec fn compile_node(
    n: UiNode,
    parent: Option<int>,
    base_id: int,
    base_req: int,
) -> Seq<ElementModel>
    decreases n,
{
    match n {
        UiNode::Canvas { children } => seq![
            built_element(NodeBundleType::Node, parent, canvas_style(), Seq::<WriteModel>::empty()),
        ] + compile_nodes(children.children@, base_id, base_id + 1, base_req),
        UiNode::Panel { background, position, children } => seq![
            built_element(
                background_kind(background),
                parent,
                position_applied(Style::default_spec(), position),
                background_writes(background, base_req),
            ),
        ] + compile_nodes(
            children.children@,
            base_id,
            base_id + 1,
            base_req + background_requests(background).len(),
        ),
        UiNode::Text { background, position, text } => seq![
            built_element(
                background_kind(background),
                parent,
                parent_aligned(
                    position_applied(Style::default_spec(), position),
                    text.anchor_point,
                ),
                background_writes(background, base_req),
            ),
            built_element(
                NodeBundleType::Text,
                Some(base_id),
                Style::default_spec(),
                seq![
                    WriteModel::Content(
                        text_content_model(
                            text,
                            base_req + background_requests(background).len(),
                        ),
                    ),
                ],
            ),
        ],
        UiNode::TextField { background, position, text_field } => seq![
            built_element(
                background_kind(background),
                parent,
                parent_aligned(
                    position_applied(Style::default_spec(), position),
                    text_field.anchor_point,
                ),
                background_writes(background, base_req),
            ),
            built_element(
                NodeBundleType::Text,
                Some(base_id),
                Style::default_spec(),
                seq![
                    WriteModel::Content(field_text_model(text_field)),
                    WriteModel::Field(
                        field_state_model(
                            text_field,
                            base_req + background_requests(background).len(),
                        ),
                    ),
                ],
            ),
        ],
    }
}

/// The elements a forest of sibling nodes appends, each compiled with
/// `parent` as its parent, identifiers and request indices flowing from
/// left to right.
pub open spec fn compile_nodes(
    s: Seq<UiNode>,
    parent: int,
    base_id: int,
    base_req: int,
) -> Seq<ElementModel>
    decreases s,
{
    if s.len() == 0 {
        Seq::<ElementModel>::empty()
    } else {
        let head = compile_node(s[0], Some(parent), base_id, base_req);
        head + compile_nodes(
            s.subrange(1, s.len() as int),
            parent,
            base_id + head.len(),
            base_req + node_requests(s[0]).len(),
        )
    }
}

/// Canvas compilation always yields the full-bleed geometry — offsets
/// pinned to the parent's origin and full percentage size — independent of
/// anything else: a canvas carries no position block, and its style is
/// forced unconditionally.
pub proof fn lemma_canvas_full_bleed(n: UiNode, parent: Option<int>, base_id: int, base_req: int)
    requires
        n is Canvas,
    ensures
        ({
            let e = compile_node(n, parent, base_id, base_req)[0];
            &&& e.style.top == Length::Px(FLOAT_BITS_ZERO)
            &&& e.style.left == Length::Px(FLOAT_BITS_ZERO)
            &&& e.style.width == Length::Percent(FLOAT_BITS_HUNDRED)
            &&& e.style.height == Length::Percent(FLOAT_BITS_HUNDRED)
            &&& e.parent == parent
            &&& e.kind == NodeBundleType::Node
        }),
{
}

/// A text or text-field node always compiles to exactly two elements —
/// the container, then the content element — and the content element's
/// parent link names the container, whose identifier precedes the
/// content's, so the linkage exists before the content element is built.
/// This holds whether or not the node carries any text.
pub proof fn lemma_text_node_split(n: UiNode, parent: Option<int>, base_id: int, base_req: int)
    requires
        n is Text || n is TextField,
    ensures
        ({
            let es = compile_node(n, parent, base_id, base_req);
            &&& es.len() == 2
            &&& es[0].parent == parent
            &&& es[1].parent == Some(base_id)
            &&& es[1].kind == NodeBundleType::Text
        }),
{
    match n {
        UiNode::Text { background, position, text } => {
            crate::builders::bundle::lemma_apply_writes_frame(
                ElementModel {
                    kind: background_kind(background),
                    parent,
                    style: parent_aligned(
                        position_applied(Style::default_spec(), position),
                        text.anchor_point,
                    ),
                    background_color: None,
                    image: None,
                    scale_mode: None,
                    text: None,
                    text_field: None,
                },
                background_writes(background, base_req),
            );
            crate::builders::bundle::lemma_apply_writes_frame(
                ElementModel {
                    kind: NodeBundleType::Text,
                    parent: Some(base_id),
                    style: Style::default_spec(),
                    background_color: None,
                    image: None,
                    scale_mode: None,
                    text: None,
                    text_field: None,
                },
                seq![
                    WriteModel::Content(
                        text_content_model(
                            text,
                            base_req + background_requests(background).len(),
                        ),
                    ),
                ],
            );
        }
        UiNode::TextField { background, position, text_field } => {
            crate::builders::bundle::lemma_apply_writes_frame(
                ElementModel {
                    kind: background_kind(background),
                    parent,
                    style: parent_aligned(
                        position_applied(Style::default_spec(), position),
                        text_field.anchor_point,
                    ),
                    background_color: None,
                    image: None,
                    scale_mode: None,
                    text: None,
                    text_field: None,
                },
                background_writes(background, base_req),
            );
            crate::builders::bundle::lemma_apply_writes_frame(
                ElementModel {
                    kind: NodeBundleType::Text,
                    parent: Some(base_id),
                    style: Style::default_spec(),
                    background_color: None,
                    image: None,
                    scale_mode: None,
                    text: None,
                    text_field: None,
                },
                seq![
                    WriteModel::Content(field_text_model(text_field)),
                    WriteModel::Field(
                        field_state_model(
                            text_field,
                            base_req + background_requests(background).len(),
                        ),
                    ),
                ],
            );
        }
        _ => {}
    }
}

/// Every element a node compiles to has a valid parent link: the node's
/// own element points at the given parent, and every later element points
/// at an element spawned earlier in the same compilation.
pub proof fn lemma_compile_node_parents(
    n: UiNode,
    parent: Option<int>,
    base_id: int,
    base_req: int,
)
    requires
        0 <= base_id,
        parent matches Some(p) ==> 0 <= p < base_id,
    ensures
        forall|i: int|
            0 <= i < compile_node(n, parent, base_id, base_req).len() ==> (#[trigger] compile_node(
                n,
                parent,
                base_id,
                base_req,
            )[i].parent matches Some(p) ==> 0 <= p < base_id + i),
    decreases node_size(n), 1int,
{
    let es = compile_node(n, parent, base_id, base_req);
    match n {
        UiNode::Canvas { children } => {
            let tail = compile_nodes(children.children@, base_id, base_id + 1, base_req);
            lemma_compile_nodes_parents(children.children@, base_id, base_id + 1, base_req);
            assert forall|i: int|
                0 <= i < es.len() implies (#[trigger] es[i].parent matches Some(p) ==> 0 <= p
                < base_id + i) by {
                if i > 0 {
                    assert(es[i] == tail[i - 1]);
                }
            }
        }
        UiNode::Panel { background, position, children } => {
            let tail = compile_nodes(
                children.children@,
                base_id,
                base_id + 1,
                base_req + background_requests(background).len(),
            );
            crate::builders::bundle::lemma_apply_writes_frame(
                ElementModel {
                    kind: background_kind(background),
                    parent,
                    style: position_applied(Style::default_spec(), position),
                    background_color: None,
                    image: None,
                    scale_mode: None,
                    text: None,
                    text_field: None,
                },
                background_writes(background, base_req),
            );
            lemma_compile_nodes_parents(
                children.children@,
                base_id,
                base_id + 1,
                base_req + background_requests(background).len(),
            );
            assert forall|i: int|
                0 <= i < es.len() implies (#[trigger] es[i].parent matches Some(p) ==> 0 <= p
                < base_id + i) by {
                if i > 0 {
                    assert(es[i] == tail[i - 1]);
                }
            }
        }
        UiNode::Text { .. } => {
            lemma_text_node_split(n, parent, base_id, base_req);
        }
        UiNode::TextField { .. } => {
            lemma_text_node_split(n, parent, base_id, base_req);
        }
    }
}

/// Every element a forest of siblings compiles to points at an element
/// spawned earlier: either the common parent or an ancestor created during
/// the same compilation.
pub proof fn lemma_compile_nodes_parents(s: Seq<UiNode>, parent: int, base_id: int, base_req: int)
    requires
        0 <= parent < base_id,
    ensures
        forall|i: int|
            0 <= i < compile_nodes(s, parent, base_id, base_req).len() ==> (
            #[trigger] compile_nodes(s, parent, base_id, base_req)[i].parent matches Some(p)
                ==> 0 <= p < base_id + i),
    decreases nodes_size(s) + 1, 0int,
{
    if s.len() > 0 {
        let es = compile_nodes(s, parent, base_id, base_req);
        let head = compile_node(s[0], Some(parent), base_id, base_req);
        let tail = compile_nodes(
            s.subrange(1, s.len() as int),
            parent,
            base_id + head.len(),
            base_req + node_requests(s[0]).len(),
        );
        lemma_compile_node_parents(s[0], Some(parent), base_id, base_req);
        lemma_compile_nodes_parents(
            s.subrange(1, s.len() as int),
            parent,
            base_id + head.len(),
            base_req + node_requests(s[0]).len(),
        );
        assert forall|i: int|
            0 <= i < es.len() implies (#[trigger] es[i].parent matches Some(p) ==> 0 <= p < base_id
            + i) by {
            if i < head.len() {
                assert(es[i] == head[i]);
            } else {
                assert(es[i] == tail[i - head.len()]);
            }
        }
    }
}

/// Compiling a root description onto a scene whose parent links are all
/// valid yields a scene whose parent links are all valid: a child's parent
/// reference is in place the moment the child is spawned.
pub proof fn lemma_build_preserves_well_parented(s: Seq<ElementModel>, n: UiNode, base_req: int)
    requires
        well_parented(s),
    ensures
        well_parented(s + compile_node(n, None, s.len() as int, base_req)),
{
    let t = compile_node(n, None, s.len() as int, base_req);
    lemma_compile_node_parents(n, None, s.len() as int, base_req);
    assert forall|i: int|
        0 <= i < (s + t).len() implies match #[trigger] (s + t)[i].parent {
        Some(p) => 0 <= p < i,
        None => true,
    } by {
        if i < s.len() {
            assert((s + t)[i] == s[i]);
        } else {
            assert((s + t)[i] == t[i - s.len()]);
        }
    }
}

impl UiNode {
    /// Compiles this description into a fresh root hierarchy of elements.
    pub fn build(self, scene: &mut Scene, assets: &mut AssetServer)
        ensures
            final(scene)@ == old(scene)@ + compile_node(
                self,
                None,
                old(scene)@.len() as int,
                old(assets).requests@.len() as int,
            ),
            requests_model(final(assets).requests@) == requests_model(old(assets).requests@)
                + node_requests(self),
    {
        self.build_node(scene, assets, None);
    }

    /// Compiles this description into elements under the given parent, per
    /// [`compile_node`].
    pub(crate) fn build_node(self, scene: &mut Scene, assets: &mut AssetServer, parent: Option<usize>)
        ensures
            final(scene)@ == old(scene)@ + compile_node(
                self,
                parent_model(parent),
                old(scene)@.len() as int,
                old(assets).requests@.len() as int,
            ),
            requests_model(final(assets).requests@) == requests_model(old(assets).requests@)
                + node_requests(self),
        decreases node_size(self), 1int,
    {
        let ghost n = self;
        let ghost scene0 = scene@;
        let ghost reqs0 = assets.requests@;
        match self {
            UiNode::Canvas { children } => {
                let mut node = NodeBundleBuilder::default();
                node.set_parent(parent);
                node.style.top = Length::Px(FLOAT_BITS_ZERO);
                node.style.left = Length::Px(FLOAT_BITS_ZERO);
                node.style.width = Length::Percent(FLOAT_BITS_HUNDRED);
                node.style.height = Length::Percent(FLOAT_BITS_HUNDRED);
                proof {
                    assert(node.style == canvas_style());
                }
                children.apply_to_node(&mut node);
                node.build(scene, assets);
                proof {
                    assert(scene@ =~= scene0 + compile_node(
                        n,
                        parent_model(parent),
                        scene0.len() as int,
                        reqs0.len() as int,
                    ));
                }
            }
            UiNode::Panel { background, position, children } => {
                let mut node = NodeBundleBuilder::default();
                node.set_parent(parent);
                background.apply_to_node(&mut node, assets);
                position.apply_to_node(&mut node);
                children.apply_to_node(&mut node);
                node.build(scene, assets);
                proof {
                    assert(scene@ =~= scene0 + compile_node(
                        n,
                        parent_model(parent),
                        scene0.len() as int,
                        reqs0.len() as int,
                    ));
                    assert(requests_model(assets.requests@) =~= requests_model(reqs0)
                        + node_requests(n));
                }
            }
            UiNode::Text { background, position, text } => {
                let ghost bg = background;
                let ghost pos = position;
                let ghost txt = text;
                let mut container_node = NodeBundleBuilder::default();
                container_node.set_parent(parent);
                background.apply_to_node(&mut container_node, assets);
                position.apply_to_node(&mut container_node);
                text.apply_to_parent(&mut container_node);
                proof {
                    assert(writes_model(container_node.components@) =~= background_writes(
                        bg,
                        reqs0.len() as int,
                    ));
                    assert(container_node.bundle == background_kind(bg));
                    assert(container_node.style == parent_aligned(
                        position_applied(Style::default_spec(), pos),
                        txt.anchor_point,
                    ));
                    assert(requests_model(assets.requests@).len() == assets.requests@.len());
                    assert(assets.requests@.len() == reqs0.len() + background_requests(bg).len());
                }
                let container_id = container_node.build(scene, assets);
                proof {
                    assert(requests_model(assets.requests@) =~= requests_model(reqs0)
                        + background_requests(bg));
                    assert(assets.requests@.len() == reqs0.len() + background_requests(bg).len());
                }
                let mut text_node = NodeBundleBuilder::default();
                text_node.set_parent(Some(container_id));
                text.apply_to_node(&mut text_node, assets);
                proof {
                    assert(writes_model(text_node.components@) =~= seq![
                        WriteModel::Content(
                            text_content_model(
                                txt,
                                reqs0.len() + background_requests(bg).len() as int,
                            ),
                        ),
                    ]);
                }
                text_node.build(scene, assets);
                proof {
                    assert(scene@ =~= scene0 + compile_node(
                        n,
                        parent_model(parent),
                        scene0.len() as int,
                        reqs0.len() as int,
                    ));
                    assert(requests_model(assets.requests@) =~= requests_model(reqs0)
                        + node_requests(n));
                }
            }
            UiNode::TextField { background, position, text_field } => {
                let ghost bg = background;
                let ghost pos = position;
                let ghost tf = text_field;
                let mut container_node = NodeBundleBuilder::default();
                container_node.set_parent(parent);
                background.apply_to_node(&mut container_node, assets);
                position.apply_to_node(&mut container_node);
                text_field.apply_to_parent(&mut container_node);
                proof {
                    assert(writes_model(container_node.components@) =~= background_writes(
                        bg,
                        reqs0.len() as int,
                    ));
                    assert(container_node.bundle == background_kind(bg));
                    assert(container_node.style == parent_aligned(
                        position_applied(Style::default_spec(), pos),
                        tf.anchor_point,
                    ));
                    assert(requests_model(assets.requests@).len() == assets.requests@.len());
                    assert(assets.requests@.len() == reqs0.len() + background_requests(bg).len());
                }
                let container_id = container_node.build(scene, assets);
                proof {
                    assert(requests_model(assets.requests@) =~= requests_model(reqs0)
                        + background_requests(bg));
                    assert(assets.requests@.len() == reqs0.len() + background_requests(bg).len());
                }
                let mut field_node = NodeBundleBuilder::default();
                field_node.set_parent(Some(container_id));
                text_field.apply_to_node(&mut field_node, assets);
                proof {
                    assert(writes_model(field_node.components@) =~= seq![
                        WriteModel::Content(field_text_model(tf)),
                        WriteModel::Field(
                            field_state_model(
                                tf,
                                reqs0.len() + background_requests(bg).len() as int,
                            ),
                        ),
                    ]);
                }
                field_node.build(scene, assets);
                proof {
                    assert(scene@ =~= scene0 + compile_node(
                        n,
                        parent_model(parent),
                        scene0.len() as int,
                        reqs0.len() as int,
                    ));
                    assert(requests_model(assets.requests@) =~= requests_model(reqs0)
                        + node_requests(n));
                }
            }
        }
    }
}

} // verus!
