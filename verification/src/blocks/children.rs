//! The children block: the ordered child descriptions of a container node.

use vstd::prelude::*;

use crate::builders::bundle::NodeBundleBuilder;
use crate::nodes::UiNode;

verus! {

/// The ordered children of a node.  Insertion order is sibling order, and
/// sibling order is paint and traversal order.
#[derive(Debug)]
pub struct NodeChildren {
    /// The child descriptions, in sibling order.
    pub children: Vec<UiNode>,
}

impl Default for NodeChildren {
    fn default() -> (r: Self)
        ensures
            r.children@ =~= Seq::<UiNode>::empty(),
    {
        NodeChildren { children: Vec::new() }
    }
}

impl From<Vec<UiNode>> for NodeChildren {
    fn from(children: Vec<UiNode>) -> (r: NodeChildren) {
        NodeChildren { children }
    }
}

impl vstd::std_specs::convert::FromSpecImpl<Vec<UiNode>> for NodeChildren {
    open spec fn obeys_from_spec() -> bool {
        true
    }

    open spec fn from_spec(v: Vec<UiNode>) -> NodeChildren {
        NodeChildren { children: v }
    }
}

impl NodeChildren {
    /// Hands the child descriptions to the pending element, for compilation
    /// after the element exists.
    pub fn apply_to_node(self, node: &mut NodeBundleBuilder)
        ensures
            final(node).children@ == self.children@,
            final(node).parent == old(node).parent,
            final(node).style == old(node).style,
            final(node).bundle == old(node).bundle,
            final(node).components@ == old(node).components@,
    {
        node.set_children(self.children);
    }
}

} // verus!
