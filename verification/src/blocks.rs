//! Data blocks: self-contained units of configuration that a node carries
//! and that know how to write themselves onto a pending element.
//!
//! Every block has an `apply_to_node` operation that writes into the node's
//! own [`crate::builders::bundle::NodeBundleBuilder`].  The content blocks
//! for text and text fields additionally have an `apply_to_parent`
//! operation: in the two-element split of a text-bearing node they write
//! alignment hints into the *container* builder before it resolves.  Blocks
//! are applied in declaration order; each touches its own style fields and
//! its own aspects, so later blocks may overwrite what earlier ones set
//! without clobbering unrelated fields.

pub mod background;
pub mod children;
pub mod position;
pub mod text;
pub mod text_field;
