//! Builders: the per-node accumulator that defers element creation until
//! every data block has written into it, and the fluent builders for
//! assembling node descriptions.

pub mod background;
pub mod bundle;
pub mod node;
pub mod position;
pub mod tex_scaling;
pub mod text;
pub mod text_field;
