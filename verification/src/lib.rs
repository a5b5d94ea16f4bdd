//! A declarative UI library with a verified core.
//!
//! The crate covers two subsystems:
//!
//! * a node-tree compiler that turns an immutable tree of declarative node
//!   descriptions ([`nodes::UiNode`]) into a parented hierarchy of positioned,
//!   styled elements inside a retained scene graph ([`scene::Scene`]); and
//! * a text-editing engine for editable text fields: a cursor/selection data
//!   model with insert, delete and select operations, a projector that turns
//!   the model into a fixed set of styled text runs, and a key-event state
//!   machine that drives it.
//!
//! The host engine that performs layout, rendering, asset resolution and
//! input delivery is an external collaborator.  The library talks to it
//! through plain data: the compiler fills a [`scene::Scene`] value that the
//! host walks, asset lookups are recorded as requests in an
//! [`assets::AssetServer`] value, and key input arrives as
//! [`input::KeyEvent`] values.
//!
//! Numeric style quantities (pixel lengths, color channels, font sizes) are
//! carried as the host's 32-bit float bit patterns in `u32` fields.  The
//! library never computes with these quantities, it only routes them, so the
//! bit patterns are opaque payloads here; the host converts them back to its
//! native float type.

pub mod assets;
pub mod blocks;
pub mod builders;
pub mod geometry;
pub mod input;
pub mod nodes;
pub mod scene;
pub mod text;
