//! The boundary with the host's asset loader.
//!
//! The loader resolves assets asynchronously, outside the compiler's
//! synchronous pass; the compiler only records each request and carries the
//! returned opaque handle.  [`AssetServer`] models exactly that: a log of
//! requested paths, where the handle for a request is its index in the log.

use vstd::prelude::*;

verus! {

/// An opaque reference to a font.
#[derive(Debug, Clone, Copy, PartialEq, Eq, Structural)]
pub enum FontRef {
    /// No particular font; the host substitutes its default face.
    Unspecified,
    /// A font requested from the asset loader; the payload is the index of
    /// the request in the [`AssetServer`] log.
    Asset(usize),
    /// The built-in glyph face used to draw the text cursor.
    BuiltinCursor,
}

impl Default for FontRef {
    fn default() -> (r: Self)
        ensures
            r == FontRef::Unspecified,
    {
        FontRef::Unspecified
    }
}

/// An opaque handle to an image requested from the asset loader; the payload
/// is the index of the request in the [`AssetServer`] log.
#[derive(Debug, Clone, Copy, PartialEq, Eq, Structural)]
pub struct ImageHandle {
    /// The index of the request in the [`AssetServer`] log.
    pub id: usize,
}

/// The character sequences of a sequence of asset paths, path by path.
pub open spec fn requests_model(s: Seq<String>) -> Seq<Seq<char>> {
    s.map_values(|p: String| p@)
}

/// The request log of the host's asset loader.
///
/// Loading never blocks and never fails here: a request is appended to the
/// log and an opaque handle (the request's index) is returned immediately.
/// The host resolves the logged paths out of band.
#[derive(Debug)]
pub struct AssetServer {
    /// Every requested asset path, in request order.
    pub requests: Vec<String>,
}

impl AssetServer {
    /// An asset server with no requests yet.
    pub fn new() -> (s: AssetServer)
        ensures
            s.requests@ =~= Seq::<String>::empty(),
    {
        AssetServer { requests: Vec::new() }
    }

    /// Requests the font at `path` and returns its handle.
    pub fn load_font(&mut self, path: String) -> (h: FontRef)
        ensures
            final(self).requests@ == old(self).requests@.push(path),
            h == FontRef::Asset(old(self).requests@.len() as usize),
    {
        let id = self.requests.len();
        self.requests.push(path);
        FontRef::Asset(id)
    }

    /// Requests the image at `path` and returns its handle.
    pub fn load_image(&mut self, path: String) -> (h: ImageHandle)
        ensures
            final(self).requests@ == old(self).requests@.push(path),
            h == (ImageHandle { id: old(self).requests@.len() as usize }),
    {
        let id = self.requests.len();
        self.requests.push(path);
        ImageHandle { id }
    }
}

} // verus!
