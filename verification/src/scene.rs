//! The retained scene graph that node compilation fills.
//!
//! The host engine owns the live elements; the library's view of them is a
//! [`Scene`]: an arena of [`Element`] records in spawn order, where an
//! element's identifier is its index.  Creating an element appends a record
//! and returns its index; a child always names an already-spawned parent.

use vstd::prelude::*;

use crate::builders::bundle::NodeBundleType;
use crate::geometry::{ImageScaleMode, Rgba, Style};
use crate::assets::ImageHandle;
use crate::nodes::text_field::{FieldModel, TextField};
use crate::text::{Text, TextModel};

verus! {

/// One compiled UI element: its kind, its parent link, its merged style,
/// and the aspects the data blocks attached to it.
#[derive(Debug)]
pub struct Element {
    /// Which kind of element the host creates for this record.
    pub kind: NodeBundleType,
    /// The spawning element's index, or `None` for a root.
    pub parent: Option<usize>,
    /// The merged style record.
    pub style: Style,
    /// The background fill, or the tint of a background image.
    pub background_color: Option<Rgba>,
    /// The background image.
    pub image: Option<ImageHandle>,
    /// How a background image is scaled.
    pub scale_mode: Option<ImageScaleMode>,
    /// Renderable text content.
    pub text: Option<Text>,
    /// Editable text-field state.
    pub text_field: Option<TextField>,
}

/// The mathematical model of an [`Element`].
pub ghost struct ElementModel {
    /// Which kind of element the host creates for this record.
    pub kind: NodeBundleType,
    /// The spawning element's index, or `None` for a root.
    pub parent: Option<int>,
    /// The merged style record.
    pub style: Style,
    /// The background fill, or the tint of a background image.
    pub background_color: Option<Rgba>,
    /// The background image.
    pub image: Option<ImageHandle>,
    /// How a background image is scaled.
    pub scale_mode: Option<ImageScaleMode>,
    /// Renderable text content.
    pub text: Option<TextModel>,
    /// Editable text-field state.
    pub text_field: Option<FieldModel>,
}

impl View for Element {
    type V = ElementModel;

    open spec fn view(&self) -> ElementModel {
        ElementModel {
            kind: self.kind,
            parent: match self.parent {
                Some(p) => Some(p as int),
                None => None,
            },
            style: self.style,
            background_color: self.background_color,
            image: self.image,
            scale_mode: self.scale_mode,
            text: match &self.text {
                Some(t) => Some(t@),
                None => None,
            },
            text_field: match &self.text_field {
                Some(f) => Some(f@),
                None => None,
            },
        }
    }
}

/// A bare element of the given kind and parent: default style, no aspects.
pub open spec fn bare_element(kind: NodeBundleType, parent: Option<int>) -> ElementModel {
    ElementModel {
        kind,
        parent,
        style: Style::default_spec(),
        background_color: None,
        image: None,
        scale_mode: None,
        text: None,
        text_field: None,
    }
}

impl Element {
    /// A bare element of the given kind and parent, for the deferred
    /// writers to fill in.
    pub fn new(kind: NodeBundleType, parent: Option<usize>) -> (e: Element)
        ensures
            e@ == bare_element(
                kind,
                match parent {
                    Some(p) => Some(p as int),
                    None => None,
                },
            ),
    {
        Element {
            kind,
            parent,
            style: Style::default(),
            background_color: None,
            image: None,
            scale_mode: None,
            text: None,
            text_field: None,
        }
    }
}

/// The models of a sequence of elements, element by element.
pub open spec fn scene_model(s: Seq<Element>) -> Seq<ElementModel> {
    s.map_values(|e: Element| e@)
}

/// The retained scene graph: every compiled element, in spawn order.
#[derive(Debug)]
pub struct Scene {
    /// The elements, indexed by their identifiers.
    pub elements: Vec<Element>,
}

impl View for Scene {
    type V = Seq<ElementModel>;

    open spec fn view(&self) -> Seq<ElementModel> {
        scene_model(self.elements@)
    }
}

/// Every parent link in `s` names an element spawned earlier, so child
/// references are valid the moment a child is built.
pub open spec fn well_parented(s: Seq<ElementModel>) -> bool {
    forall|i: int|
        0 <= i < s.len() ==> match #[trigger] s[i].parent {
            Some(p) => 0 <= p < i,
            None => true,
        }
}

impl Scene {
    /// An empty scene.
    pub fn new() -> (s: Scene)
        ensures
            s@ =~= Seq::<ElementModel>::empty(),
    {
        Scene { elements: Vec::new() }
    }

    /// The number of elements spawned so far.
    pub fn len(&self) -> (n: usize)
        ensures
            n == self@.len(),
    {
        self.elements.len()
    }

    /// Spawns `element`, returning its identifier.
    pub fn spawn(&mut self, element: Element) -> (id: usize)
        ensures
            final(self)@ =~= old(self)@.push(element@),
            id == old(self)@.len(),
    {
        let id = self.elements.len();
        self.elements.push(element);
        proof {
            assert(scene_model(self.elements@) =~= scene_model(old(self).elements@).push(element@));
        }
        id
    }
}

} // verus!
