//! The parse tree and its mathematical view.
//!
//! The executable tree mirrors the containment hierarchy of the format: a
//! root holds editor groups, an editor group holds materials, a material
//! holds names and texture maps, a texture map holds names.  Insertion order
//! reflects file order and is significant.
//!
//! Each executable node has a ghost counterpart (its deep view) in which
//! every `Vec` is a `Seq` and every `String` a `Seq<char>`; the contracts of
//! the parser and the model in [`crate::model`] speak of those views.

use vstd::prelude::*;

verus! {

/// A child of the container root worth keeping: an editor (scene) group.
#[derive(Debug, PartialEq)]
pub enum Main {
    /// The materials and other recognized content of one editor group.
    Editor(Vec<Editor>),
}

/// A child of an editor group worth keeping: a material group.
#[derive(Debug, PartialEq)]
pub enum Editor {
    /// The recognized content of one material group.
    Material(Vec<Material>),
}

/// A child of a material group worth keeping.
#[derive(Debug, PartialEq)]
pub enum Material {
    /// The material's name, recovered from a null-terminated string payload.
    Name(String),
    /// A texture-map group and its recognized content.
    TextureMap(Vec<MaterialTextureMap>),
}

/// A child of a texture-map group worth keeping.
#[derive(Debug, PartialEq)]
pub enum MaterialTextureMap {
    /// The texture file name, recovered from a null-terminated string payload.
    Name(String),
}

/// The view of a [`Main`] node.
#[verifier::ext_equal]
pub enum MainView {
    /// The view of `Main::Editor`.
    Editor(Seq<EditorView>),
}

/// The view of an [`Editor`] node.
#[verifier::ext_equal]
pub enum EditorView {
    /// The view of `Editor::Material`.
    Material(Seq<MaterialView>),
}

/// The view of a [`Material`] node.
#[verifier::ext_equal]
pub enum MaterialView {
    /// The view of `Material::Name`.
    Name(Seq<char>),
    /// The view of `Material::TextureMap`.
    TextureMap(Seq<MaterialTextureMapView>),
}

/// The view of a [`MaterialTextureMap`] node.
#[verifier::ext_equal]
pub enum MaterialTextureMapView {
    /// The view of `MaterialTextureMap::Name`.
    Name(Seq<char>),
}

impl DeepView for Main {
    type V = MainView;

    open spec fn deep_view(&self) -> MainView {
        match self {
            Main::Editor(items) => MainView::Editor(items.deep_view()),
        }
    }
}

impl DeepView for Editor {
    type V = EditorView;

    open spec fn deep_view(&self) -> EditorView {
        match self {
            Editor::Material(items) => EditorView::Material(items.deep_view()),
        }
    }
}

impl DeepView for Material {
    type V = MaterialView;

    open spec fn deep_view(&self) -> MaterialView {
        match self {
            Material::Name(name) => MaterialView::Name(name@),
            Material::TextureMap(items) => MaterialView::TextureMap(items.deep_view()),
        }
    }
}

impl DeepView for MaterialTextureMap {
    type V = MaterialTextureMapView;

    open spec fn deep_view(&self) -> MaterialTextureMapView {
        match self {
            MaterialTextureMap::Name(name) => MaterialTextureMapView::Name(name@),
        }
    }
}

} // verus!
